use vstd::prelude::*;

use crate::axis::Axis;
use crate::direction::Direction;

verus! {

/// The sign of a coordinate along an axis.
#[derive(Debug, Clone, Copy, PartialEq, Eq, PartialOrd, Ord, Hash, Structural)]
pub enum Pol {
    /// Negative (-) polarity.
    Neg,
    /// Positive (+) polarity.
    Pos,
}

impl Pol {
    /// The opposite sign.
    pub open spec fn spec_invert(self) -> Pol {
        match self {
            Pol::Neg => Pol::Pos,
            Pol::Pos => Pol::Neg,
        }
    }

    /// The sign as a factor: -1 or +1.
    pub open spec fn sign(self) -> int {
        match self {
            Pol::Neg => -1,
            Pol::Pos => 1,
        }
    }

    /// The direction along the X axis with this sign.
    #[inline]
    pub fn x(self) -> (res: Direction)
        ensures
            res == Direction::spec_from_polar_axis(self, Axis::X),
    {
        match self {
            Pol::Neg => Direction::NegX,
            Pol::Pos => Direction::PosX,
        }
    }

    /// The direction along the Y axis with this sign.
    #[inline]
    pub fn y(self) -> (res: Direction)
        ensures
            res == Direction::spec_from_polar_axis(self, Axis::Y),
    {
        match self {
            Pol::Neg => Direction::NegY,
            Pol::Pos => Direction::PosY,
        }
    }

    /// The direction along the Z axis with this sign.
    #[inline]
    pub fn z(self) -> (res: Direction)
        ensures
            res == Direction::spec_from_polar_axis(self, Axis::Z),
    {
        match self {
            Pol::Neg => Direction::NegZ,
            Pol::Pos => Direction::PosZ,
        }
    }

    /// The direction along `axis` with this sign.
    #[inline]
    pub fn with_axis(self, axis: Axis) -> (res: Direction)
        ensures
            res == Direction::spec_from_polar_axis(self, axis),
            res.spec_axis() == axis,
            res.spec_polarity() == self,
    {
        Direction::from_polar_axis(self, axis)
    }

    /// 0 for `Neg`, 1 for `Pos`.
    #[inline(always)]
    pub fn as_u8(self) -> (res: u8)
        ensures
            res == (if self == Pol::Pos { 1u8 } else { 0u8 }),
            2 * res - 1 == self.sign(),
    {
        match self {
            Pol::Neg => 0,
            Pol::Pos => 1,
        }
    }

    #[inline(always)]
    pub fn is_neg(self) -> (res: bool)
        ensures
            res == (self == Pol::Neg),
    {
        matches!(self, Pol::Neg)
    }

    #[inline(always)]
    pub fn is_pos(self) -> (res: bool)
        ensures
            res == (self == Pol::Pos),
    {
        matches!(self, Pol::Pos)
    }

    /// The opposite sign.
    #[inline(always)]
    pub fn invert(self) -> (res: Pol)
        ensures
            res == self.spec_invert(),
            res != self,
            res.sign() == -self.sign(),
    {
        match self {
            Pol::Neg => Pol::Pos,
            Pol::Pos => Pol::Neg,
        }
    }
}

impl Default for Pol {
    fn default() -> (res: Pol)
        ensures
            res == Pol::Neg,
    {
        Pol::Neg
    }
}

} // verus!
