use vstd::prelude::*;

use crate::direction::Direction;
use crate::polarity::Pol;

verus! {

/// A coordinate axis, without a sign.
#[derive(Debug, Clone, Copy, PartialEq, Eq, Hash, Structural)]
pub enum Axis {
    X,
    Y,
    Z,
}

impl Axis {
    /// The face normal that points along the positive side of this axis.
    pub open spec fn spec_pos(self) -> Direction {
        match self {
            Axis::X => Direction::PosX,
            Axis::Y => Direction::PosY,
            Axis::Z => Direction::PosZ,
        }
    }

    /// The face normal that points along the negative side of this axis.
    pub open spec fn spec_neg(self) -> Direction {
        match self {
            Axis::X => Direction::NegX,
            Axis::Y => Direction::NegY,
            Axis::Z => Direction::NegZ,
        }
    }

    /// The positive direction of the axis.
    #[inline]
    pub fn pos(self) -> (res: Direction)
        ensures
            res == self.spec_pos(),
            res.spec_axis() == self,
            res.spec_polarity() == Pol::Pos,
    {
        match self {
            Axis::X => Direction::PosX,
            Axis::Y => Direction::PosY,
            Axis::Z => Direction::PosZ,
        }
    }

    /// The negative direction of the axis.
    #[inline]
    pub fn neg(self) -> (res: Direction)
        ensures
            res == self.spec_neg(),
            res.spec_axis() == self,
            res.spec_polarity() == Pol::Neg,
    {
        match self {
            Axis::X => Direction::NegX,
            Axis::Y => Direction::NegY,
            Axis::Z => Direction::NegZ,
        }
    }
}

} // verus!
