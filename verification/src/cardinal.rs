use vstd::arithmetic::power2::{lemma2_to64, pow2};
use vstd::prelude::*;

use crate::packing::wrap_angle;

verus! {

/// One of the four horizontal directions. They are numbered
/// counter-clockwise, seen from above, from north: the number of a
/// direction is its angle in quarter turns.
#[derive(Debug, Clone, Copy, PartialEq, Eq, Hash, Structural)]
pub enum Cardinal {
    /// -Z
    North,
    /// -X
    West,
    /// +Z
    South,
    /// +X
    East,
}

impl Cardinal {
    pub const FORWARD: Cardinal = Cardinal::North;

    pub const LEFT: Cardinal = Cardinal::West;

    pub const BACKWARD: Cardinal = Cardinal::South;

    pub const RIGHT: Cardinal = Cardinal::East;

    /// The four directions by rising angle: north, west, south, east.
    pub const ALL: [Cardinal; 4] = [
        Cardinal::North,
        Cardinal::West,
        Cardinal::South,
        Cardinal::East,
    ];

    pub const FLOOD_NORTH_EAST: [Cardinal; 4] = [
        Cardinal::North,
        Cardinal::South,
        Cardinal::East,
        Cardinal::West,
    ];

    pub const FLOOD_NORTH_WEST: [Cardinal; 4] = [
        Cardinal::North,
        Cardinal::South,
        Cardinal::West,
        Cardinal::East,
    ];

    pub const FLOOD_SOUTH_EAST: [Cardinal; 4] = [
        Cardinal::South,
        Cardinal::North,
        Cardinal::East,
        Cardinal::West,
    ];

    pub const FLOOD_SOUTH_WEST: [Cardinal; 4] = [
        Cardinal::South,
        Cardinal::North,
        Cardinal::West,
        Cardinal::East,
    ];

    /// The angle of the direction, in quarter turns counter-clockwise from
    /// north.
    pub open spec fn spec_angle(self) -> int {
        match self {
            Cardinal::North => 0,
            Cardinal::West => 1,
            Cardinal::South => 2,
            Cardinal::East => 3,
        }
    }

    /// The direction at `angle` quarter turns from north, counted modulo
    /// 4.
    pub open spec fn spec_at_angle(angle: int) -> Cardinal {
        let turns = angle % 4;
        if turns == 0 {
            Cardinal::North
        } else if turns == 1 {
            Cardinal::West
        } else if turns == 2 {
            Cardinal::South
        } else {
            Cardinal::East
        }
    }

    /// The horizontal unit vector of the direction: X first, then Z.
    pub open spec fn spec_unit(self) -> (int, int) {
        match self {
            Cardinal::North => (0, -1),
            Cardinal::West => (-1, 0),
            Cardinal::South => (0, 1),
            Cardinal::East => (1, 0),
        }
    }

    /// The direction at `angle` quarter turns counter-clockwise from
    /// north.
    #[inline]
    pub fn at_angle(angle: i32) -> (res: Cardinal)
        ensures
            res == Self::spec_at_angle(angle as int),
            res.spec_angle() == (angle as int) % 4,
    {
        match wrap_angle(angle) {
            0 => Cardinal::North,
            1 => Cardinal::West,
            2 => Cardinal::South,
            _ => Cardinal::East,
        }
    }

    /// Turn the direction counter-clockwise by `rotation` quarter turns.
    #[inline]
    pub fn rotate(self, rotation: i32) -> (res: Cardinal)
        ensures
            res == Self::spec_at_angle(self.spec_angle() + rotation),
            res.spec_angle() == (self.spec_angle() + rotation) % 4,
    {
        let sum: i64 = rotation as i64 + self.angle() as i64;
        assert(sum & 3 == sum % 4) by (bit_vector);
        match sum & 3 {
            0 => Cardinal::North,
            1 => Cardinal::West,
            2 => Cardinal::South,
            _ => Cardinal::East,
        }
    }

    /// The opposite direction.
    #[inline]
    pub fn invert(self) -> (res: Cardinal)
        ensures
            res == Self::spec_at_angle(self.spec_angle() + 2),
            res.spec_unit() == (-self.spec_unit().0, -self.spec_unit().1),
    {
        match self {
            Cardinal::North => Cardinal::South,
            Cardinal::West => Cardinal::East,
            Cardinal::South => Cardinal::North,
            Cardinal::East => Cardinal::West,
        }
    }

    /// The angle of the direction as a single set bit.
    #[inline]
    pub fn bit(self) -> (res: u8)
        ensures
            res as nat == pow2(self.spec_angle() as nat),
    {
        let index = self.discriminant();
        proof {
            lemma2_to64();
            assert(index < 4 ==> (1u8 << index) == (if index == 0 {
                1u8
            } else if index == 1 {
                2u8
            } else if index == 2 {
                4u8
            } else {
                8u8
            })) by (bit_vector);
        }
        1u8 << index
    }

    /// The number of the direction: its angle.
    #[inline]
    pub fn discriminant(self) -> (res: u8)
        ensures
            res as int == self.spec_angle(),
            res < 4,
    {
        match self {
            Cardinal::North => 0,
            Cardinal::West => 1,
            Cardinal::South => 2,
            Cardinal::East => 3,
        }
    }

    /// The angle of the direction, in quarter turns counter-clockwise from
    /// north.
    #[inline]
    pub fn angle(self) -> (res: i32)
        ensures
            res as int == self.spec_angle(),
            0 <= res < 4,
    {
        match self {
            Cardinal::North => 0,
            Cardinal::West => 1,
            Cardinal::South => 2,
            Cardinal::East => 3,
        }
    }

    /// The four directions by rising angle.
    #[inline]
    pub fn iter() -> (res: [Cardinal; 4])
        ensures
            res@ == seq![Cardinal::North, Cardinal::West, Cardinal::South, Cardinal::East],
    {
        [Cardinal::North, Cardinal::West, Cardinal::South, Cardinal::East]
    }

    /// The four directions in the order north, south, east, west.
    #[inline]
    pub fn iter_ne() -> (res: [Cardinal; 4])
        ensures
            res@ == seq![Cardinal::North, Cardinal::South, Cardinal::East, Cardinal::West],
    {
        [Cardinal::North, Cardinal::South, Cardinal::East, Cardinal::West]
    }

    /// The four directions in the order north, south, west, east.
    #[inline]
    pub fn iter_nw() -> (res: [Cardinal; 4])
        ensures
            res@ == seq![Cardinal::North, Cardinal::South, Cardinal::West, Cardinal::East],
    {
        [Cardinal::North, Cardinal::South, Cardinal::West, Cardinal::East]
    }

    /// The four directions in the order south, north, east, west.
    #[inline]
    pub fn iter_se() -> (res: [Cardinal; 4])
        ensures
            res@ == seq![Cardinal::South, Cardinal::North, Cardinal::East, Cardinal::West],
    {
        [Cardinal::South, Cardinal::North, Cardinal::East, Cardinal::West]
    }

    /// The four directions in the order south, north, west, east.
    #[inline]
    pub fn iter_sw() -> (res: [Cardinal; 4])
        ensures
            res@ == seq![Cardinal::South, Cardinal::North, Cardinal::West, Cardinal::East],
    {
        [Cardinal::South, Cardinal::North, Cardinal::West, Cardinal::East]
    }

    /// The horizontal unit vector of the direction: X first, then Z.
    #[inline]
    pub fn to_ituple2(self) -> (res: (i32, i32))
        ensures
            (res.0 as int, res.1 as int) == self.spec_unit(),
    {
        match self {
            Cardinal::North => (0, -1),
            Cardinal::West => (-1, 0),
            Cardinal::South => (0, 1),
            Cardinal::East => (1, 0),
        }
    }

    /// The unit vector of the direction in space: nothing along Y.
    #[inline]
    pub fn to_ituple3(self) -> (res: (i32, i32, i32))
        ensures
            (res.0 as int, res.2 as int) == self.spec_unit(),
            res.1 == 0,
    {
        match self {
            Cardinal::North => (0, 0, -1),
            Cardinal::West => (-1, 0, 0),
            Cardinal::South => (0, 0, 1),
            Cardinal::East => (1, 0, 0),
        }
    }
}

/// Turning a direction by one angle and then by another is turning it by
/// their sum; four quarter turns, or none, change nothing; inverting twice
/// gives the direction back.
pub proof fn lemma_cardinal_turns(c: Cardinal, a: int, b: int)
    ensures
        Cardinal::spec_at_angle(Cardinal::spec_at_angle(c.spec_angle() + a).spec_angle() + b)
            == Cardinal::spec_at_angle(c.spec_angle() + a + b),
        Cardinal::spec_at_angle(c.spec_angle()) == c,
        Cardinal::spec_at_angle(c.spec_angle() + 4) == c,
        Cardinal::spec_at_angle(Cardinal::spec_at_angle(c.spec_angle() + 2).spec_angle() + 2) == c,
{
}

} // verus!
