use vstd::arithmetic::power2::{lemma2_to64, pow2};
use vstd::prelude::*;

use crate::axis::Axis;
use crate::flip::Flip;
use crate::packing::wrap_angle;
use crate::polarity::Pol;
use crate::rotation::Rotation;

verus! {

/// One of the six outward face normals of a cube.
///
/// Two numberings are in use. The variants are declared negative axes
/// first; the rotation index (`PosY` = 0, `PosX` = 1, `PosZ` = 2, `NegY` = 3,
/// `NegX` = 4, `NegZ` = 5) is the one that packed rotations are built on and
/// that `discriminant` reports.
#[derive(Debug, Clone, Copy, PartialEq, Eq, Hash, Structural)]
pub enum Direction {
    /// Left
    NegX,
    /// Down
    NegY,
    /// Forward
    NegZ,
    /// Right
    PosX,
    /// Up
    PosY,
    /// Back
    PosZ,
}

impl Direction {
    /// All directions, negative axes first.
    pub const ALL: [Direction; 6] = [
        Direction::NegX,
        Direction::NegY,
        Direction::NegZ,
        Direction::PosX,
        Direction::PosY,
        Direction::PosZ,
    ];

    /// All directions, ordered by rotation index.
    pub const INDEX_ORDER: [Direction; 6] = [
        Direction::PosY,
        Direction::PosX,
        Direction::PosZ,
        Direction::NegY,
        Direction::NegX,
        Direction::NegZ,
    ];

    /// All directions, in the order a flood fill visits them.
    pub const FLOOD: [Direction; 6] = [
        Direction::PosY,
        Direction::NegY,
        Direction::PosX,
        Direction::NegX,
        Direction::PosZ,
        Direction::NegZ,
    ];

    pub const LEFT: Direction = Direction::NegX;

    pub const DOWN: Direction = Direction::NegY;

    pub const FORWARD: Direction = Direction::NegZ;

    pub const RIGHT: Direction = Direction::PosX;

    pub const UP: Direction = Direction::PosY;

    pub const BACKWARD: Direction = Direction::PosZ;

    pub const NORTH: Direction = Direction::NegZ;

    pub const WEST: Direction = Direction::NegX;

    pub const SOUTH: Direction = Direction::PosZ;

    pub const EAST: Direction = Direction::PosX;

    /// The axis that the direction lies on.
    pub open spec fn spec_axis(self) -> Axis {
        match self {
            Direction::NegX | Direction::PosX => Axis::X,
            Direction::NegY | Direction::PosY => Axis::Y,
            Direction::NegZ | Direction::PosZ => Axis::Z,
        }
    }

    /// The side of its axis that the direction points to.
    pub open spec fn spec_polarity(self) -> Pol {
        match self {
            Direction::NegX | Direction::NegY | Direction::NegZ => Pol::Neg,
            Direction::PosX | Direction::PosY | Direction::PosZ => Pol::Pos,
        }
    }

    /// The direction on `axis` with sign `pol`.
    pub open spec fn spec_from_polar_axis(pol: Pol, axis: Axis) -> Direction {
        match pol {
            Pol::Neg => axis.spec_neg(),
            Pol::Pos => axis.spec_pos(),
        }
    }

    /// The opposite direction: same axis, other sign.
    pub open spec fn spec_invert(self) -> Direction {
        Self::spec_from_polar_axis(self.spec_polarity().spec_invert(), self.spec_axis())
    }

    /// The direction after the reflection `flip`: the opposite direction
    /// where `flip` reflects the axis, else the direction itself.
    pub open spec fn spec_flip(self, flip: Flip) -> Direction {
        if flip.spec_flips(self.spec_axis()) {
            self.spec_invert()
        } else {
            self
        }
    }

    /// Two directions are orthogonal when they lie on different axes.
    pub open spec fn spec_is_orthogonal_to(self, other: Direction) -> bool {
        self.spec_axis() != other.spec_axis()
    }

    /// The position of the direction in rotation-index order.
    pub open spec fn spec_rotation_index(self) -> int {
        match self {
            Direction::PosY => 0,
            Direction::PosX => 1,
            Direction::PosZ => 2,
            Direction::NegY => 3,
            Direction::NegX => 4,
            Direction::NegZ => 5,
        }
    }

    /// The direction at position `index` of the rotation-index order.
    pub open spec fn spec_from_rotation_index(index: int) -> Direction {
        if index == 0 {
            Direction::PosY
        } else if index == 1 {
            Direction::PosX
        } else if index == 2 {
            Direction::PosZ
        } else if index == 3 {
            Direction::NegY
        } else if index == 4 {
            Direction::NegX
        } else {
            Direction::NegZ
        }
    }

    /// The neighbour whose normal points to the top of this face's UV plane
    /// on a cube that has not been turned.
    pub open spec fn spec_up(self) -> Direction {
        match self {
            Direction::NegX => Direction::PosY,
            Direction::NegY => Direction::PosZ,
            Direction::NegZ => Direction::PosY,
            Direction::PosX => Direction::PosY,
            Direction::PosY => Direction::NegZ,
            Direction::PosZ => Direction::PosY,
        }
    }

    /// The neighbour whose normal points to the left of this face's UV plane
    /// on a cube that has not been turned.
    pub open spec fn spec_left(self) -> Direction {
        match self {
            Direction::NegX => Direction::NegZ,
            Direction::NegY => Direction::NegX,
            Direction::NegZ => Direction::PosX,
            Direction::PosX => Direction::PosZ,
            Direction::PosY => Direction::NegX,
            Direction::PosZ => Direction::NegX,
        }
    }

    /// The neighbour opposite to `spec_up`.
    pub open spec fn spec_down(self) -> Direction {
        self.spec_up().spec_invert()
    }

    /// The neighbour opposite to `spec_left`.
    pub open spec fn spec_right(self) -> Direction {
        self.spec_left().spec_invert()
    }

    /// The neighbour reached from `spec_up` by `angle` quarter turns
    /// counter-clockwise: up, left, down, right, and so on.
    pub open spec fn spec_up_at_angle(self, angle: int) -> Direction {
        let turns = angle % 4;
        if turns == 0 {
            self.spec_up()
        } else if turns == 1 {
            self.spec_left()
        } else if turns == 2 {
            self.spec_down()
        } else {
            self.spec_right()
        }
    }

    /// The neighbour reached from `spec_left` by `angle` quarter turns.
    pub open spec fn spec_left_at_angle(self, angle: int) -> Direction {
        self.spec_up_at_angle(angle + 1)
    }

    /// The neighbour reached from `spec_down` by `angle` quarter turns.
    pub open spec fn spec_down_at_angle(self, angle: int) -> Direction {
        self.spec_up_at_angle(angle + 2)
    }

    /// The neighbour reached from `spec_right` by `angle` quarter turns.
    pub open spec fn spec_right_at_angle(self, angle: int) -> Direction {
        self.spec_up_at_angle(angle + 3)
    }

    /// The number of quarter turns, from 0 to 3, that lead from `spec_up` to
    /// the neighbour `neighbour`.
    pub open spec fn spec_angle_to(self, neighbour: Direction) -> int {
        if self.spec_up() == neighbour {
            0
        } else if self.spec_left() == neighbour {
            1
        } else if self.spec_down() == neighbour {
            2
        } else {
            3
        }
    }

    /// The name of the direction.
    pub open spec fn spec_name(self) -> Seq<char> {
        match self {
            Direction::NegX => "NegX"@,
            Direction::NegY => "NegY"@,
            Direction::NegZ => "NegZ"@,
            Direction::PosX => "PosX"@,
            Direction::PosY => "PosY"@,
            Direction::PosZ => "PosZ"@,
        }
    }

    /// The unit vector of the direction.
    pub open spec fn spec_unit(self) -> (int, int, int) {
        let s = self.spec_polarity().sign();
        match self.spec_axis() {
            Axis::X => (s, 0, 0),
            Axis::Y => (0, s, 0),
            Axis::Z => (0, 0, s),
        }
    }

    /// Invert the direction: `NegX` becomes `PosX`, `PosX` becomes `NegX`,
    /// and so on.
    #[inline]
    pub fn invert(self) -> (res: Direction)
        ensures
            res == self.spec_invert(),
    {
        match self {
            Direction::NegX => Direction::PosX,
            Direction::NegY => Direction::PosY,
            Direction::NegZ => Direction::PosZ,
            Direction::PosX => Direction::NegX,
            Direction::PosY => Direction::NegY,
            Direction::PosZ => Direction::NegZ,
        }
    }

    /// Reflect the direction by `flip`.
    #[inline]
    pub fn flip(self, flip: Flip) -> (res: Direction)
        ensures
            res == self.spec_flip(flip),
    {
        if flip.is_flipped(self) {
            self.invert()
        } else {
            self
        }
    }

    /// Turn the direction by `rotation`.
    #[inline]
    pub fn rotate(self, rotation: Rotation) -> (res: Direction)
        ensures
            res == rotation.spec_reface(self),
    {
        rotation.reface(self)
    }

    /// The axis of the direction.
    #[inline]
    pub fn axis(self) -> (res: Axis)
        ensures
            res == self.spec_axis(),
    {
        match self {
            Direction::NegX | Direction::PosX => Axis::X,
            Direction::NegY | Direction::PosY => Axis::Y,
            Direction::NegZ | Direction::PosZ => Axis::Z,
        }
    }

    /// The sign of the direction.
    #[inline]
    pub fn polarity(self) -> (res: Pol)
        ensures
            res == self.spec_polarity(),
    {
        match self {
            Direction::NegX | Direction::NegY | Direction::NegZ => Pol::Neg,
            Direction::PosX | Direction::PosY | Direction::PosZ => Pol::Pos,
        }
    }

    /// The direction on `axis` with sign `pol`.
    #[inline]
    pub fn from_polar_axis(pol: Pol, axis: Axis) -> (res: Direction)
        ensures
            res == Self::spec_from_polar_axis(pol, axis),
            res.spec_axis() == axis,
            res.spec_polarity() == pol,
    {
        match pol {
            Pol::Neg => axis.neg(),
            Pol::Pos => axis.pos(),
        }
    }

    /// Whether the two directions lie on different axes.
    #[inline]
    pub fn is_orthogonal_to(self, other: Direction) -> (res: bool)
        ensures
            res == self.spec_is_orthogonal_to(other),
            res == (other != self && other != self.spec_invert()),
    {
        self.axis() != other.axis()
    }

    /// The rotation index as a single set bit.
    #[inline]
    pub fn bit(self) -> (res: u8)
        ensures
            res as nat == pow2(self.spec_rotation_index() as nat),
    {
        let index = self.discriminant();
        proof {
            lemma2_to64();
            assert(index < 6 ==> (1u8 << index) == (if index == 0 {
                1u8
            } else if index == 1 {
                2u8
            } else if index == 2 {
                4u8
            } else if index == 3 {
                8u8
            } else if index == 4 {
                16u8
            } else {
                32u8
            })) by (bit_vector);
        }
        1u8 << index
    }

    /// The number that stands for the direction in packed values. It is the
    /// rotation index.
    #[inline]
    pub fn discriminant(self) -> (res: u8)
        ensures
            res as int == self.spec_rotation_index(),
            res < 6,
    {
        self.rotation_discriminant()
    }

    /// The rotation index: `PosY` = 0, `PosX` = 1, `PosZ` = 2, `NegY` = 3,
    /// `NegX` = 4, `NegZ` = 5. Packed rotations depend on this numbering.
    #[inline]
    pub fn rotation_discriminant(self) -> (res: u8)
        ensures
            res as int == self.spec_rotation_index(),
            res < 6,
    {
        match self {
            Direction::PosY => 0,
            Direction::PosX => 1,
            Direction::PosZ => 2,
            Direction::NegY => 3,
            Direction::NegX => 4,
            Direction::NegZ => 5,
        }
    }

    /// The direction with rotation index `index`, if there is one.
    #[inline]
    pub fn from_rotation_discriminant(index: u8) -> (res: Option<Direction>)
        ensures
            index < 6 <==> res.is_some(),
            res matches Some(d) ==> d == Self::spec_from_rotation_index(index as int)
                && d.spec_rotation_index() == index,
    {
        match index {
            0 => Some(Direction::PosY),
            1 => Some(Direction::PosX),
            2 => Some(Direction::PosZ),
            3 => Some(Direction::NegY),
            4 => Some(Direction::NegX),
            5 => Some(Direction::NegZ),
            _ => None,
        }
    }

    /// The six directions in the order `NegX`, `NegY`, `NegZ`, `PosX`,
    /// `PosY`, `PosZ`.
    #[inline]
    pub fn iter() -> (res: [Direction; 6])
        ensures
            res@ == seq![
                Direction::NegX,
                Direction::NegY,
                Direction::NegZ,
                Direction::PosX,
                Direction::PosY,
                Direction::PosZ,
            ],
    {
        [
            Direction::NegX,
            Direction::NegY,
            Direction::NegZ,
            Direction::PosX,
            Direction::PosY,
            Direction::PosZ,
        ]
    }

    /// The six directions by rising rotation index.
    #[inline]
    pub fn iter_discriminant_order() -> (res: [Direction; 6])
        ensures
            res@.len() == 6,
            forall|i: int| 0 <= i < 6 ==> (#[trigger] res@[i]).spec_rotation_index() == i,
    {
        [
            Direction::PosY,
            Direction::PosX,
            Direction::PosZ,
            Direction::NegY,
            Direction::NegX,
            Direction::NegZ,
        ]
    }

    /// On a cube that has not been turned, the face whose normal points to
    /// the top of this face's UV plane.
    #[inline]
    pub fn up(self) -> (res: Direction)
        ensures
            res == self.spec_up(),
    {
        match self {
            Direction::NegX => Direction::PosY,
            Direction::NegY => Direction::PosZ,
            Direction::NegZ => Direction::PosY,
            Direction::PosX => Direction::PosY,
            Direction::PosY => Direction::NegZ,
            Direction::PosZ => Direction::PosY,
        }
    }

    /// `up`, turned counter-clockwise by `angle` quarter turns.
    pub fn up_at_angle(self, angle: i32) -> (res: Direction)
        ensures
            res == self.spec_up_at_angle(angle as int),
    {
        match wrap_angle(angle) {
            0 => self.up(),
            1 => self.left(),
            2 => self.down(),
            _ => self.right(),
        }
    }

    /// On a cube that has not been turned, the face whose normal points to
    /// the left of this face's UV plane.
    #[inline]
    pub fn left(self) -> (res: Direction)
        ensures
            res == self.spec_left(),
    {
        match self {
            Direction::NegX => Direction::NegZ,
            Direction::NegY => Direction::NegX,
            Direction::NegZ => Direction::PosX,
            Direction::PosX => Direction::PosZ,
            Direction::PosY => Direction::NegX,
            Direction::PosZ => Direction::NegX,
        }
    }

    /// `left`, turned counter-clockwise by `angle` quarter turns.
    pub fn left_at_angle(self, angle: i32) -> (res: Direction)
        ensures
            res == self.spec_left_at_angle(angle as int),
    {
        match wrap_angle(angle) {
            0 => self.left(),
            1 => self.down(),
            2 => self.right(),
            _ => self.up(),
        }
    }

    /// On a cube that has not been turned, the face whose normal points to
    /// the bottom of this face's UV plane.
    #[inline]
    pub fn down(self) -> (res: Direction)
        ensures
            res == self.spec_down(),
    {
        match self {
            Direction::NegX => Direction::NegY,
            Direction::NegY => Direction::NegZ,
            Direction::NegZ => Direction::NegY,
            Direction::PosX => Direction::NegY,
            Direction::PosY => Direction::PosZ,
            Direction::PosZ => Direction::NegY,
        }
    }

    /// `down`, turned counter-clockwise by `angle` quarter turns.
    pub fn down_at_angle(self, angle: i32) -> (res: Direction)
        ensures
            res == self.spec_down_at_angle(angle as int),
    {
        match wrap_angle(angle) {
            0 => self.down(),
            1 => self.right(),
            2 => self.up(),
            _ => self.left(),
        }
    }

    /// On a cube that has not been turned, the face whose normal points to
    /// the right of this face's UV plane.
    #[inline]
    pub fn right(self) -> (res: Direction)
        ensures
            res == self.spec_right(),
    {
        match self {
            Direction::NegX => Direction::PosZ,
            Direction::NegY => Direction::PosX,
            Direction::NegZ => Direction::NegX,
            Direction::PosX => Direction::NegZ,
            Direction::PosY => Direction::PosX,
            Direction::PosZ => Direction::PosX,
        }
    }

    /// `right`, turned counter-clockwise by `angle` quarter turns.
    pub fn right_at_angle(self, angle: i32) -> (res: Direction)
        ensures
            res == self.spec_right_at_angle(angle as int),
    {
        match wrap_angle(angle) {
            0 => self.right(),
            1 => self.up(),
            2 => self.left(),
            _ => self.down(),
        }
    }

    /// The name of the direction, such as `NegX`.
    pub fn name(self) -> (res: &'static str)
        ensures
            res@ == self.spec_name(),
    {
        match self {
            Direction::NegX => "NegX",
            Direction::NegY => "NegY",
            Direction::NegZ => "NegZ",
            Direction::PosX => "PosX",
            Direction::PosY => "PosY",
            Direction::PosZ => "PosZ",
        }
    }

    /// The unit vector of the direction.
    #[inline]
    pub fn to_ituple(self) -> (res: (i32, i32, i32))
        ensures
            (res.0 as int, res.1 as int, res.2 as int) == self.spec_unit(),
    {
        match self {
            Direction::NegX => (-1, 0, 0),
            Direction::NegY => (0, -1, 0),
            Direction::NegZ => (0, 0, -1),
            Direction::PosX => (1, 0, 0),
            Direction::PosY => (0, 1, 0),
            Direction::PosZ => (0, 0, 1),
        }
    }

    /// The unit vector of the direction, as an array.
    #[inline]
    pub fn to_iarray(self) -> (res: [i32; 3])
        ensures
            (res@[0] as int, res@[1] as int, res@[2] as int) == self.spec_unit(),
    {
        let (x, y, z) = self.to_ituple();
        [x, y, z]
    }
}

impl core::ops::Neg for Direction {
    type Output = Direction;

    /// The opposite direction.
    #[inline]
    fn neg(self) -> (res: Direction) {
        self.invert()
    }
}

impl vstd::std_specs::ops::NegSpecImpl for Direction {
    open spec fn obeys_neg_spec() -> bool {
        true
    }

    open spec fn neg_req(self) -> bool {
        true
    }

    open spec fn neg_spec(self) -> Direction {
        self.spec_invert()
    }
}

impl From<Direction> for (i32, i32, i32) {
    /// The unit vector of the direction.
    #[inline]
    fn from(value: Direction) -> (res: (i32, i32, i32)) {
        value.to_ituple()
    }
}

impl vstd::std_specs::convert::FromSpecImpl<Direction> for (i32, i32, i32) {
    open spec fn obeys_from_spec() -> bool {
        true
    }

    open spec fn from_spec(value: Direction) -> (i32, i32, i32) {
        (value.spec_unit().0 as i32, value.spec_unit().1 as i32, value.spec_unit().2 as i32)
    }
}

/// Inverting a direction twice gives the direction back.
pub proof fn lemma_invert_involutive(d: Direction)
    ensures
        d.spec_invert().spec_invert() == d,
        d.spec_invert() != d,
{
}

/// Reflecting by one flip and then by another is reflecting by their
/// composition; reflecting by no axis changes nothing; a reflection keeps
/// the axis, takes opposite directions to opposite directions and keeps
/// orthogonal directions orthogonal.
pub proof fn lemma_flip_direction(d: Direction, a: Flip, b: Flip)
    ensures
        d.spec_flip(a).spec_flip(b) == d.spec_flip(a.spec_flip(b)),
        d.spec_flip(Flip::NONE) == d,
        d.spec_flip(a).spec_flip(a) == d,
        d.spec_flip(a).spec_axis() == d.spec_axis(),
        d.spec_invert().spec_flip(a) == d.spec_flip(a).spec_invert(),
{
}

/// Every direction is a face, its opposite, or one of the four neighbours
/// of the face; the neighbours are orthogonal to the face, and each to
/// the next.
pub proof fn lemma_neighbours(face: Direction, d: Direction)
    ensures
        d == face || d == face.spec_invert() || d == face.spec_up() || d == face.spec_left() || d
            == face.spec_down() || d == face.spec_right(),
        d.spec_is_orthogonal_to(face) <==> (d == face.spec_up() || d == face.spec_left() || d
            == face.spec_down() || d == face.spec_right()),
        face.spec_up().spec_is_orthogonal_to(face.spec_left()),
{
}

} // verus!
