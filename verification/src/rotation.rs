//! The 24 rotations of a cube.
//!
//! Angles count quarter turns counter-clockwise: an angle of 1 is 90
//! degrees, 2 is 180 and 3 is 270.

use vstd::prelude::*;
use vstd::string::StringExecFns;

use crate::coord::{spec_component, spec_has_component, spec_values, SignedCoord};
use crate::direction::Direction;
use crate::direction::Direction::{NegX, NegY, NegZ, PosX, PosY, PosZ};
use crate::flip::Flip;
use crate::frame::{spec_frame_reface, spec_frame_source_face};
use crate::orientation::Orientation;
use crate::packing::wrap_angle;
use crate::rotation_laws::{
    lemma_corner_rotation, lemma_deorient, lemma_face_rotation, lemma_invert, lemma_reorient,
};

verus! {

/// A rotation of the cube that maps faces to faces, without reflection.
///
/// A rotation is given by the direction that the cube's top ends up facing
/// (`up`) and by the number of quarter turns about that direction
/// (`angle`). It is held as one byte below 24: the angle in the two low
/// bits, the rotation index of `up` above them.
#[derive(Debug, Clone, Copy, PartialEq, Eq, Hash, Structural)]
pub struct Rotation(u8);

impl Rotation {
    /// The packed value: four times the rotation index of `up`, plus the
    /// angle.
    pub closed spec fn spec_index(self) -> int {
        self.0 as int
    }

    /// Only the 24 values below 24 are rotations.
    #[verifier::type_invariant]
    pub open spec fn wf(self) -> bool {
        0 <= self.spec_index() < 24
    }

    /// The rotation with the packed value `index`.
    pub closed spec fn spec_from_index(index: int) -> Rotation {
        Rotation(index as u8)
    }

    /// The rotation with the given up direction and angle.
    pub open spec fn spec_new(up: Direction, angle: int) -> Rotation {
        Self::spec_from_index(4 * up.spec_rotation_index() + angle % 4)
    }

    /// The rotation that changes nothing: up is `PosY`, the angle is 0.
    pub open spec fn spec_unrotated() -> Rotation {
        Self::spec_new(PosY, 0)
    }

    /// Where the cube's top (`PosY`) ends up.
    pub open spec fn spec_up(self) -> Direction {
        Direction::spec_from_rotation_index(self.spec_index() / 4)
    }

    /// The number of quarter turns about `up`, from 0 to 3.
    pub open spec fn spec_angle(self) -> int {
        self.spec_index() % 4
    }

    /// Where the face `direction` of the cube ends up.
    ///
    /// The solver does not look into `spec_frame_reface` by itself. The
    /// lemmas on rotations say how the faces move; to work a single value
    /// out, reveal `spec_frame_reface`.
    pub open spec fn spec_reface(self, direction: Direction) -> Direction {
        spec_frame_reface(self.spec_up(), self.spec_angle(), direction)
    }

    /// The face that ends up at `destination`: the inverse of
    /// `spec_reface`.
    pub open spec fn spec_source_face(self, destination: Direction) -> Direction {
        spec_frame_source_face(self.spec_up(), self.spec_angle(), destination)
    }

    /// Where the cube's bottom (`NegY`) ends up.
    pub open spec fn spec_down(self) -> Direction {
        self.spec_reface(NegY)
    }

    /// Where the cube's front (`NegZ`) ends up.
    pub open spec fn spec_forward(self) -> Direction {
        self.spec_reface(NegZ)
    }

    /// Where the cube's back (`PosZ`) ends up.
    pub open spec fn spec_backward(self) -> Direction {
        self.spec_reface(PosZ)
    }

    /// Where the cube's left side (`NegX`) ends up.
    pub open spec fn spec_left(self) -> Direction {
        self.spec_reface(NegX)
    }

    /// Where the cube's right side (`PosX`) ends up.
    pub open spec fn spec_right(self) -> Direction {
        self.spec_reface(PosX)
    }

    /// The rotation that turns the cube's top to `up` and its front to
    /// `forward`, where the two are orthogonal.
    pub open spec fn spec_from_up_and_forward(up: Direction, forward: Direction) -> Option<
        Rotation,
    > {
        if up.spec_is_orthogonal_to(forward) {
            Some(Self::spec_new(up, up.spec_angle_to(forward)))
        } else {
            None
        }
    }

    /// The number of quarter turns by which the face that ends up at
    /// `world_face` is turned there.
    pub open spec fn spec_face_angle(self, world_face: Direction) -> int {
        world_face.spec_angle_to(self.spec_reface(self.spec_source_face(world_face).spec_up()))
    }

    /// Apply `rotation` after `self`.
    pub open spec fn spec_reorient(self, rotation: Rotation) -> Rotation {
        Self::spec_new(
            rotation.spec_reface(self.spec_up()),
            rotation.spec_reface(self.spec_up()).spec_angle_to(
                rotation.spec_reface(self.spec_forward()),
            ),
        )
    }

    /// Apply the inverse of `rotation` after `self`.
    pub open spec fn spec_deorient(self, rotation: Rotation) -> Rotation {
        Self::spec_new(
            rotation.spec_source_face(self.spec_up()),
            rotation.spec_source_face(self.spec_up()).spec_angle_to(
                rotation.spec_source_face(self.spec_forward()),
            ),
        )
    }

    /// The rotation that does what `self` does between two reflections by
    /// `flip`: reflect, turn, reflect again.
    pub open spec fn spec_conjugate(self, flip: Flip) -> Rotation {
        Self::spec_new(
            self.spec_reface(PosY.spec_flip(flip)).spec_flip(flip),
            self.spec_reface(PosY.spec_flip(flip)).spec_flip(flip).spec_angle_to(
                self.spec_reface(NegZ.spec_flip(flip)).spec_flip(flip),
            ),
        )
    }

    /// The rotation that undoes `self`.
    pub open spec fn spec_invert(self) -> Rotation {
        Self::spec_unrotated().spec_deorient(self)
    }

    /// The identity, `self`, `self` applied twice and `self` applied three
    /// times.
    pub open spec fn spec_angles(self) -> Seq<Rotation> {
        seq![
            Self::spec_unrotated(),
            self,
            self.spec_reorient(self),
            self.spec_reorient(self).spec_reorient(self),
        ]
    }

    /// The rotation `offset` places further in the cyclic order of the 24
    /// packed values.
    pub open spec fn spec_cycle(self, offset: int) -> Rotation {
        Self::spec_from_index((self.spec_index() + offset) % 24)
    }

    /// Where the point `point` ends up: along every face normal the image
    /// has the component that `point` has along the source of that normal.
    pub open spec fn spec_rotate_coord(self, point: (int, int, int)) -> (int, int, int) {
        (
            spec_component(point, self.spec_source_face(PosX)),
            spec_component(point, self.spec_source_face(PosY)),
            spec_component(point, self.spec_source_face(PosZ)),
        )
    }

    /// Whether the image of `point` can be held in `T`: no coordinate that
    /// is to be negated is the least value of `T`.
    pub open spec fn spec_can_rotate_coord<T: SignedCoord>(self, point: (T, T, T)) -> bool {
        &&& spec_has_component(point, self.spec_source_face(PosX))
        &&& spec_has_component(point, self.spec_source_face(PosY))
        &&& spec_has_component(point, self.spec_source_face(PosZ))
    }

    /// The rotation as text: the up direction, the place of the front and
    /// the angle.
    pub open spec fn spec_text(self) -> Seq<char> {
        "Rotation(up="@ + self.spec_up().spec_name() + ",forward="@
            + self.spec_forward().spec_name() + ",angle="@ + (if self.spec_angle() == 0 {
            "0"@
        } else if self.spec_angle() == 1 {
            "1"@
        } else if self.spec_angle() == 2 {
            "2"@
        } else {
            "3"@
        }) + ")"@
    }

    /// The quarter turn counter-clockwise about `face`, seen from outside
    /// the cube: about X it turns the top to the back, about Y the front to
    /// the left, about Z the top to the left.
    pub open spec fn spec_face_turn(face: Direction) -> Rotation {
        match face {
            PosY => Self::spec_new(PosY, 1),
            PosX => Self::spec_new(PosZ, 0),
            PosZ => Self::spec_new(NegX, 1),
            NegY => Self::spec_new(PosY, 1).spec_invert(),
            NegX => Self::spec_new(PosZ, 0).spec_invert(),
            NegZ => Self::spec_new(NegX, 1).spec_invert(),
        }
    }

    /// `angle` quarter turns counter-clockwise about `face`.
    pub open spec fn spec_face_rotation(face: Direction, angle: int) -> Rotation {
        Self::spec_face_turn(face).spec_angles()[angle % 4]
    }

    /// The third of a turn about the corner that lies on the positive side
    /// of each axis whose flag is `true`.
    pub open spec fn spec_corner_turn(x: bool, y: bool, z: bool) -> Rotation {
        if y {
            if z {
                if x {
                    Self::spec_new(PosZ, 1)
                } else {
                    Self::spec_new(NegX, 2)
                }
            } else {
                if x {
                    Self::spec_new(PosX, 0)
                } else {
                    Self::spec_new(NegZ, 3)
                }
            }
        } else {
            if z {
                if x {
                    Self::spec_new(NegX, 0)
                } else {
                    Self::spec_new(NegZ, 1)
                }
            } else {
                if x {
                    Self::spec_new(PosZ, 3)
                } else {
                    Self::spec_new(PosX, 2)
                }
            }
        }
    }

    /// `angle` thirds of a turn about the corner on the side of the signs
    /// of `x`, `y` and `z`, where zero counts as negative. `angle` is
    /// taken modulo 3: a corner has three positions.
    pub open spec fn spec_corner_rotation(x: int, y: int, z: int, angle: int) -> Rotation {
        Self::spec_corner_turn(x > 0, y > 0, z > 0).spec_angles()[angle % 3]
    }

    /// The corner of the cube on the side of the signs of `x`, `y` and `z`,
    /// where zero counts as negative: each coordinate is 1 or -1.
    pub open spec fn spec_corner(x: int, y: int, z: int) -> (int, int, int) {
        (
            if x > 0 {
                1
            } else {
                -1
            },
            if y > 0 {
                1
            } else {
                -1
            },
            if z > 0 {
                1
            } else {
                -1
            },
        )
    }

    /// Whether the face `face` lies at the corner on the side of the signs
    /// of `x`, `y` and `z`, where zero counts as negative.
    pub open spec fn spec_at_corner(face: Direction, x: int, y: int, z: int) -> bool {
        spec_component(Self::spec_corner(x, y, z), face) == 1
    }

    /// The rotation with the given up direction and angle. The angle is
    /// taken modulo 4.
    #[inline]
    pub fn new(up: Direction, angle: i32) -> (res: Rotation)
        ensures
            res == Self::spec_new(up, angle as int),
            res.spec_up() == up,
            res.spec_angle() == (angle as int) % 4,
            res.wf(),
    {
        let up = up.discriminant();
        let angle = wrap_angle(angle) as u8;
        assert(up < 6 && angle < 4 ==> (angle | (up << 2)) == 4 * up + angle) by (bit_vector);
        Rotation(angle | (up << 2))
    }

    /// The rotation that turns the cube's top to `up`, with angle 0.
    #[inline]
    pub fn from_up(up: Direction) -> (res: Rotation)
        ensures
            res == Self::spec_new(up, 0),
            res.spec_up() == up,
            res.spec_angle() == 0,
    {
        Self::new(up, 0)
    }

    /// The rotation with the packed value `value`, which must be below 24.
    #[inline]
    pub fn from_u8_unchecked(value: u8) -> (res: Rotation)
        requires
            value < 24,
        ensures
            res == Self::spec_from_index(value as int),
            res.spec_index() == value,
            res.wf(),
    {
        Rotation(value)
    }

    /// The rotation with the packed value `value`, if it is below 24.
    #[inline]
    pub fn from_u8(value: u8) -> (res: Option<Rotation>)
        ensures
            value < 24 <==> res.is_some(),
            res matches Some(r) ==> r.spec_index() == value && r.wf() && r == Self::spec_from_index(
                value as int,
            ),
    {
        if value > 23 {
            return None;
        }
        Some(Rotation(value))
    }

    /// The packed value: the angle in bits 0 and 1, the rotation index of
    /// the up direction in the bits above.
    #[inline]
    pub fn to_u8(self) -> (res: u8)
        ensures
            res as int == self.spec_index(),
            res as int == 4 * self.spec_up().spec_rotation_index() + self.spec_angle(),
            res < 24,
    {
        proof {
            use_type_invariant(&self);
        }
        self.0
    }

    /// The identity: up is `PosY`, the angle is 0.
    #[inline]
    pub fn unrotated() -> (res: Rotation)
        ensures
            res == Self::spec_unrotated(),
            res.spec_index() == 0,
            res.wf(),
    {
        Rotation(0)
    }

    /// The rotation with the least packed value, 0.
    #[inline]
    pub fn min_value() -> (res: Rotation)
        ensures
            res.spec_index() == 0,
            res.wf(),
    {
        Rotation(0)
    }

    /// The rotation with the greatest packed value, 23.
    #[inline]
    pub fn max_value() -> (res: Rotation)
        ensures
            res.spec_index() == 23,
            res.wf(),
    {
        Rotation(23)
    }

    /// The rotation with `NegX` as the up direction.
    #[inline]
    pub fn neg_x(angle: i32) -> (res: Rotation)
        ensures
            res == Self::spec_new(NegX, angle as int),
    {
        Self::new(NegX, angle)
    }

    /// The rotation with `NegY` as the up direction.
    #[inline]
    pub fn neg_y(angle: i32) -> (res: Rotation)
        ensures
            res == Self::spec_new(NegY, angle as int),
    {
        Self::new(NegY, angle)
    }

    /// The rotation with `NegZ` as the up direction.
    #[inline]
    pub fn neg_z(angle: i32) -> (res: Rotation)
        ensures
            res == Self::spec_new(NegZ, angle as int),
    {
        Self::new(NegZ, angle)
    }

    /// The rotation with `PosX` as the up direction.
    #[inline]
    pub fn pos_x(angle: i32) -> (res: Rotation)
        ensures
            res == Self::spec_new(PosX, angle as int),
    {
        Self::new(PosX, angle)
    }

    /// The rotation with `PosY` as the up direction.
    #[inline]
    pub fn pos_y(angle: i32) -> (res: Rotation)
        ensures
            res == Self::spec_new(PosY, angle as int),
    {
        Self::new(PosY, angle)
    }

    /// The rotation with `PosZ` as the up direction.
    #[inline]
    pub fn pos_z(angle: i32) -> (res: Rotation)
        ensures
            res == Self::spec_new(PosZ, angle as int),
    {
        Self::new(PosZ, angle)
    }

    /// The number of quarter turns about `up`, from 0 to 3.
    #[inline]
    pub fn angle(self) -> (res: i32)
        ensures
            res as int == self.spec_angle(),
            0 <= res < 4,
    {
        let bits = self.0;
        assert(bits & 3 == bits % 4) by (bit_vector);
        (self.0 & 3) as i32
    }

    /// Where the cube's top ends up.
    pub fn up(self) -> (res: Direction)
        ensures
            res == self.spec_up(),
            res == self.spec_reface(PosY),
    {
        proof {
            use_type_invariant(&self);
            reveal(spec_frame_reface);
        }
        let bits = self.0;
        assert(bits >> 2 == bits / 4) by (bit_vector);
        match self.0 >> 2 {
            0 => PosY,
            1 => PosX,
            2 => PosZ,
            3 => NegY,
            4 => NegX,
            _ => NegZ,
        }
    }

    /// Where the cube's bottom ends up.
    pub fn down(self) -> (res: Direction)
        ensures
            res == self.spec_down(),
            res == self.spec_up().spec_invert(),
    {
        proof {
            use_type_invariant(&self);
            reveal(spec_frame_reface);
        }
        let bits = self.0;
        assert(bits >> 2 == bits / 4) by (bit_vector);
        match self.0 >> 2 {
            4 => PosX,
            3 => PosY,
            5 => PosZ,
            1 => NegX,
            0 => NegY,
            _ => NegZ,
        }
    }

    /// Where the cube's left side (`NegX`) ends up.
    pub fn left(self) -> (res: Direction)
        ensures
            res == self.spec_left(),
    {
        proof {
            reveal(spec_frame_reface);
        }
        match (self.angle(), self.up()) {
            (0, PosY) => NegX,
            (0, PosX) => PosZ,
            (0, PosZ) => NegX,
            (0, NegY) => NegX,
            (0, NegX) => NegZ,
            (0, NegZ) => PosX,
            (1, PosY) => PosZ,
            (1, PosX) => NegY,
            (1, PosZ) => NegY,
            (1, NegY) => NegZ,
            (1, NegX) => NegY,
            (1, NegZ) => NegY,
            (2, PosY) => PosX,
            (2, PosX) => NegZ,
            (2, PosZ) => PosX,
            (2, NegY) => PosX,
            (2, NegX) => PosZ,
            (2, NegZ) => NegX,
            (3, PosY) => NegZ,
            (3, PosX) => PosY,
            (3, PosZ) => PosY,
            (3, NegY) => PosZ,
            (3, NegX) => PosY,
            // (3, NegZ)
            _ => PosY,
        }
    }

    /// Where the cube's right side (`PosX`) ends up.
    pub fn right(self) -> (res: Direction)
        ensures
            res == self.spec_right(),
    {
        proof {
            reveal(spec_frame_reface);
        }
        match (self.angle(), self.up()) {
            (0, PosY) => PosX,
            (0, PosX) => NegZ,
            (0, PosZ) => PosX,
            (0, NegY) => PosX,
            (0, NegX) => PosZ,
            (0, NegZ) => NegX,
            (1, PosY) => NegZ,
            (1, PosX) => PosY,
            (1, PosZ) => PosY,
            (1, NegY) => PosZ,
            (1, NegX) => PosY,
            (1, NegZ) => PosY,
            (2, PosY) => NegX,
            (2, PosX) => PosZ,
            (2, PosZ) => NegX,
            (2, NegY) => NegX,
            (2, NegX) => NegZ,
            (2, NegZ) => PosX,
            (3, PosY) => PosZ,
            (3, PosX) => NegY,
            (3, PosZ) => NegY,
            (3, NegY) => NegZ,
            (3, NegX) => NegY,
            // (3, NegZ)
            _ => NegY,
        }
    }

    /// Where the cube's front (`NegZ`) ends up.
    pub fn forward(self) -> (res: Direction)
        ensures
            res == self.spec_forward(),
    {
        proof {
            reveal(spec_frame_reface);
        }
        match (self.angle(), self.up()) {
            (0, PosY) => NegZ,
            (0, PosX) => PosY,
            (0, PosZ) => PosY,
            (0, NegY) => PosZ,
            (0, NegX) => PosY,
            (0, NegZ) => PosY,
            (1, PosY) => NegX,
            (1, PosX) => PosZ,
            (1, PosZ) => NegX,
            (1, NegY) => NegX,
            (1, NegX) => NegZ,
            (1, NegZ) => PosX,
            (2, PosY) => PosZ,
            (2, PosX) => NegY,
            (2, PosZ) => NegY,
            (2, NegY) => NegZ,
            (2, NegX) => NegY,
            (2, NegZ) => NegY,
            (3, PosY) => PosX,
            (3, PosX) => NegZ,
            (3, PosZ) => PosX,
            (3, NegY) => PosX,
            (3, NegX) => PosZ,
            // (3, NegZ)
            _ => NegX,
        }
    }

    /// Where the cube's back (`PosZ`) ends up.
    pub fn backward(self) -> (res: Direction)
        ensures
            res == self.spec_backward(),
    {
        proof {
            reveal(spec_frame_reface);
        }
        match (self.angle(), self.up()) {
            (0, PosY) => PosZ,
            (0, PosX) => NegY,
            (0, PosZ) => NegY,
            (0, NegY) => NegZ,
            (0, NegX) => NegY,
            (0, NegZ) => NegY,
            (1, PosY) => PosX,
            (1, PosX) => NegZ,
            (1, PosZ) => PosX,
            (1, NegY) => PosX,
            (1, NegX) => PosZ,
            (1, NegZ) => NegX,
            (2, PosY) => NegZ,
            (2, PosX) => PosY,
            (2, PosZ) => PosY,
            (2, NegY) => PosZ,
            (2, NegX) => PosY,
            (2, NegZ) => PosY,
            (3, PosY) => NegX,
            (3, PosX) => PosZ,
            (3, PosZ) => NegX,
            (3, NegY) => NegX,
            (3, NegX) => NegZ,
            // (3, NegZ)
            _ => PosX,
        }
    }

    /// Where the face `direction` of the cube ends up.
    pub fn reface(self, direction: Direction) -> (res: Direction)
        ensures
            res == self.spec_reface(direction),
    {
        match direction {
            NegX => self.left(),
            NegY => self.down(),
            NegZ => self.forward(),
            PosX => self.right(),
            PosY => self.up(),
            PosZ => self.backward(),
        }
    }

    /// The face that ends up at `destination`: the inverse of `reface`.
    pub fn source_face(self, destination: Direction) -> (res: Direction)
        ensures
            res == self.spec_source_face(destination),
            self.spec_reface(res) == destination,
    {
        proof {
            reveal(spec_frame_reface);
            reveal(spec_frame_source_face);
        }
        match (self.angle(), self.up(), destination) {
            (0, PosY, PosY) => PosY,
            (0, PosY, PosX) => PosX,
            (0, PosY, PosZ) => PosZ,
            (0, PosY, NegY) => NegY,
            (0, PosY, NegX) => NegX,
            (0, PosY, NegZ) => NegZ,
            (0, PosX, PosY) => NegZ,
            (0, PosX, PosX) => PosY,
            (0, PosX, PosZ) => NegX,
            (0, PosX, NegY) => PosZ,
            (0, PosX, NegX) => NegY,
            (0, PosX, NegZ) => PosX,
            (0, PosZ, PosY) => NegZ,
            (0, PosZ, PosX) => PosX,
            (0, PosZ, PosZ) => PosY,
            (0, PosZ, NegY) => PosZ,
            (0, PosZ, NegX) => NegX,
            (0, PosZ, NegZ) => NegY,
            (0, NegY, PosY) => NegY,
            (0, NegY, PosX) => PosX,
            (0, NegY, PosZ) => NegZ,
            (0, NegY, NegY) => PosY,
            (0, NegY, NegX) => NegX,
            (0, NegY, NegZ) => PosZ,
            (0, NegX, PosY) => NegZ,
            (0, NegX, PosX) => NegY,
            (0, NegX, PosZ) => PosX,
            (0, NegX, NegY) => PosZ,
            (0, NegX, NegX) => PosY,
            (0, NegX, NegZ) => NegX,
            (0, NegZ, PosY) => NegZ,
            (0, NegZ, PosX) => NegX,
            (0, NegZ, PosZ) => NegY,
            (0, NegZ, NegY) => PosZ,
            (0, NegZ, NegX) => PosX,
            (0, NegZ, NegZ) => PosY,
            (1, PosY, PosY) => PosY,
            (1, PosY, PosX) => PosZ,
            (1, PosY, PosZ) => NegX,
            (1, PosY, NegY) => NegY,
            (1, PosY, NegX) => NegZ,
            (1, PosY, NegZ) => PosX,
            (1, PosX, PosY) => PosX,
            (1, PosX, PosX) => PosY,
            (1, PosX, PosZ) => NegZ,
            (1, PosX, NegY) => NegX,
            (1, PosX, NegX) => NegY,
            (1, PosX, NegZ) => PosZ,
            (1, PosZ, PosY) => PosX,
            (1, PosZ, PosX) => PosZ,
            (1, PosZ, PosZ) => PosY,
            (1, PosZ, NegY) => NegX,
            (1, PosZ, NegX) => NegZ,
            (1, PosZ, NegZ) => NegY,
            (1, NegY, PosY) => NegY,
            (1, NegY, PosX) => PosZ,
            (1, NegY, PosZ) => PosX,
            (1, NegY, NegY) => PosY,
            (1, NegY, NegX) => NegZ,
            (1, NegY, NegZ) => NegX,
            (1, NegX, PosY) => PosX,
            (1, NegX, PosX) => NegY,
            (1, NegX, PosZ) => PosZ,
            (1, NegX, NegY) => NegX,
            (1, NegX, NegX) => PosY,
            (1, NegX, NegZ) => NegZ,
            (1, NegZ, PosY) => PosX,
            (1, NegZ, PosX) => NegZ,
            (1, NegZ, PosZ) => NegY,
            (1, NegZ, NegY) => NegX,
            (1, NegZ, NegX) => PosZ,
            (1, NegZ, NegZ) => PosY,
            (2, PosY, PosY) => PosY,
            (2, PosY, PosX) => NegX,
            (2, PosY, PosZ) => NegZ,
            (2, PosY, NegY) => NegY,
            (2, PosY, NegX) => PosX,
            (2, PosY, NegZ) => PosZ,
            (2, PosX, PosY) => PosZ,
            (2, PosX, PosX) => PosY,
            (2, PosX, PosZ) => PosX,
            (2, PosX, NegY) => NegZ,
            (2, PosX, NegX) => NegY,
            (2, PosX, NegZ) => NegX,
            (2, PosZ, PosY) => PosZ,
            (2, PosZ, PosX) => NegX,
            (2, PosZ, PosZ) => PosY,
            (2, PosZ, NegY) => NegZ,
            (2, PosZ, NegX) => PosX,
            (2, PosZ, NegZ) => NegY,
            (2, NegY, PosY) => NegY,
            (2, NegY, PosX) => NegX,
            (2, NegY, PosZ) => PosZ,
            (2, NegY, NegY) => PosY,
            (2, NegY, NegX) => PosX,
            (2, NegY, NegZ) => NegZ,
            (2, NegX, PosY) => PosZ,
            (2, NegX, PosX) => NegY,
            (2, NegX, PosZ) => NegX,
            (2, NegX, NegY) => NegZ,
            (2, NegX, NegX) => PosY,
            (2, NegX, NegZ) => PosX,
            (2, NegZ, PosY) => PosZ,
            (2, NegZ, PosX) => PosX,
            (2, NegZ, PosZ) => NegY,
            (2, NegZ, NegY) => NegZ,
            (2, NegZ, NegX) => NegX,
            (2, NegZ, NegZ) => PosY,
            (3, PosY, PosY) => PosY,
            (3, PosY, PosX) => NegZ,
            (3, PosY, PosZ) => PosX,
            (3, PosY, NegY) => NegY,
            (3, PosY, NegX) => PosZ,
            (3, PosY, NegZ) => NegX,
            (3, PosX, PosY) => NegX,
            (3, PosX, PosX) => PosY,
            (3, PosX, PosZ) => PosZ,
            (3, PosX, NegY) => PosX,
            (3, PosX, NegX) => NegY,
            (3, PosX, NegZ) => NegZ,
            (3, PosZ, PosY) => NegX,
            (3, PosZ, PosX) => NegZ,
            (3, PosZ, PosZ) => PosY,
            (3, PosZ, NegY) => PosX,
            (3, PosZ, NegX) => PosZ,
            (3, PosZ, NegZ) => NegY,
            (3, NegY, PosY) => NegY,
            (3, NegY, PosX) => NegZ,
            (3, NegY, PosZ) => NegX,
            (3, NegY, NegY) => PosY,
            (3, NegY, NegX) => PosZ,
            (3, NegY, NegZ) => PosX,
            (3, NegX, PosY) => NegX,
            (3, NegX, PosX) => NegY,
            (3, NegX, PosZ) => NegZ,
            (3, NegX, NegY) => PosX,
            (3, NegX, NegX) => PosY,
            (3, NegX, NegZ) => PosZ,
            (3, NegZ, PosY) => NegX,
            (3, NegZ, PosX) => PosZ,
            (3, NegZ, PosZ) => NegY,
            (3, NegZ, NegY) => PosX,
            (3, NegZ, NegX) => NegZ,
            // (3, NegZ, NegZ)
            _ => PosY,
        }
    }

    /// The rotation that turns the cube's top to `up` and its front to
    /// `forward`. There is exactly one when the two are orthogonal, and
    /// none when they lie on one axis.
    pub fn from_up_and_forward(up: Direction, forward: Direction) -> (res: Option<Rotation>)
        ensures
            res.is_some() <==> up.spec_is_orthogonal_to(forward),
            res == Self::spec_from_up_and_forward(up, forward),
            res matches Some(r) ==> r.wf() && r.spec_up() == up && r.spec_forward() == forward,
    {
        proof {
            reveal(spec_frame_reface);
        }
        let angle: i32 = match (up, forward) {
            (PosY, PosX) => 3,
            (PosY, PosZ) => 2,
            (PosY, NegX) => 1,
            (PosY, NegZ) => 0,
            (PosX, PosY) => 0,
            (PosX, PosZ) => 1,
            (PosX, NegY) => 2,
            (PosX, NegZ) => 3,
            (PosZ, PosY) => 0,
            (PosZ, PosX) => 3,
            (PosZ, NegY) => 2,
            (PosZ, NegX) => 1,
            (NegY, PosX) => 3,
            (NegY, PosZ) => 0,
            (NegY, NegX) => 1,
            (NegY, NegZ) => 2,
            (NegX, PosY) => 0,
            (NegX, PosZ) => 3,
            (NegX, NegY) => 2,
            (NegX, NegZ) => 1,
            (NegZ, PosY) => 0,
            (NegZ, PosX) => 1,
            (NegZ, NegY) => 2,
            (NegZ, NegX) => 3,
            _ => {
                return None;
            },
        };
        Some(Rotation::new(up, angle))
    }

    /// The angle by which the face that ends up at `world_face` is turned
    /// there: the number of quarter turns from the upper neighbour of
    /// `world_face` to the place where the upper neighbour of its source
    /// face ends up.
    pub fn face_angle(self, world_face: Direction) -> (res: u8)
        ensures
            res as int == self.spec_face_angle(world_face),
            res < 4,
            world_face.spec_up_at_angle(res as int) == self.spec_reface(
                self.spec_source_face(world_face).spec_up(),
            ),
    {
        proof {
            reveal(spec_frame_reface);
            reveal(spec_frame_source_face);
        }
        match (self.angle(), self.up(), world_face) {
            (0, NegX, NegX) => 0,
            (0, NegX, NegY) => 1,
            (0, NegX, NegZ) => 3,
            (0, NegX, PosX) => 2,
            (0, NegX, PosY) => 1,
            (0, NegX, PosZ) => 1,
            (0, NegY, NegX) => 2,
            (0, NegY, NegY) => 0,
            (0, NegY, NegZ) => 2,
            (0, NegY, PosX) => 2,
            (0, NegY, PosY) => 0,
            (0, NegY, PosZ) => 2,
            (0, NegZ, NegX) => 1,
            (0, NegZ, NegY) => 2,
            (0, NegZ, NegZ) => 0,
            (0, NegZ, PosX) => 3,
            (0, NegZ, PosY) => 0,
            (0, NegZ, PosZ) => 2,
            (0, PosX, NegX) => 2,
            (0, PosX, NegY) => 3,
            (0, PosX, NegZ) => 1,
            (0, PosX, PosX) => 0,
            (0, PosX, PosY) => 3,
            (0, PosX, PosZ) => 3,
            (0, PosY, NegX) => 0,
            (0, PosY, NegY) => 0,
            (0, PosY, NegZ) => 0,
            (0, PosY, PosX) => 0,
            (0, PosY, PosY) => 0,
            (0, PosY, PosZ) => 0,
            (0, PosZ, NegX) => 3,
            (0, PosZ, NegY) => 0,
            (0, PosZ, NegZ) => 2,
            (0, PosZ, PosX) => 1,
            (0, PosZ, PosY) => 2,
            (0, PosZ, PosZ) => 0,
            (1, NegX, NegX) => 1,
            (1, NegX, NegY) => 1,
            (1, NegX, NegZ) => 3,
            (1, NegX, PosX) => 1,
            (1, NegX, PosY) => 1,
            (1, NegX, PosZ) => 1,
            (1, NegY, NegX) => 2,
            (1, NegY, NegY) => 1,
            (1, NegY, NegZ) => 2,
            (1, NegY, PosX) => 2,
            (1, NegY, PosY) => 3,
            (1, NegY, PosZ) => 2,
            (1, NegZ, NegX) => 1,
            (1, NegZ, NegY) => 2,
            (1, NegZ, NegZ) => 1,
            (1, NegZ, PosX) => 3,
            (1, NegZ, PosY) => 0,
            (1, NegZ, PosZ) => 1,
            (1, PosX, NegX) => 1,
            (1, PosX, NegY) => 3,
            (1, PosX, NegZ) => 1,
            (1, PosX, PosX) => 1,
            (1, PosX, PosY) => 3,
            (1, PosX, PosZ) => 3,
            (1, PosY, NegX) => 0,
            (1, PosY, NegY) => 3,
            (1, PosY, NegZ) => 0,
            (1, PosY, PosX) => 0,
            (1, PosY, PosY) => 1,
            (1, PosY, PosZ) => 0,
            (1, PosZ, NegX) => 3,
            (1, PosZ, NegY) => 0,
            (1, PosZ, NegZ) => 1,
            (1, PosZ, PosX) => 1,
            (1, PosZ, PosY) => 2,
            (1, PosZ, PosZ) => 1,
            (2, NegX, NegX) => 2,
            (2, NegX, NegY) => 1,
            (2, NegX, NegZ) => 3,
            (2, NegX, PosX) => 0,
            (2, NegX, PosY) => 1,
            (2, NegX, PosZ) => 1,
            (2, NegY, NegX) => 2,
            (2, NegY, NegY) => 2,
            (2, NegY, NegZ) => 2,
            (2, NegY, PosX) => 2,
            (2, NegY, PosY) => 2,
            (2, NegY, PosZ) => 2,
            (2, NegZ, NegX) => 1,
            (2, NegZ, NegY) => 2,
            (2, NegZ, NegZ) => 2,
            (2, NegZ, PosX) => 3,
            (2, NegZ, PosY) => 0,
            (2, NegZ, PosZ) => 0,
            (2, PosX, NegX) => 0,
            (2, PosX, NegY) => 3,
            (2, PosX, NegZ) => 1,
            (2, PosX, PosX) => 2,
            (2, PosX, PosY) => 3,
            (2, PosX, PosZ) => 3,
            (2, PosY, NegX) => 0,
            (2, PosY, NegY) => 2,
            (2, PosY, NegZ) => 0,
            (2, PosY, PosX) => 0,
            (2, PosY, PosY) => 2,
            (2, PosY, PosZ) => 0,
            (2, PosZ, NegX) => 3,
            (2, PosZ, NegY) => 0,
            (2, PosZ, NegZ) => 0,
            (2, PosZ, PosX) => 1,
            (2, PosZ, PosY) => 2,
            (2, PosZ, PosZ) => 2,
            (3, NegX, NegX) => 3,
            (3, NegX, NegY) => 1,
            (3, NegX, NegZ) => 3,
            (3, NegX, PosX) => 3,
            (3, NegX, PosY) => 1,
            (3, NegX, PosZ) => 1,
            (3, NegY, NegX) => 2,
            (3, NegY, NegY) => 3,
            (3, NegY, NegZ) => 2,
            (3, NegY, PosX) => 2,
            (3, NegY, PosY) => 1,
            (3, NegY, PosZ) => 2,
            (3, NegZ, NegX) => 1,
            (3, NegZ, NegY) => 2,
            (3, NegZ, NegZ) => 3,
            (3, NegZ, PosX) => 3,
            (3, NegZ, PosY) => 0,
            (3, NegZ, PosZ) => 3,
            (3, PosX, NegX) => 3,
            (3, PosX, NegY) => 3,
            (3, PosX, NegZ) => 1,
            (3, PosX, PosX) => 3,
            (3, PosX, PosY) => 3,
            (3, PosX, PosZ) => 3,
            (3, PosY, NegX) => 0,
            (3, PosY, NegY) => 1,
            (3, PosY, NegZ) => 0,
            (3, PosY, PosX) => 0,
            (3, PosY, PosY) => 3,
            (3, PosY, PosZ) => 0,
            (3, PosZ, NegX) => 3,
            (3, PosZ, NegY) => 0,
            (3, PosZ, NegZ) => 3,
            (3, PosZ, PosX) => 1,
            (3, PosZ, PosY) => 2,
            // (3, PosZ, PosZ)
            _ => 3,
        }
    }

    /// Rotate a rotation by another: the result first does what `self`
    /// does and then what `rotation` does.
    pub fn reorient(self, rotation: Rotation) -> (res: Rotation)
        ensures
            res == self.spec_reorient(rotation),
            res.wf(),
            forall|d: Direction| #[trigger]
                res.spec_reface(d) == rotation.spec_reface(self.spec_reface(d)),
    {
        let up = self.up();
        let fwd = self.forward();
        let rot_up = rotation.reface(up);
        let rot_fwd = rotation.reface(fwd);
        proof {
            use_type_invariant(&self);
            use_type_invariant(&rotation);
            lemma_reorient(self, rotation);
        }
        match Self::from_up_and_forward(rot_up, rot_fwd) {
            Some(rot) => rot,
            None => vstd::pervasive::unreached(),
        }
    }

    /// Rotate a rotation by the inverse of another: the result first does
    /// what `self` does and then undoes what `rotation` does.
    pub fn deorient(self, rotation: Rotation) -> (res: Rotation)
        ensures
            res == self.spec_deorient(rotation),
            res.wf(),
            forall|d: Direction| #[trigger]
                res.spec_reface(d) == rotation.spec_source_face(self.spec_reface(d)),
    {
        let up = self.up();
        let fwd = self.forward();
        let rot_up = rotation.source_face(up);
        let rot_fwd = rotation.source_face(fwd);
        proof {
            use_type_invariant(&self);
            use_type_invariant(&rotation);
            lemma_deorient(self, rotation);
        }
        match Self::from_up_and_forward(rot_up, rot_fwd) {
            Some(rot) => rot,
            None => vstd::pervasive::unreached(),
        }
    }

    /// The rotation that undoes `self`: applied after `self` it gives the
    /// identity.
    #[inline]
    pub fn invert(self) -> (res: Rotation)
        ensures
            res == self.spec_invert(),
            res.wf(),
            forall|d: Direction| #[trigger] res.spec_reface(d) == self.spec_source_face(d),
    {
        proof {
            use_type_invariant(&self);
            lemma_invert(self);
        }
        Self::unrotated().deorient(self)
    }

    /// Step through the 24 rotations in the order of their packed values,
    /// `offset` places ahead (or back, for a negative `offset`), wrapping
    /// around at both ends.
    #[inline]
    #[must_use]
    pub fn cycle(self, offset: i32) -> (res: Rotation)
        ensures
            res == self.spec_cycle(offset as int),
            res.spec_index() == (self.spec_index() + offset) % 24,
            res.wf(),
    {
        proof {
            use_type_invariant(&self);
        }
        let sum: i64 = self.0 as i64 + offset as i64;
        match sum.checked_rem_euclid(24) {
            Some(index) => Rotation(index as u8),
            None => vstd::pervasive::unreached(),
        }
    }

    /// Replace the up direction and keep the angle.
    #[inline]
    pub fn set_up(&mut self, up: Direction)
        ensures
            *final(self) == Self::spec_new(up, old(self).spec_angle()),
            final(self).spec_up() == up,
            final(self).spec_angle() == old(self).spec_angle(),
    {
        proof {
            use_type_invariant(&*self);
        }
        let index = up.rotation_discriminant();
        let bits = self.0;
        assert(index < 6 ==> ((bits & 3) | (index << 2)) == 4 * index + bits % 4) by (bit_vector);
        self.0 = (bits & 3) | (index << 2);
    }

    /// Replace the angle, taken modulo 4, and keep the up direction.
    #[inline]
    pub fn set_angle(&mut self, angle: i32)
        ensures
            *final(self) == Self::spec_new(old(self).spec_up(), angle as int),
            final(self).spec_up() == old(self).spec_up(),
            final(self).spec_angle() == (angle as int) % 4,
    {
        proof {
            use_type_invariant(&*self);
        }
        let turns = wrap_angle(angle) as u8;
        let bits = self.0;
        assert(turns < 4 ==> ((bits & 0b11111100) | turns) == 4 * (bits / 4) + turns)
            by (bit_vector);
        self.0 = (bits & 0b11111100) | turns;
    }

    /// Rotate a point: one of 24 fixed rearrangements of its coordinates,
    /// with signs, so that the unit vector of a face goes to the unit
    /// vector of the face that `reface` gives.
    pub fn rotate_coord<T: SignedCoord>(self, coord: (T, T, T)) -> (res: (T, T, T))
        requires
            self.spec_can_rotate_coord(coord),
        ensures
            spec_values(res) == self.spec_rotate_coord(spec_values(coord)),
    {
        proof {
            use_type_invariant(&self);
            reveal(spec_frame_reface);
            reveal(spec_frame_source_face);
        }
        let (x, y, z) = coord;
        match self.0 {
            // (0, PosY)
            0 => (x, y, z),
            // (1, PosY)
            1 => (z, y, x.negated()),
            // (2, PosY)
            2 => (x.negated(), y, z.negated()),
            // (3, PosY)
            3 => (z.negated(), y, x),
            // (0, PosX)
            4 => (y, z.negated(), x.negated()),
            // (1, PosX)
            5 => (y, x, z.negated()),
            // (2, PosX)
            6 => (y, z, x),
            // (3, PosX)
            7 => (y, x.negated(), z),
            // (0, PosZ)
            8 => (x, z.negated(), y),
            // (1, PosZ)
            9 => (z, x, y),
            // (2, PosZ)
            10 => (x.negated(), z, y),
            // (3, PosZ)
            11 => (z.negated(), x.negated(), y),
            // (0, NegY)
            12 => (x, y.negated(), z.negated()),
            // (1, NegY)
            13 => (z, y.negated(), x),
            // (2, NegY)
            14 => (x.negated(), y.negated(), z),
            // (3, NegY)
            15 => (z.negated(), y.negated(), x.negated()),
            // (0, NegX)
            16 => (y.negated(), z.negated(), x),
            // (1, NegX)
            17 => (y.negated(), x, z),
            // (2, NegX)
            18 => (y.negated(), z, x.negated()),
            // (3, NegX)
            19 => (y.negated(), x.negated(), z.negated()),
            // (0, NegZ)
            20 => (x.negated(), z.negated(), y.negated()),
            // (1, NegZ)
            21 => (z.negated(), x, y.negated()),
            // (2, NegZ)
            22 => (x, z, y.negated()),
            // (3, NegZ)
            _ => (z, x.negated(), y.negated()),
        }
    }

    /// The identity, the rotation itself, the rotation applied twice and
    /// the rotation applied three times. For a quarter turn these are the
    /// four rotations about its axis.
    pub fn angles(self) -> (res: [Rotation; 4])
        ensures
            res@ == self.spec_angles(),
            forall|i: int| 0 <= i < 4 ==> (#[trigger] res@[i]).wf(),
    {
        let angle1 = self;
        let angle2 = angle1.reorient(angle1);
        let angle3 = angle2.reorient(angle1);
        let res = [Self::unrotated(), angle1, angle2, angle3];
        proof {
            use_type_invariant(&self);
            assert(res@ =~= self.spec_angles());
        }
        res
    }

    /// The identity, the rotation itself and the rotation applied twice.
    /// For a third of a turn about a corner these are the three rotations
    /// about that corner.
    pub fn corner_angles(self) -> (res: [Rotation; 3])
        ensures
            res@ == self.spec_angles().take(3),
            forall|i: int| 0 <= i < 3 ==> (#[trigger] res@[i]).wf(),
    {
        let angle1 = self;
        let angle2 = angle1.reorient(angle1);
        let res = [Self::unrotated(), angle1, angle2];
        proof {
            use_type_invariant(&self);
            assert(res@ =~= self.spec_angles().take(3));
        }
        res
    }

    /// The quarter turn counter-clockwise about X: the top goes to the
    /// back.
    #[inline]
    pub fn turn_x() -> (res: Rotation)
        ensures
            res == Self::spec_face_turn(PosX),
    {
        Self::new(PosZ, 0)
    }

    /// The quarter turn clockwise about X.
    #[inline]
    pub fn turn_x_cw() -> (res: Rotation)
        ensures
            res == Self::spec_face_turn(NegX),
    {
        Self::turn_x().invert()
    }

    /// The quarter turn counter-clockwise about Y: the front goes to the
    /// left.
    #[inline]
    pub fn turn_y() -> (res: Rotation)
        ensures
            res == Self::spec_face_turn(PosY),
    {
        Self::new(PosY, 1)
    }

    /// The quarter turn clockwise about Y.
    #[inline]
    pub fn turn_y_cw() -> (res: Rotation)
        ensures
            res == Self::spec_face_turn(NegY),
    {
        Self::turn_y().invert()
    }

    /// The quarter turn counter-clockwise about Z: the top goes to the
    /// left.
    #[inline]
    pub fn turn_z() -> (res: Rotation)
        ensures
            res == Self::spec_face_turn(PosZ),
    {
        Self::new(NegX, 1)
    }

    /// The quarter turn clockwise about Z.
    #[inline]
    pub fn turn_z_cw() -> (res: Rotation)
        ensures
            res == Self::spec_face_turn(NegZ),
    {
        Self::turn_z().invert()
    }

    /// The four rotations about X, by rising angle.
    pub fn x_rotations() -> (res: [Rotation; 4])
        ensures
            res@ == Self::spec_face_turn(PosX).spec_angles(),
            forall|i: int| 0 <= i < 4 ==> #[trigger] res@[i] == Self::spec_face_rotation(PosX, i),
    {
        Self::turn_x().angles()
    }

    /// The four rotations about Y, by rising angle.
    pub fn y_rotations() -> (res: [Rotation; 4])
        ensures
            res@ == Self::spec_face_turn(PosY).spec_angles(),
            forall|i: int| 0 <= i < 4 ==> #[trigger] res@[i] == Self::spec_face_rotation(PosY, i),
    {
        Self::turn_y().angles()
    }

    /// The four rotations about Z, by rising angle.
    pub fn z_rotations() -> (res: [Rotation; 4])
        ensures
            res@ == Self::spec_face_turn(PosZ).spec_angles(),
            forall|i: int| 0 <= i < 4 ==> #[trigger] res@[i] == Self::spec_face_rotation(PosZ, i),
    {
        Self::turn_z().angles()
    }

    /// The rotation about `face` by `angle` quarter turns
    /// counter-clockwise, seen from outside the cube. It leaves `face`
    /// where it is and turns the neighbours of `face` by `angle` places.
    ///
    /// The rotation is built by applying the quarter turn about `face` to
    /// itself, so that it is what `reorient` makes of it.
    pub fn face_rotation(face: Direction, angle: i32) -> (res: Rotation)
        ensures
            res == Self::spec_face_rotation(face, angle as int),
            res.wf(),
            res.spec_reface(face) == face,
            res.spec_reface(face.spec_up()) == face.spec_up_at_angle(angle as int),
    {
        let turn = match face {
            PosY => Self::turn_y(),
            PosX => Self::turn_x(),
            PosZ => Self::turn_z(),
            NegY => Self::turn_y_cw(),
            NegX => Self::turn_x_cw(),
            NegZ => Self::turn_z_cw(),
        };
        let turns = turn.angles();
        proof {
            lemma_face_rotation(face, angle as int);
        }
        turns[wrap_angle(angle) as usize]
    }

    /// The rotation about a corner of the cube by `angle` thirds of a
    /// turn. The corner is the one on the positive side of each axis whose
    /// argument is above zero. `angle` is taken modulo 3: a corner has
    /// three positions, so three thirds are no turn at all.
    ///
    /// The rotation leaves the corner where it is and takes each of the
    /// three faces at the corner to a face at the corner. It is built by
    /// applying the third of a turn to itself, so that it is what
    /// `reorient` makes of it.
    pub fn corner_rotation(x: i32, y: i32, z: i32, angle: i32) -> (res: Rotation)
        ensures
            res == Self::spec_corner_rotation(x as int, y as int, z as int, angle as int),
            res.wf(),
            res == Self::spec_unrotated() <==> (angle as int) % 3 == 0,
            res.spec_rotate_coord(Self::spec_corner(x as int, y as int, z as int))
                == Self::spec_corner(x as int, y as int, z as int),
            forall|face: Direction|
                Self::spec_at_corner(face, x as int, y as int, z as int) ==> Self::spec_at_corner(
                    #[trigger] res.spec_reface(face),
                    x as int,
                    y as int,
                    z as int,
                ),
    {
        let turn = if y <= 0 {
            if z <= 0 {
                if x <= 0 {
                    Self::new(PosX, 2)
                } else {
                    Self::new(PosZ, 3)
                }
            } else {
                if x <= 0 {
                    Self::new(NegZ, 1)
                } else {
                    Self::new(NegX, 0)
                }
            }
        } else {
            if z <= 0 {
                if x <= 0 {
                    Self::new(NegZ, 3)
                } else {
                    Self::new(PosX, 0)
                }
            } else {
                if x <= 0 {
                    Self::new(NegX, 2)
                } else {
                    Self::new(PosZ, 1)
                }
            }
        };
        let turns = turn.corner_angles();
        proof {
            lemma_corner_rotation(x as int, y as int, z as int, angle as int);
        }
        match angle.checked_rem_euclid(3) {
            Some(third) => turns[third as usize],
            None => vstd::pervasive::unreached(),
        }
    }

    /// Turn about X by `angle` quarter turns after `self`.
    #[inline]
    pub fn rotate_x(self, angle: i32) -> (res: Rotation)
        ensures
            res == self.spec_reorient(Self::spec_face_rotation(PosX, angle as int)),
            forall|d: Direction| #[trigger]
                res.spec_reface(d) == Self::spec_face_rotation(PosX, angle as int).spec_reface(
                    self.spec_reface(d),
                ),
    {
        self.reorient(Self::face_rotation(PosX, angle))
    }

    /// Turn about Y by `angle` quarter turns after `self`.
    #[inline]
    pub fn rotate_y(self, angle: i32) -> (res: Rotation)
        ensures
            res == self.spec_reorient(Self::spec_face_rotation(PosY, angle as int)),
            forall|d: Direction| #[trigger]
                res.spec_reface(d) == Self::spec_face_rotation(PosY, angle as int).spec_reface(
                    self.spec_reface(d),
                ),
    {
        self.reorient(Self::face_rotation(PosY, angle))
    }

    /// Turn about Z by `angle` quarter turns after `self`.
    #[inline]
    pub fn rotate_z(self, angle: i32) -> (res: Rotation)
        ensures
            res == self.spec_reorient(Self::spec_face_rotation(PosZ, angle as int)),
            forall|d: Direction| #[trigger]
                res.spec_reface(d) == Self::spec_face_rotation(PosZ, angle as int).spec_reface(
                    self.spec_reface(d),
                ),
    {
        self.reorient(Self::face_rotation(PosZ, angle))
    }

    /// Turn about `face` counter-clockwise by `angle` quarter turns after
    /// `self`. A negative `angle` turns clockwise.
    #[inline]
    pub fn rotate_face(self, face: Direction, angle: i32) -> (res: Rotation)
        ensures
            res == self.spec_reorient(Self::spec_face_rotation(face, angle as int)),
            forall|d: Direction| #[trigger]
                res.spec_reface(d) == Self::spec_face_rotation(face, angle as int).spec_reface(
                    self.spec_reface(d),
                ),
    {
        let rot = Self::face_rotation(face, angle);
        self.reorient(rot)
    }

    /// Turn about a corner by `angle` thirds of a turn after `self`.
    #[inline]
    pub fn rotate_corner(self, x: i32, y: i32, z: i32, angle: i32) -> (res: Rotation)
        ensures
            res == self.spec_reorient(
                Self::spec_corner_rotation(x as int, y as int, z as int, angle as int),
            ),
            forall|d: Direction| #[trigger]
                res.spec_reface(d) == Self::spec_corner_rotation(
                    x as int,
                    y as int,
                    z as int,
                    angle as int,
                ).spec_reface(self.spec_reface(d)),
    {
        let rot = Self::corner_rotation(x, y, z, angle);
        self.reorient(rot)
    }

    /// The orientation that turns as `self` does and then reflects by
    /// `flip`.
    #[inline]
    pub fn with_flip(self, flip: Flip) -> (res: Orientation)
        ensures
            res == Orientation::spec_new(self, flip),
            res.spec_rotation() == self,
            res.spec_flip() == flip,
    {
        Orientation::new(self, flip)
    }

    /// The orientation that turns as `self` does and reflects nothing.
    #[inline]
    pub fn orientation(self) -> (res: Orientation)
        ensures
            res == Orientation::spec_new(self, Flip::NONE),
            res.spec_rotation() == self,
            res.spec_flip() == Flip::NONE,
    {
        self.with_flip(Flip::NONE)
    }

    /// The rotation as text, such as
    /// `Rotation(up=PosY,forward=NegZ,angle=0)`.
    pub fn to_text(self) -> (res: String)
        ensures
            res@ == self.spec_text(),
    {
        let mut text = String::from_str("Rotation(up=");
        text.append(self.up().name());
        text.append(",forward=");
        text.append(self.forward().name());
        text.append(",angle=");
        text.append(
            match self.angle() {
                0 => "0",
                1 => "1",
                2 => "2",
                _ => "3",
            },
        );
        text.append(")");
        text
    }

    /// A walk through the 24 rotations by rising packed value.
    #[inline]
    pub fn iter() -> (res: RotationIterator)
        ensures
            res.spec_position() == 0,
    {
        RotationIterator::new()
    }
}

impl Default for Rotation {
    fn default() -> (res: Rotation)
        ensures
            res == Rotation::spec_unrotated(),
    {
        Rotation(0)
    }
}

impl From<Direction> for Rotation {
    /// The rotation that turns the cube's top to `value`, with angle 0.
    #[inline]
    fn from(value: Direction) -> (res: Rotation) {
        Rotation::new(value, 0)
    }
}

impl vstd::std_specs::convert::FromSpecImpl<Direction> for Rotation {
    open spec fn obeys_from_spec() -> bool {
        true
    }

    open spec fn from_spec(value: Direction) -> Rotation {
        Rotation::spec_new(value, 0)
    }
}

/// A walk through the rotations by rising packed value.
#[derive(Debug, Clone, Copy, PartialEq, Eq, Hash, Structural)]
pub struct RotationIterator {
    rotation: u8,
}

impl RotationIterator {
    /// The packed value of the rotation that comes next, or 24 at the end.
    pub closed spec fn spec_position(self) -> int {
        self.rotation as int
    }

    /// The position never passes the end.
    #[verifier::type_invariant]
    pub open spec fn wf(self) -> bool {
        0 <= self.spec_position() <= 24
    }

    /// A walk that starts at `rotation`.
    #[inline]
    pub fn start_at(rotation: Rotation) -> (res: RotationIterator)
        ensures
            res.spec_position() == rotation.spec_index(),
    {
        RotationIterator { rotation: rotation.to_u8() }
    }

    /// A walk that starts at the first rotation.
    #[inline]
    pub fn new() -> (res: RotationIterator)
        ensures
            res.spec_position() == 0,
    {
        RotationIterator { rotation: 0 }
    }

    /// The rotation that comes next, without stepping on; `None` at the
    /// end.
    pub fn current(self) -> (res: Option<Rotation>)
        ensures
            res.is_some() <==> self.spec_position() < 24,
            res matches Some(r) ==> r.spec_index() == self.spec_position() && r.wf(),
    {
        proof {
            use_type_invariant(&self);
        }
        if self.rotation == 24 {
            return None;
        }
        Some(Rotation(self.rotation))
    }

    /// How many rotations are still to come.
    #[inline]
    pub fn remaining(self) -> (res: usize)
        ensures
            res as int == 24 - self.spec_position(),
    {
        proof {
            use_type_invariant(&self);
        }
        (24 - self.rotation) as usize
    }

    /// The rotation that comes next, stepping on; `None` at the end, where
    /// the walk stays.
    pub fn next(&mut self) -> (res: Option<Rotation>)
        ensures
            res.is_some() <==> old(self).spec_position() < 24,
            res matches Some(r) ==> r.spec_index() == old(self).spec_position() && r.wf(),
            final(self).spec_position() == (if old(self).spec_position() < 24 {
                old(self).spec_position() + 1
            } else {
                24
            }),
    {
        proof {
            use_type_invariant(&*self);
        }
        if self.rotation == 24 {
            return None;
        }
        let result = Some(Rotation(self.rotation));
        self.rotation += 1;
        result
    }
}

/// A packed value below 24 gives a rotation, and that value back.
pub proof fn lemma_from_index(index: int)
    requires
        0 <= index < 24,
    ensures
        Rotation::spec_from_index(index).spec_index() == index,
        Rotation::spec_from_index(index).wf(),
{
}

/// A rotation is made of its up direction and its angle, and of nothing
/// else.
pub proof fn lemma_new(up: Direction, angle: int)
    ensures
        Rotation::spec_new(up, angle).wf(),
        Rotation::spec_new(up, angle).spec_up() == up,
        Rotation::spec_new(up, angle).spec_angle() == angle % 4,
{
}

/// Two rotations with the same packed value are the same.
pub proof fn lemma_index_determines(a: Rotation, b: Rotation)
    requires
        a.spec_index() == b.spec_index(),
    ensures
        a == b,
{
}

/// Two rotations with the same up direction and the same angle are the
/// same.
pub proof fn lemma_up_angle_determine(a: Rotation, b: Rotation)
    requires
        a.wf(),
        b.wf(),
        a.spec_up() == b.spec_up(),
        a.spec_angle() == b.spec_angle(),
    ensures
        a == b,
{
}

} // verus!
