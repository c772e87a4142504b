//! Orientations of a cube: a rotation followed by a reflection, in one
//! byte.

use vstd::prelude::*;
use vstd::string::StringExecFns;

use crate::coord::{
    spec_component, spec_negatable, spec_pick, spec_uv_values, spec_values, SignedCoord,
};
use crate::direction::Direction::{NegX, NegY, NegZ, PosX, PosY, PosZ};
use crate::direction::{lemma_flip_direction, Direction};
use crate::flip::{lemma_flip_bits, lemma_flip_self_inverse, Flip};
use crate::orient_table::{
    map_face_coord_naive, source_face_coord_naive, spec_map_face_coord, spec_source_face_coord,
};
use crate::orientation_laws::{
    lemma_canonicalize, lemma_corner_orientation, lemma_deorient, lemma_face_orientation,
    lemma_invert, lemma_reorient, lemma_source_face_inverse, lemma_turn,
};
use crate::packing::{pack_flip_and_rotation, wrap_angle};
use crate::polarity::Pol;
use crate::rotation::{lemma_from_index, lemma_index_determines, Rotation};
use crate::rotation_laws;
use crate::rotation_laws::{lemma_face_rotation, lemma_unrotated};

verus! {

/// The parts of an orientation, each in a field of its own.
#[derive(Debug, Clone, Copy, PartialEq, Eq, Hash, Structural)]
pub struct DeconstructedOrientation {
    pub flip_x: bool,
    pub flip_y: bool,
    pub flip_z: bool,
    pub angle: u8,
    pub up: Direction,
}

impl DeconstructedOrientation {
    /// The orientation made of these parts. The angle is taken modulo 4.
    #[inline]
    pub fn construct(self) -> (res: Orientation)
        ensures
            res == Orientation::spec_new(
                Rotation::spec_new(self.up, self.angle as int),
                Flip::spec_new(self.flip_x, self.flip_y, self.flip_z),
            ),
            res.spec_rotation().spec_up() == self.up,
            res.spec_rotation().spec_angle() == self.angle % 4,
            res.spec_flip() == Flip::spec_new(self.flip_x, self.flip_y, self.flip_z),
    {
        Orientation::new(
            Rotation::new(self.up, self.angle as i32),
            Flip::new(self.flip_x, self.flip_y, self.flip_z),
        )
    }
}

/// A rotation of the cube followed by a reflection across some of its
/// axes.
///
/// The value is one byte below 192: the flip in bits 0 to 2 (X, Y, Z), the
/// rotation in the five bits above (its angle in bits 3 and 4, its up
/// direction in bits 5 to 7). This layout is permanent.
///
/// The 192 values stand for the 48 symmetries of the cube, each of them
/// four times: a reflection of two axes is a half turn as well.
/// `canonicalize` picks one value for each symmetry.
#[derive(Debug, Clone, Copy, PartialEq, Eq, Hash, Structural)]
pub struct Orientation(u8);

impl Orientation {
    /// The packed value: the packed flip, plus eight times the packed
    /// rotation.
    pub closed spec fn spec_bits(self) -> int {
        self.0 as int
    }

    /// Only the 192 values below 192 are orientations.
    #[verifier::type_invariant]
    pub open spec fn wf(self) -> bool {
        0 <= self.spec_bits() < 192
    }

    /// The orientation with the packed value `bits`.
    pub closed spec fn spec_from_bits(bits: int) -> Orientation {
        Orientation(bits as u8)
    }

    /// The orientation that turns by `rotation` and then reflects by
    /// `flip`.
    pub open spec fn spec_new(rotation: Rotation, flip: Flip) -> Orientation {
        Self::spec_from_bits(flip.spec_bits() + 8 * rotation.spec_index())
    }

    /// The orientation that changes nothing.
    pub open spec fn spec_unoriented() -> Orientation {
        Self::spec_new(Rotation::spec_unrotated(), Flip::NONE)
    }

    /// The reflection that comes last.
    pub open spec fn spec_flip(self) -> Flip {
        Flip::spec_from_bits(self.spec_bits() % 8)
    }

    /// The rotation that comes first.
    pub open spec fn spec_rotation(self) -> Rotation {
        Rotation::spec_from_index(self.spec_bits() / 8)
    }

    /// Where the face `face` of the cube ends up: turned, then reflected.
    pub open spec fn spec_reface(self, face: Direction) -> Direction {
        self.spec_rotation().spec_reface(face).spec_flip(self.spec_flip())
    }

    /// The face that ends up at `face`: reflected back, then turned back.
    pub open spec fn spec_source_face(self, face: Direction) -> Direction {
        self.spec_rotation().spec_source_face(face.spec_flip(self.spec_flip()))
    }

    /// Where the cube's top ends up.
    pub open spec fn spec_up(self) -> Direction {
        self.spec_reface(PosY)
    }

    /// Where the cube's front ends up.
    pub open spec fn spec_forward(self) -> Direction {
        self.spec_reface(NegZ)
    }

    /// Apply `orientation` after `self`. The flips compose. The rotation is
    /// the one whose up direction and front are what the two orientations
    /// make of the top and the front, seen through the composed flip.
    pub open spec fn spec_reorient(self, orientation: Orientation) -> Orientation {
        let flip = self.spec_flip().spec_flip(orientation.spec_flip());
        let up = orientation.spec_reface(self.spec_up()).spec_flip(flip);
        let forward = orientation.spec_reface(self.spec_forward()).spec_flip(flip);
        Self::spec_new(Rotation::spec_new(up, up.spec_angle_to(forward)), flip)
    }

    /// Apply the inverse of `orientation` after `self`.
    pub open spec fn spec_deorient(self, orientation: Orientation) -> Orientation {
        let flip = self.spec_flip().spec_flip(orientation.spec_flip());
        let up = orientation.spec_source_face(self.spec_up()).spec_flip(flip);
        let forward = orientation.spec_source_face(self.spec_forward()).spec_flip(flip);
        Self::spec_new(Rotation::spec_new(up, up.spec_angle_to(forward)), flip)
    }

    /// The orientation that undoes `self`.
    pub open spec fn spec_invert(self) -> Orientation {
        Self::spec_unoriented().spec_deorient(self)
    }

    /// The identity, `self`, `self` applied twice and `self` applied three
    /// times.
    pub open spec fn spec_angles(self) -> Seq<Orientation> {
        seq![
            Self::spec_unoriented(),
            self,
            self.spec_reorient(self),
            self.spec_reorient(self).spec_reorient(self),
        ]
    }

    /// The orientation `offset` places further in the cyclic order of the
    /// 192 packed values, in which the flip changes fastest.
    pub open spec fn spec_cycle(self, offset: int) -> Orientation {
        Self::spec_from_bits((self.spec_bits() + offset) % 192)
    }

    /// The place of the orientation in the order in which the rotation
    /// changes fastest: 24 times the packed flip, plus the packed rotation.
    pub open spec fn spec_rotation_first_index(self) -> int {
        24 * self.spec_flip().spec_bits() + self.spec_rotation().spec_index()
    }

    /// The orientation at place `index` of the order in which the rotation
    /// changes fastest.
    pub open spec fn spec_from_rotation_first_index(index: int) -> Orientation {
        Self::spec_new(Rotation::spec_from_index(index % 24), Flip::spec_from_bits(index / 24))
    }

    /// The orientation `offset` places further in the cyclic order in
    /// which the rotation changes fastest.
    pub open spec fn spec_cycle_rotation_first(self, offset: int) -> Orientation {
        Self::spec_from_rotation_first_index((self.spec_rotation_first_index() + offset) % 192)
    }

    /// Which of the four values of its symmetry the orientation is: bit 0
    /// says whether Y is reflected, bit 1 whether Z is.
    pub open spec fn spec_canonical_group(self) -> int {
        (if self.spec_flip().spec_y() {
            1int
        } else {
            0
        }) + (if self.spec_flip().spec_z() {
            2int
        } else {
            0
        })
    }

    /// Whether the orientation is the value that stands for its symmetry:
    /// the one that reflects neither Y nor Z.
    pub open spec fn spec_is_canonical(self) -> bool {
        self.spec_canonical_group() == 0
    }

    /// One of the three orientations, besides the identity, that leave
    /// every face where it is: a half turn about an axis together with the
    /// reflection of the two other axes. Composing with the one of group
    /// `group` takes an orientation of that group to group 0.
    pub open spec fn spec_canonicalizer(group: int) -> Orientation {
        if group == 1 {
            Self::spec_new(Rotation::spec_new(NegY, 2), Flip::XY)
        } else if group == 2 {
            Self::spec_new(Rotation::spec_new(PosY, 2), Flip::XZ)
        } else {
            Self::spec_new(Rotation::spec_new(NegY, 0), Flip::YZ)
        }
    }

    /// The value that stands for the symmetry of `self`.
    pub open spec fn spec_canonicalize(self) -> Orientation {
        if self.spec_is_canonical() {
            self
        } else {
            self.spec_reorient(Self::spec_canonicalizer(self.spec_canonical_group()))
        }
    }

    /// Where the point `point` ends up: along every face normal the image
    /// has the component that `point` has along the source of that normal.
    pub open spec fn spec_transform(self, point: (int, int, int)) -> (int, int, int) {
        (
            spec_component(point, self.spec_source_face(PosX)),
            spec_component(point, self.spec_source_face(PosY)),
            spec_component(point, self.spec_source_face(PosZ)),
        )
    }

    /// Whether the coordinate of the image of `point` along `normal`, one
    /// of `PosX`, `PosY` and `PosZ`, can be reached in `T`: the coordinate
    /// that it comes from is not the least value of `T` where the rotation
    /// or the flip negates it.
    pub open spec fn spec_can_transform_along<T: SignedCoord>(
        self,
        point: (T, T, T),
        normal: Direction,
    ) -> bool {
        let source = self.spec_rotation().spec_source_face(normal);
        (source.spec_polarity() == Pol::Neg || self.spec_flip().spec_flips(normal.spec_axis()))
            ==> spec_negatable(spec_pick(point, source.spec_axis()))
    }

    /// Whether the image of `point` can be reached in `T`.
    pub open spec fn spec_can_transform<T: SignedCoord>(self, point: (T, T, T)) -> bool {
        &&& self.spec_can_transform_along(point, PosX)
        &&& self.spec_can_transform_along(point, PosY)
        &&& self.spec_can_transform_along(point, PosZ)
    }

    /// The quarter turn about `face`, without a flip.
    pub open spec fn spec_turn(face: Direction) -> Orientation {
        match face {
            PosY | PosX | PosZ => Self::spec_new(Rotation::spec_face_turn(face), Flip::NONE),
            NegY | NegX | NegZ => Self::spec_new(
                Rotation::spec_face_turn(face.spec_invert()),
                Flip::NONE,
            ).spec_invert(),
        }
    }

    /// `angle` quarter turns counter-clockwise about `face`, without a
    /// flip.
    pub open spec fn spec_face_orientation(face: Direction, angle: int) -> Orientation {
        Self::spec_turn(face).spec_angles()[angle % 4]
    }

    /// `angle` thirds of a turn about the corner on the side of the signs
    /// of `x`, `y` and `z`, where zero counts as negative, without a flip.
    /// `angle` is taken modulo 3.
    pub open spec fn spec_corner_orientation(x: int, y: int, z: int, angle: int) -> Orientation {
        let turn = Self::spec_new(Rotation::spec_corner_turn(x > 0, y > 0, z > 0), Flip::NONE);
        turn.spec_angles()[angle % 3]
    }

    /// The orientation as text.
    pub open spec fn spec_text(self) -> Seq<char> {
        "Orientation("@ + self.spec_flip().spec_text() + ","@ + self.spec_rotation().spec_text()
            + ")"@
    }

    /// The orientation that turns by `rotation` and then reflects by
    /// `flip`.
    #[inline(always)]
    pub fn new(rotation: Rotation, flip: Flip) -> (res: Orientation)
        ensures
            res == Self::spec_new(rotation, flip),
            res.spec_rotation() == rotation,
            res.spec_flip() == flip,
            res.wf(),
    {
        proof {
            use_type_invariant(&rotation);
            lemma_parts(rotation, flip);
        }
        Orientation(pack_flip_and_rotation(flip, rotation))
    }

    /// The orientation with the packed value `value`, which must be below
    /// 192.
    #[inline(always)]
    pub fn from_u8_unchecked(value: u8) -> (res: Orientation)
        requires
            value < 192,
        ensures
            res == Self::spec_from_bits(value as int),
            res.spec_bits() == value,
            res.wf(),
    {
        Orientation(value)
    }

    /// The orientation with the packed value `value`, if it is below 192.
    #[inline(always)]
    pub fn from_u8(value: u8) -> (res: Option<Orientation>)
        ensures
            value < 192 <==> res.is_some(),
            res matches Some(o) ==> o.spec_bits() == value && o.wf() && o == Self::spec_from_bits(
                value as int,
            ),
    {
        if value > 191 {
            return None;
        }
        Some(Orientation(value))
    }

    /// The orientation whose packed value is `value` reduced modulo 192.
    #[inline(always)]
    pub fn from_u8_wrapping(value: u8) -> (res: Orientation)
        ensures
            res == Self::spec_from_bits(value as int % 192),
            res.spec_bits() == value % 192,
            res.wf(),
    {
        Orientation(value % 192)
    }

    /// The packed value: the packed flip in bits 0 to 2, the packed
    /// rotation in the bits above.
    #[inline]
    pub fn to_u8(self) -> (res: u8)
        ensures
            res as int == self.spec_bits(),
            res < 192,
            res as int == self.spec_flip().spec_bits() + 8 * self.spec_rotation().spec_index(),
    {
        proof {
            use_type_invariant(&self);
            lemma_bits(self);
        }
        self.0
    }

    /// The orientation that changes nothing.
    #[inline]
    pub fn unoriented() -> (res: Orientation)
        ensures
            res == Self::spec_unoriented(),
            res.spec_bits() == 0,
            res.wf(),
    {
        proof {
            lemma_unrotated(PosY);
        }
        Orientation(0)
    }

    /// The orientation with the least packed value, 0.
    #[inline]
    pub fn min_value() -> (res: Orientation)
        ensures
            res.spec_bits() == 0,
            res.wf(),
    {
        Orientation(0)
    }

    /// The orientation with the greatest packed value, 191.
    #[inline]
    pub fn max_value() -> (res: Orientation)
        ensures
            res.spec_bits() == 191,
            res.wf(),
    {
        Orientation(191)
    }

    /// The parts of the orientation.
    #[inline]
    pub fn deconstruct(self) -> (res: DeconstructedOrientation)
        ensures
            res.flip_x == self.spec_flip().spec_x(),
            res.flip_y == self.spec_flip().spec_y(),
            res.flip_z == self.spec_flip().spec_z(),
            res.angle as int == self.spec_rotation().spec_angle(),
            res.up == self.spec_rotation().spec_up(),
    {
        DeconstructedOrientation {
            flip_x: self.flip().x(),
            flip_y: self.flip().y(),
            flip_z: self.flip().z(),
            angle: self.rotation().angle() as u8,
            up: self.rotation().up(),
        }
    }

    /// The reflection that comes last.
    #[inline(always)]
    pub fn flip(self) -> (res: Flip)
        ensures
            res == self.spec_flip(),
    {
        proof {
            use_type_invariant(&self);
            lemma_flip_bits(self.spec_flip(), Flip::NONE);
        }
        Flip::from_u8_wrapping(self.0)
    }

    /// The rotation that comes first.
    #[inline(always)]
    pub fn rotation(self) -> (res: Rotation)
        ensures
            res == self.spec_rotation(),
            res.wf(),
    {
        proof {
            use_type_invariant(&self);
        }
        let bits = self.0;
        assert(bits >> 3 == bits / 8) by (bit_vector);
        Rotation::from_u8_unchecked(self.0 >> 3)
    }

    /// Where the face `face` of the cube ends up: the face is turned and
    /// then reflected.
    #[inline]
    pub fn reface(self, face: Direction) -> (res: Direction)
        ensures
            res == self.spec_reface(face),
    {
        let rotated = self.rotation().reface(face);
        rotated.flip(self.flip())
    }

    /// The face that ends up at `face`: the inverse of `reface`.
    #[inline]
    pub fn source_face(self, face: Direction) -> (res: Direction)
        ensures
            res == self.spec_source_face(face),
            self.spec_reface(res) == face,
    {
        let flipped = face.flip(self.flip());
        proof {
            use_type_invariant(&self);
            lemma_source_face_inverse(self, face);
        }
        self.rotation().source_face(flipped)
    }

    /// Where the cube's top (`PosY`) ends up.
    #[inline]
    pub fn up(self) -> (res: Direction)
        ensures
            res == self.spec_reface(PosY),
    {
        self.reface(PosY)
    }

    /// Where the cube's bottom (`NegY`) ends up.
    #[inline]
    pub fn down(self) -> (res: Direction)
        ensures
            res == self.spec_reface(NegY),
    {
        self.reface(NegY)
    }

    /// Where the cube's front (`NegZ`) ends up.
    #[inline]
    pub fn forward(self) -> (res: Direction)
        ensures
            res == self.spec_reface(NegZ),
    {
        self.reface(NegZ)
    }

    /// Where the cube's back (`PosZ`) ends up.
    #[inline]
    pub fn backward(self) -> (res: Direction)
        ensures
            res == self.spec_reface(PosZ),
    {
        self.reface(PosZ)
    }

    /// Where the cube's left side (`NegX`) ends up.
    #[inline]
    pub fn left(self) -> (res: Direction)
        ensures
            res == self.spec_reface(NegX),
    {
        self.reface(NegX)
    }

    /// Where the cube's right side (`PosX`) ends up.
    #[inline]
    pub fn right(self) -> (res: Direction)
        ensures
            res == self.spec_reface(PosX),
    {
        self.reface(PosX)
    }

    /// Apply an orientation to an orientation: the result first does what
    /// `self` does and then what `orientation` does.
    pub fn reorient(self, orientation: Orientation) -> (res: Orientation)
        ensures
            res == self.spec_reorient(orientation),
            res.wf(),
            res.spec_flip() == self.spec_flip().spec_flip(orientation.spec_flip()),
            forall|d: Direction| #[trigger]
                res.spec_reface(d) == orientation.spec_reface(self.spec_reface(d)),
    {
        let up = self.up();
        let fwd = self.forward();
        let reup = orientation.reface(up);
        let refwd = orientation.reface(fwd);
        let flip = self.flip().flip(orientation.flip());
        let flipup = reup.flip(flip);
        let flipfwd = refwd.flip(flip);
        proof {
            use_type_invariant(&self);
            use_type_invariant(&orientation);
            lemma_reorient(self, orientation);
        }
        match Rotation::from_up_and_forward(flipup, flipfwd) {
            Some(rot) => Orientation::new(rot, flip),
            None => vstd::pervasive::unreached(),
        }
    }

    /// Remove an orientation from an orientation: the result first does
    /// what `self` does and then undoes what `orientation` does.
    pub fn deorient(self, orientation: Orientation) -> (res: Orientation)
        ensures
            res == self.spec_deorient(orientation),
            res.wf(),
            res.spec_flip() == self.spec_flip().spec_flip(orientation.spec_flip()),
            forall|d: Direction| #[trigger]
                res.spec_reface(d) == orientation.spec_source_face(self.spec_reface(d)),
    {
        let up = self.up();
        let fwd = self.forward();
        let reup = orientation.source_face(up);
        let refwd = orientation.source_face(fwd);
        let flip = self.flip().flip(orientation.flip());
        let flipup = reup.flip(flip);
        let flipfwd = refwd.flip(flip);
        proof {
            use_type_invariant(&self);
            use_type_invariant(&orientation);
            lemma_deorient(self, orientation);
        }
        match Rotation::from_up_and_forward(flipup, flipfwd) {
            Some(rot) => Orientation::new(rot, flip),
            None => vstd::pervasive::unreached(),
        }
    }

    /// The orientation that undoes `self`.
    #[inline]
    pub fn invert(self) -> (res: Orientation)
        ensures
            res == self.spec_invert(),
            res.wf(),
            res.spec_flip() == self.spec_flip(),
            forall|d: Direction| #[trigger] res.spec_reface(d) == self.spec_source_face(d),
    {
        proof {
            use_type_invariant(&self);
            lemma_invert(self);
        }
        Self::unoriented().deorient(self)
    }

    /// The identity, the orientation itself, the orientation applied twice
    /// and the orientation applied three times. For a quarter turn these
    /// are the four orientations about its axis.
    pub fn angles(self) -> (res: [Orientation; 4])
        ensures
            res@ == self.spec_angles(),
            forall|i: int| 0 <= i < 4 ==> (#[trigger] res@[i]).wf(),
    {
        let angle1 = self;
        let angle2 = angle1.reorient(angle1);
        let angle3 = angle2.reorient(angle1);
        let res = [Self::unoriented(), angle1, angle2, angle3];
        proof {
            use_type_invariant(&self);
            assert(res@ =~= self.spec_angles());
        }
        res
    }

    /// The identity, the orientation itself and the orientation applied
    /// twice. For a third of a turn about a corner these are the three
    /// orientations about that corner.
    pub fn corner_angles(self) -> (res: [Orientation; 3])
        ensures
            res@ == self.spec_angles().take(3),
            forall|i: int| 0 <= i < 3 ==> (#[trigger] res@[i]).wf(),
    {
        let angle1 = self;
        let angle2 = angle1.reorient(angle1);
        let res = [Self::unoriented(), angle1, angle2];
        proof {
            use_type_invariant(&self);
            assert(res@ =~= self.spec_angles().take(3));
        }
        res
    }

    /// The quarter turn counter-clockwise about X, without a flip.
    #[inline]
    pub fn turn_x() -> (res: Orientation)
        ensures
            res == Self::spec_face_orientation(PosX, 1),
            res == Self::spec_new(Rotation::spec_face_turn(PosX), Flip::NONE),
    {
        proof {
            lemma_face_orientation(PosX, 1);
        }
        Rotation::turn_x().orientation()
    }

    /// The four orientations that turn about X and reflect nothing, by
    /// rising angle.
    pub fn x_rotations() -> (res: [Orientation; 4])
        ensures
            res@ == Self::spec_turn(PosX).spec_angles(),
            forall|i: int|
                0 <= i < 4 ==> #[trigger] res@[i] == Self::spec_face_orientation(PosX, i),
    {
        proof {
            lemma_face_orientation(PosX, 0);
            lemma_face_orientation(PosX, 1);
            lemma_face_orientation(PosX, 2);
            lemma_face_orientation(PosX, 3);
        }
        Self::turn_x().angles()
    }

    /// The quarter turn counter-clockwise about Y, without a flip.
    #[inline]
    pub fn turn_y() -> (res: Orientation)
        ensures
            res == Self::spec_face_orientation(PosY, 1),
            res == Self::spec_new(Rotation::spec_face_turn(PosY), Flip::NONE),
    {
        proof {
            lemma_face_orientation(PosY, 1);
        }
        Rotation::turn_y().orientation()
    }

    /// The four orientations that turn about Y and reflect nothing, by
    /// rising angle.
    pub fn y_rotations() -> (res: [Orientation; 4])
        ensures
            res@ == Self::spec_turn(PosY).spec_angles(),
            forall|i: int|
                0 <= i < 4 ==> #[trigger] res@[i] == Self::spec_face_orientation(PosY, i),
    {
        proof {
            lemma_face_orientation(PosY, 0);
            lemma_face_orientation(PosY, 1);
            lemma_face_orientation(PosY, 2);
            lemma_face_orientation(PosY, 3);
        }
        Self::turn_y().angles()
    }

    /// The quarter turn counter-clockwise about Z, without a flip.
    #[inline]
    pub fn turn_z() -> (res: Orientation)
        ensures
            res == Self::spec_face_orientation(PosZ, 1),
            res == Self::spec_new(Rotation::spec_face_turn(PosZ), Flip::NONE),
    {
        proof {
            lemma_face_orientation(PosZ, 1);
        }
        Rotation::turn_z().orientation()
    }

    /// The four orientations that turn about Z and reflect nothing, by
    /// rising angle.
    pub fn z_rotations() -> (res: [Orientation; 4])
        ensures
            res@ == Self::spec_turn(PosZ).spec_angles(),
            forall|i: int|
                0 <= i < 4 ==> #[trigger] res@[i] == Self::spec_face_orientation(PosZ, i),
    {
        proof {
            lemma_face_orientation(PosZ, 0);
            lemma_face_orientation(PosZ, 1);
            lemma_face_orientation(PosZ, 2);
            lemma_face_orientation(PosZ, 3);
        }
        Self::turn_z().angles()
    }

    /// The orientation by which to reorient in order to turn about `face`
    /// by `angle` quarter turns counter-clockwise. It reflects nothing,
    /// leaves `face` where it is and turns the neighbours of `face` by
    /// `angle` places. For the angle 0 it is the identity.
    ///
    /// It is built by applying the quarter turn about `face` to itself, so
    /// that it is what `reorient` makes of it.
    pub fn face_orientation(face: Direction, angle: i32) -> (res: Orientation)
        ensures
            res == Self::spec_face_orientation(face, angle as int),
            res == Self::spec_new(Rotation::spec_face_rotation(face, angle as int), Flip::NONE),
            res.spec_reface(face) == face,
            res.spec_reface(face.spec_up()) == face.spec_up_at_angle(angle as int),
    {
        let turn = match face {
            PosY => Self::turn_y(),
            PosX => Self::turn_x(),
            PosZ => Self::turn_z(),
            NegY => Self::turn_y().invert(),
            NegX => Self::turn_x().invert(),
            NegZ => Self::turn_z().invert(),
        };
        let turns = turn.angles();
        proof {
            lemma_turn(face);
            lemma_face_orientation(face, angle as int);
        }
        turns[wrap_angle(angle) as usize]
    }

    /// The orientation by which to reorient in order to turn about a
    /// corner of the cube by `angle` thirds of a turn. The corner is the
    /// one on the positive side of each axis whose argument is above zero.
    /// `angle` is taken modulo 3.
    pub fn corner_orientation(x: i32, y: i32, z: i32, angle: i32) -> (res: Orientation)
        ensures
            res == Self::spec_corner_orientation(x as int, y as int, z as int, angle as int),
            res == Self::spec_new(
                Rotation::spec_corner_rotation(x as int, y as int, z as int, angle as int),
                Flip::NONE,
            ),
            res.wf(),
            res == Self::spec_unoriented() <==> (angle as int) % 3 == 0,
    {
        let turn = if y <= 0 {
            if z <= 0 {
                if x <= 0 {
                    Rotation::new(PosX, 2)
                } else {
                    Rotation::new(PosZ, 3)
                }
            } else {
                if x <= 0 {
                    Rotation::new(NegZ, 1)
                } else {
                    Rotation::new(NegX, 0)
                }
            }
        } else {
            if z <= 0 {
                if x <= 0 {
                    Rotation::new(NegZ, 3)
                } else {
                    Rotation::new(PosX, 0)
                }
            } else {
                if x <= 0 {
                    Rotation::new(NegX, 2)
                } else {
                    Rotation::new(PosZ, 1)
                }
            }
        };
        let turns = turn.orientation().corner_angles();
        proof {
            lemma_corner_orientation(x as int, y as int, z as int, angle as int);
        }
        match angle.checked_rem_euclid(3) {
            Some(third) => turns[third as usize],
            None => vstd::pervasive::unreached(),
        }
    }

    /// The orientation with `flip` composed onto the flip of `self`, and
    /// the rotation of `self`.
    #[inline(always)]
    pub fn flipped(self, flip: Flip) -> (res: Orientation)
        ensures
            res == Self::spec_new(self.spec_rotation(), self.spec_flip().spec_flip(flip)),
            res.spec_rotation() == self.spec_rotation(),
            res.spec_flip() == self.spec_flip().spec_flip(flip),
    {
        Self::new(self.rotation(), self.flip().flip(flip))
    }

    /// Replace the flip and keep the rotation.
    #[inline]
    pub fn set_flip(&mut self, flip: Flip)
        ensures
            *final(self) == Self::spec_new(old(self).spec_rotation(), flip),
            final(self).spec_rotation() == old(self).spec_rotation(),
            final(self).spec_flip() == flip,
    {
        *self = Self::new(self.rotation(), flip);
    }

    /// Take the flip away and keep the rotation.
    #[inline]
    pub fn reset_flip(&mut self)
        ensures
            *final(self) == Self::spec_new(old(self).spec_rotation(), Flip::NONE),
            final(self).spec_rotation() == old(self).spec_rotation(),
            final(self).spec_flip() == Flip::NONE,
    {
        *self = Self::new(self.rotation(), Flip::NONE);
    }

    /// Replace the rotation and keep the flip.
    #[inline]
    pub fn set_rotation(&mut self, rotation: Rotation)
        ensures
            *final(self) == Self::spec_new(rotation, old(self).spec_flip()),
            final(self).spec_rotation() == rotation,
            final(self).spec_flip() == old(self).spec_flip(),
    {
        *self = Self::new(rotation, self.flip());
    }

    /// Take the rotation away and keep the flip.
    #[inline]
    pub fn reset_rotation(&mut self)
        ensures
            *final(self) == Self::spec_new(Rotation::spec_unrotated(), old(self).spec_flip()),
            final(self).spec_rotation() == Rotation::spec_unrotated(),
            final(self).spec_flip() == old(self).spec_flip(),
    {
        *self = Self::new(Rotation::unrotated(), self.flip());
    }

    /// Replace the up direction of the rotation; keep its angle and the
    /// flip.
    #[inline]
    pub fn set_up(&mut self, up: Direction)
        ensures
            *final(self) == Self::spec_new(
                Rotation::spec_new(up, old(self).spec_rotation().spec_angle()),
                old(self).spec_flip(),
            ),
            final(self).spec_rotation().spec_up() == up,
            final(self).spec_rotation().spec_angle() == old(self).spec_rotation().spec_angle(),
            final(self).spec_flip() == old(self).spec_flip(),
    {
        let mut rot = self.rotation();
        rot.set_up(up);
        self.set_rotation(rot);
    }

    /// Replace the angle of the rotation, taken modulo 4; keep its up
    /// direction and the flip.
    #[inline]
    pub fn set_angle(&mut self, angle: i32)
        ensures
            *final(self) == Self::spec_new(
                Rotation::spec_new(old(self).spec_rotation().spec_up(), angle as int),
                old(self).spec_flip(),
            ),
            final(self).spec_rotation().spec_up() == old(self).spec_rotation().spec_up(),
            final(self).spec_rotation().spec_angle() == (angle as int) % 4,
            final(self).spec_flip() == old(self).spec_flip(),
    {
        let mut rot = self.rotation();
        rot.set_angle(angle);
        self.set_rotation(rot);
    }

    /// Step through the 192 orientations in the order of their packed
    /// values, `offset` places ahead (or back, for a negative `offset`),
    /// wrapping around at both ends. In this order the flip changes
    /// fastest.
    #[inline]
    pub fn cycle(self, offset: i32) -> (res: Orientation)
        ensures
            res == self.spec_cycle(offset as int),
            res.spec_bits() == (self.spec_bits() + offset) % 192,
            res.wf(),
    {
        proof {
            use_type_invariant(&self);
        }
        let sum: i64 = self.0 as i64 + offset as i64;
        match sum.checked_rem_euclid(192) {
            Some(bits) => Orientation(bits as u8),
            None => vstd::pervasive::unreached(),
        }
    }

    /// Step through the 192 orientations in the order in which the
    /// rotation changes fastest: all 24 rotations with the first flip,
    /// then all 24 with the next, wrapping around at both ends.
    #[inline]
    pub fn cycle_rotation_first(self, offset: i32) -> (res: Orientation)
        ensures
            res == self.spec_cycle_rotation_first(offset as int),
            res.spec_rotation_first_index() == (self.spec_rotation_first_index() + offset) % 192,
            res.wf(),
    {
        let index: i64 = self.flip().to_u8() as i64 * 24 + self.rotation().to_u8() as i64;
        match (index + offset as i64).checked_rem_euclid(192) {
            Some(place) => {
                let rotation = Rotation::from_u8_unchecked((place % 24) as u8);
                let flip = Flip::from_u8_unchecked((place / 24) as u8);
                proof {
                    lemma_flip_bits(flip, flip);
                }
                Self::new(rotation, flip)
            },
            None => vstd::pervasive::unreached(),
        }
    }

    /// Step through the 24 rotations and keep the flip.
    #[inline]
    pub fn cycle_rotation(self, offset: i32) -> (res: Orientation)
        ensures
            res == Self::spec_new(self.spec_rotation().spec_cycle(offset as int), self.spec_flip()),
            res.spec_flip() == self.spec_flip(),
            res.spec_rotation().spec_index() == (self.spec_rotation().spec_index() + offset) % 24,
    {
        Self::new(self.rotation().cycle(offset), self.flip())
    }

    /// All 192 orientations by rising packed value: the 8 flips of the
    /// first rotation, then the 8 flips of the next.
    pub fn iter(self) -> (res: Vec<Orientation>)
        ensures
            res@.len() == 192,
            forall|i: int| 0 <= i < 192 ==> (#[trigger] res@[i]).spec_bits() == i,
    {
        let mut all: Vec<Orientation> = Vec::new();
        let mut bits: u8 = 0;
        while bits < 192
            invariant
                bits <= 192,
                all@.len() == bits,
                forall|i: int| 0 <= i < bits ==> (#[trigger] all@[i]).spec_bits() == i,
            decreases 192 - bits,
        {
            all.push(Orientation(bits));
            bits += 1;
        }
        all
    }

    /// A walk through the 192 orientations in which the rotation changes
    /// fastest.
    #[inline]
    pub fn iter_rotation_order(self) -> (res: RotationFirstOrientationIterator)
        ensures
            res.spec_position() == 0,
    {
        RotationFirstOrientationIterator::new()
    }

    /// All 192 orientations in the order in which the rotation changes
    /// fastest: the 24 rotations with no flip, then the 24 with the next
    /// flip.
    pub fn rotation_ordered() -> (res: Vec<Orientation>)
        ensures
            res@.len() == 192,
            forall|i: int|
                0 <= i < 192 ==> #[trigger] res@[i] == Self::spec_from_rotation_first_index(i),
    {
        let mut order: Vec<Orientation> = Vec::new();
        let mut place: u8 = 0;
        while place < 192
            invariant
                place <= 192,
                order@.len() == place,
                forall|i: int|
                    0 <= i < place ==> #[trigger] order@[i] == Self::spec_from_rotation_first_index(
                        i,
                    ),
            decreases 192 - place,
        {
            let rotation = Rotation::from_u8_unchecked(place % 24);
            let flip = Flip::from_u8_unchecked(place / 24);
            order.push(Self::new(rotation, flip));
            place += 1;
        }
        order
    }

    /// Rotate and then reflect a point.
    ///
    /// Where this is used on the corners of a mesh, the order of the
    /// corners of each face has to be reversed if the flip reverses
    /// handedness (`Flip::bits_xor`).
    #[inline]
    pub fn transform<T: SignedCoord>(self, point: (T, T, T)) -> (res: (T, T, T))
        requires
            self.spec_can_transform(point),
        ensures
            spec_values(res) == self.spec_transform(spec_values(point)),
    {
        proof {
            use_type_invariant(&self);
            lemma_bits(self);
            T::lemma_range(point.0);
            T::lemma_range(point.1);
            T::lemma_range(point.2);
            rotation_laws::lemma_reface_invert(self.spec_rotation(), PosX);
            rotation_laws::lemma_reface_invert(self.spec_rotation(), PosY);
            rotation_laws::lemma_reface_invert(self.spec_rotation(), PosZ);
        }
        let rotated = self.rotation().rotate_coord(point);
        self.flip().flip_coord(rotated)
    }

    /// Where on `face` a UV coordinate of the source face ends up, the
    /// source face being the one that the orientation takes to `face`.
    ///
    /// Coordinates are best given about the middle of the face: for a face
    /// of 16 by 16, take 8 from both coordinates before the call and add 8
    /// to both after it.
    #[inline]
    pub fn map_face_coord<T: SignedCoord>(self, face: Direction, uv: (T, T)) -> (res: (T, T))
        requires
            spec_map_face_coord(self, face).spec_can_map(uv),
        ensures
            spec_uv_values(res) == spec_map_face_coord(self, face).spec_map(spec_uv_values(uv)),
    {
        let coordmap = map_face_coord_naive(self, face);
        coordmap.map(uv)
    }

    /// Where on the source face a UV coordinate of `face` comes from, the
    /// source face being the one that the orientation takes to `face`.
    ///
    /// Coordinates are best given about the middle of the face, as for
    /// `map_face_coord`.
    #[inline]
    pub fn source_face_coord<T: SignedCoord>(self, face: Direction, uv: (T, T)) -> (res: (T, T))
        requires
            spec_source_face_coord(self, face).spec_can_map(uv),
        ensures
            spec_uv_values(res) == spec_source_face_coord(self, face).spec_map(spec_uv_values(uv)),
    {
        let coordmap = source_face_coord_naive(self, face);
        coordmap.map(uv)
    }

    /// Turn `orientation` into the frame of `self` and apply it there:
    /// `self`, then `orientation`, then `self` again, all applied after
    /// `self`.
    #[inline]
    pub fn reorient_local(self, orientation: Orientation) -> (res: Orientation)
        ensures
            res == self.spec_reorient(self.spec_reorient(orientation).spec_reorient(self)),
            forall|d: Direction| #[trigger]
                res.spec_reface(d) == self.spec_reface(
                    orientation.spec_reface(self.spec_reface(self.spec_reface(d))),
                ),
    {
        let stage1 = self.reorient(orientation);
        let stage2 = stage1.reorient(self);
        let res = self.reorient(stage2);
        proof {
            assert forall|d: Direction| #[trigger]
                res.spec_reface(d) == self.spec_reface(
                    orientation.spec_reface(self.spec_reface(self.spec_reface(d))),
                ) by {
                let e = self.spec_reface(d);
                assert(stage2.spec_reface(e) == self.spec_reface(stage1.spec_reface(e)));
                assert(stage1.spec_reface(e) == orientation.spec_reface(self.spec_reface(e)));
            }
        }
        res
    }

    /// The inverse of what `reorient_local` applies: taken away after
    /// `self`.
    #[inline]
    pub fn deorient_local(self, orientation: Orientation) -> (res: Orientation)
        ensures
            res == self.spec_deorient(self.spec_reorient(orientation).spec_reorient(self)),
            forall|d: Direction| #[trigger]
                res.spec_reface(d) == self.spec_reorient(orientation).spec_reorient(
                    self,
                ).spec_source_face(self.spec_reface(d)),
    {
        let stage1 = self.reorient(orientation);
        let stage2 = stage1.reorient(self);
        self.deorient(stage2)
    }

    /// Reflect the orientation along the X axis as well.
    #[inline]
    pub fn flip_x(self) -> (res: Orientation)
        ensures
            res == Self::spec_new(self.spec_rotation(), self.spec_flip().spec_flip(Flip::X)),
    {
        self.flipped(Flip::X)
    }

    /// Reflect the orientation along the Y axis as well.
    #[inline]
    pub fn flip_y(self) -> (res: Orientation)
        ensures
            res == Self::spec_new(self.spec_rotation(), self.spec_flip().spec_flip(Flip::Y)),
    {
        self.flipped(Flip::Y)
    }

    /// Reflect the orientation along the Z axis as well.
    #[inline]
    pub fn flip_z(self) -> (res: Orientation)
        ensures
            res == Self::spec_new(self.spec_rotation(), self.spec_flip().spec_flip(Flip::Z)),
    {
        self.flipped(Flip::Z)
    }

    /// Reflect the orientation along the X and Y axes as well.
    #[inline]
    pub fn flip_xy(self) -> (res: Orientation)
        ensures
            res == Self::spec_new(self.spec_rotation(), self.spec_flip().spec_flip(Flip::XY)),
    {
        self.flipped(Flip::XY)
    }

    /// Reflect the orientation along the X and Z axes as well.
    #[inline]
    pub fn flip_xz(self) -> (res: Orientation)
        ensures
            res == Self::spec_new(self.spec_rotation(), self.spec_flip().spec_flip(Flip::XZ)),
    {
        self.flipped(Flip::XZ)
    }

    /// Reflect the orientation along the Y and Z axes as well.
    #[inline]
    pub fn flip_yz(self) -> (res: Orientation)
        ensures
            res == Self::spec_new(self.spec_rotation(), self.spec_flip().spec_flip(Flip::YZ)),
    {
        self.flipped(Flip::YZ)
    }

    /// Reflect the orientation along the X, Y and Z axes as well.
    #[inline]
    pub fn flip_xyz(self) -> (res: Orientation)
        ensures
            res == Self::spec_new(self.spec_rotation(), self.spec_flip().spec_flip(Flip::XYZ)),
    {
        self.flipped(Flip::XYZ)
    }

    /// Turn about X by `angle` quarter turns after `self`.
    #[inline]
    pub fn rotate_x(self, angle: i32) -> (res: Orientation)
        ensures
            res == self.spec_reorient(Self::spec_face_orientation(PosX, angle as int)),
            res.spec_flip() == self.spec_flip(),
            forall|d: Direction| #[trigger]
                res.spec_reface(d) == Rotation::spec_face_rotation(PosX, angle as int).spec_reface(
                    self.spec_reface(d),
                ),
    {
        self.rotate_face(PosX, angle)
    }

    /// Turn about Y by `angle` quarter turns after `self`.
    #[inline]
    pub fn rotate_y(self, angle: i32) -> (res: Orientation)
        ensures
            res == self.spec_reorient(Self::spec_face_orientation(PosY, angle as int)),
            res.spec_flip() == self.spec_flip(),
            forall|d: Direction| #[trigger]
                res.spec_reface(d) == Rotation::spec_face_rotation(PosY, angle as int).spec_reface(
                    self.spec_reface(d),
                ),
    {
        self.rotate_face(PosY, angle)
    }

    /// Turn about Z by `angle` quarter turns after `self`.
    #[inline]
    pub fn rotate_z(self, angle: i32) -> (res: Orientation)
        ensures
            res == self.spec_reorient(Self::spec_face_orientation(PosZ, angle as int)),
            res.spec_flip() == self.spec_flip(),
            forall|d: Direction| #[trigger]
                res.spec_reface(d) == Rotation::spec_face_rotation(PosZ, angle as int).spec_reface(
                    self.spec_reface(d),
                ),
    {
        self.rotate_face(PosZ, angle)
    }

    /// Turn about `face` counter-clockwise by `angle` quarter turns after
    /// `self`. A negative `angle` turns clockwise.
    #[inline]
    pub fn rotate_face(self, face: Direction, angle: i32) -> (res: Orientation)
        ensures
            res == self.spec_reorient(Self::spec_face_orientation(face, angle as int)),
            res.spec_flip() == self.spec_flip(),
            forall|d: Direction| #[trigger]
                res.spec_reface(d) == Rotation::spec_face_rotation(face, angle as int).spec_reface(
                    self.spec_reface(d),
                ),
    {
        let orient = Self::face_orientation(face, angle);
        proof {
            lemma_face_rotation(face, angle as int);
            lemma_parts(Rotation::spec_face_rotation(face, angle as int), Flip::NONE);
            lemma_flip_self_inverse(self.spec_flip());
            assert forall|d: Direction|
                orient.spec_reface(d) == Rotation::spec_face_rotation(
                    face,
                    angle as int,
                ).spec_reface(d) by {
                lemma_flip_direction(
                    Rotation::spec_face_rotation(face, angle as int).spec_reface(d),
                    Flip::NONE,
                    Flip::NONE,
                );
            }
        }
        self.reorient(orient)
    }

    /// Turn about a corner by `angle` thirds of a turn after `self`.
    #[inline]
    pub fn rotate_corner(self, x: i32, y: i32, z: i32, angle: i32) -> (res: Orientation)
        ensures
            res == self.spec_reorient(
                Self::spec_corner_orientation(x as int, y as int, z as int, angle as int),
            ),
            forall|d: Direction| #[trigger]
                res.spec_reface(d) == Self::spec_corner_orientation(
                    x as int,
                    y as int,
                    z as int,
                    angle as int,
                ).spec_reface(self.spec_reface(d)),
    {
        let orient = Self::corner_orientation(x, y, z, angle);
        self.reorient(orient)
    }

    /// Which of the four values of its symmetry the orientation is: bits 1
    /// and 2 of the packed value.
    #[inline]
    pub fn canonical_group(self) -> (res: u8)
        ensures
            res as int == self.spec_canonical_group(),
            res as int == (self.spec_bits() / 2) % 4,
            res < 4,
    {
        proof {
            use_type_invariant(&self);
            lemma_bits(self);
            lemma_flip_bits(self.spec_flip(), self.spec_flip());
        }
        let bits = self.0;
        assert((bits >> 1) & 3 == (bits / 2) % 4) by (bit_vector);
        (self.0 >> 1) & 3
    }

    /// Whether the orientation is the value that stands for its symmetry.
    #[inline]
    pub fn is_canonical(self) -> (res: bool)
        ensures
            res == self.spec_is_canonical(),
            res <==> self.spec_canonical_group() == 0,
    {
        self.canonical_group() == 0
    }

    /// The value that stands for the symmetry of `self`: the orientation
    /// that sends every face where `self` sends it and reflects neither Y
    /// nor Z. It reflects X exactly if `self` reverses handedness.
    pub fn canonicalize(self) -> (res: Orientation)
        ensures
            res == self.spec_canonicalize(),
            res.wf(),
            res.spec_canonical_group() == 0,
            res.spec_flip() == (if self.spec_flip().spec_bits_xor() {
                Flip::X
            } else {
                Flip::NONE
            }),
            forall|d: Direction| #[trigger] res.spec_reface(d) == self.spec_reface(d),
            self.spec_is_canonical() ==> res == self,
    {
        proof {
            use_type_invariant(&self);
            lemma_canonicalize(self);
        }
        match self.canonical_group() {
            0 => self,
            1 => self.reorient(Self::new(Rotation::new(NegY, 2), Flip::XY)),
            2 => self.reorient(Self::new(Rotation::new(PosY, 2), Flip::XZ)),
            _ => self.reorient(Self::new(Rotation::new(NegY, 0), Flip::YZ)),
        }
    }

    /// The orientation as text, such as
    /// `Orientation(Flip(X),Rotation(up=PosY,forward=NegZ,angle=0))`.
    pub fn to_text(self) -> (res: String)
        ensures
            res@ == self.spec_text(),
    {
        let mut text = String::from_str("Orientation(");
        let flip = self.flip().to_text();
        text.append(flip.as_str());
        text.append(",");
        let rotation = self.rotation().to_text();
        text.append(rotation.as_str());
        text.append(")");
        text
    }
}

impl Default for Orientation {
    fn default() -> (res: Orientation)
        ensures
            res == Orientation::spec_unoriented(),
    {
        Orientation::unoriented()
    }
}

impl From<Rotation> for Orientation {
    /// The orientation that turns as `value` does and reflects nothing.
    #[inline]
    fn from(value: Rotation) -> (res: Orientation) {
        Orientation::new(value, Flip::NONE)
    }
}

impl vstd::std_specs::convert::FromSpecImpl<Rotation> for Orientation {
    open spec fn obeys_from_spec() -> bool {
        true
    }

    open spec fn from_spec(value: Rotation) -> Orientation {
        Orientation::spec_new(value, Flip::NONE)
    }
}

impl From<Flip> for Orientation {
    /// The orientation that does not turn and reflects as `value` does.
    #[inline]
    fn from(value: Flip) -> (res: Orientation) {
        Orientation::new(Rotation::unrotated(), value)
    }
}

impl vstd::std_specs::convert::FromSpecImpl<Flip> for Orientation {
    open spec fn obeys_from_spec() -> bool {
        true
    }

    open spec fn from_spec(value: Flip) -> Orientation {
        Orientation::spec_new(Rotation::spec_unrotated(), value)
    }
}

impl From<Orientation> for u8 {
    /// The packed value.
    #[inline]
    fn from(value: Orientation) -> (res: u8) {
        value.to_u8()
    }
}

impl vstd::std_specs::convert::FromSpecImpl<Orientation> for u8 {
    open spec fn obeys_from_spec() -> bool {
        true
    }

    open spec fn from_spec(value: Orientation) -> u8 {
        value.spec_bits() as u8
    }
}

/// A walk through the orientations in the order in which the rotation
/// changes fastest.
#[derive(Debug, Clone, Copy, PartialEq, Eq, Hash, Structural)]
pub struct RotationFirstOrientationIterator {
    flip: u8,
    rotation: u8,
}

impl RotationFirstOrientationIterator {
    /// The place, in the order in which the rotation changes fastest, of
    /// the orientation that comes next; 192 at the end.
    pub closed spec fn spec_position(self) -> int {
        24 * self.flip + self.rotation
    }

    /// The walk stands at a rotation below 24 of a flip below 8, or at the
    /// end.
    #[verifier::type_invariant]
    closed spec fn inv(self) -> bool {
        &&& self.rotation < 24
        &&& self.flip <= 8
        &&& self.flip == 8 ==> self.rotation == 0
    }

    /// A walk that starts at the first orientation.
    #[inline]
    pub fn new() -> (res: RotationFirstOrientationIterator)
        ensures
            res.spec_position() == 0,
    {
        RotationFirstOrientationIterator { flip: 0, rotation: 0 }
    }

    /// A walk that starts at `orientation`.
    #[inline]
    pub fn start_at(orientation: Orientation) -> (res: RotationFirstOrientationIterator)
        ensures
            res.spec_position() == orientation.spec_rotation_first_index(),
    {
        RotationFirstOrientationIterator {
            flip: orientation.flip().to_u8(),
            rotation: orientation.rotation().to_u8(),
        }
    }

    /// The orientation that comes next, without stepping on; `None` at the
    /// end.
    #[inline]
    pub fn current(self) -> (res: Option<Orientation>)
        ensures
            0 <= self.spec_position() <= 192,
            res.is_some() <==> self.spec_position() < 192,
            res matches Some(o) ==> o == Orientation::spec_from_rotation_first_index(
                self.spec_position(),
            ) && o.spec_rotation_first_index() == self.spec_position() && o.wf(),
    {
        proof {
            use_type_invariant(&self);
        }
        if self.flip == 8 {
            return None;
        }
        let rotation = Rotation::from_u8_unchecked(self.rotation);
        let flip = Flip::from_u8_unchecked(self.flip);
        proof {
            lemma_flip_bits(flip, flip);
        }
        Some(Orientation::new(rotation, flip))
    }

    /// How many orientations are still to come.
    #[inline]
    pub fn remaining(self) -> (res: usize)
        ensures
            res as int == 192 - self.spec_position(),
    {
        proof {
            use_type_invariant(&self);
        }
        192 - (self.flip as usize * 24 + self.rotation as usize)
    }

    /// The orientation that comes next, stepping on; `None` at the end,
    /// where the walk stays.
    pub fn next(&mut self) -> (res: Option<Orientation>)
        ensures
            0 <= old(self).spec_position() <= 192,
            res.is_some() <==> old(self).spec_position() < 192,
            res matches Some(o) ==> o == Orientation::spec_from_rotation_first_index(
                old(self).spec_position(),
            ) && o.spec_rotation_first_index() == old(self).spec_position() && o.wf(),
            final(self).spec_position() == (if old(self).spec_position() < 192 {
                old(self).spec_position() + 1
            } else {
                192
            }),
    {
        proof {
            use_type_invariant(&*self);
        }
        let result = self.current();
        if self.flip == 8 {
            return result;
        }
        if self.rotation == 23 {
            self.rotation = 0;
            self.flip += 1;
        } else {
            self.rotation += 1;
        }
        result
    }
}

/// An orientation made of a rotation and a flip has these as its parts.
pub proof fn lemma_parts(rotation: Rotation, flip: Flip)
    requires
        rotation.wf(),
    ensures
        Orientation::spec_new(rotation, flip).wf(),
        Orientation::spec_new(rotation, flip).spec_rotation() == rotation,
        Orientation::spec_new(rotation, flip).spec_flip() == flip,
        Orientation::spec_new(rotation, flip).spec_bits() == flip.spec_bits() + 8
            * rotation.spec_index(),
{
    lemma_flip_bits(flip, flip);
    lemma_from_index(rotation.spec_index());
    lemma_index_determines(
        rotation,
        Rotation::spec_from_index(rotation.spec_index()),
    );
}

/// An orientation is made of its rotation and its flip, and of nothing
/// else.
pub proof fn lemma_bits(o: Orientation)
    requires
        o.wf(),
    ensures
        o.spec_rotation().wf(),
        o.spec_bits() == o.spec_flip().spec_bits() + 8 * o.spec_rotation().spec_index(),
        Orientation::spec_new(o.spec_rotation(), o.spec_flip()) == o,
        Orientation::spec_from_bits(o.spec_bits()) == o,
{
    lemma_from_index(o.spec_bits() / 8);
    lemma_flip_bits(o.spec_flip(), o.spec_flip());
}

/// Two orientations with the same rotation and the same flip are the same.
pub proof fn lemma_parts_determine(a: Orientation, b: Orientation)
    requires
        a.wf(),
        b.wf(),
        a.spec_rotation() == b.spec_rotation(),
        a.spec_flip() == b.spec_flip(),
    ensures
        a == b,
{
    lemma_bits(a);
    lemma_bits(b);
}

/// A packed value below 192 gives an orientation, and that value back.
pub proof fn lemma_from_bits(bits: int)
    requires
        0 <= bits < 192,
    ensures
        Orientation::spec_from_bits(bits).spec_bits() == bits,
        Orientation::spec_from_bits(bits).wf(),
{
}

} // verus!
