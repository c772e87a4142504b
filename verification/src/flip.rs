use vstd::prelude::*;
use vstd::string::StringExecFns;

use crate::axis::Axis;
use crate::coord::{spec_negatable, spec_values, SignedCoord};
use crate::direction::Direction;

verus! {

/// A reflection of the cube across any of its three coordinate axes: a set
/// of axes.
///
/// Composition is the symmetric difference of the sets, so the eight flips
/// form a group in which every element is its own inverse. The packed value
/// of a flip is a byte from 0 to 7 with bit 0 for X, bit 1 for Y and bit 2
/// for Z.
#[derive(Debug, Clone, Copy, PartialEq, Eq, Hash, Structural)]
pub enum Flip {
    /// No axis: the identity of the group.
    NONE,
    /// The X axis.
    X,
    /// The Y axis.
    Y,
    /// The X and Y axes.
    XY,
    /// The Z axis.
    Z,
    /// The X and Z axes.
    XZ,
    /// The Y and Z axes.
    YZ,
    /// All three axes.
    XYZ,
}

impl Flip {
    /// All three axes.
    pub const ALL: Flip = Flip::XYZ;

    /// The packed value: X counts 1, Y counts 2, Z counts 4.
    pub open spec fn spec_bits(self) -> int {
        match self {
            Flip::NONE => 0,
            Flip::X => 1,
            Flip::Y => 2,
            Flip::XY => 3,
            Flip::Z => 4,
            Flip::XZ => 5,
            Flip::YZ => 6,
            Flip::XYZ => 7,
        }
    }

    /// The flip with the packed value `bits`, where `bits` is from 0 to 7.
    pub open spec fn spec_from_bits(bits: int) -> Flip {
        if bits == 0 {
            Flip::NONE
        } else if bits == 1 {
            Flip::X
        } else if bits == 2 {
            Flip::Y
        } else if bits == 3 {
            Flip::XY
        } else if bits == 4 {
            Flip::Z
        } else if bits == 5 {
            Flip::XZ
        } else if bits == 6 {
            Flip::YZ
        } else {
            Flip::XYZ
        }
    }

    /// Whether the X axis is reflected.
    pub open spec fn spec_x(self) -> bool {
        self == Flip::X || self == Flip::XY || self == Flip::XZ || self == Flip::XYZ
    }

    /// Whether the Y axis is reflected.
    pub open spec fn spec_y(self) -> bool {
        self == Flip::Y || self == Flip::XY || self == Flip::YZ || self == Flip::XYZ
    }

    /// Whether the Z axis is reflected.
    pub open spec fn spec_z(self) -> bool {
        self == Flip::Z || self == Flip::XZ || self == Flip::YZ || self == Flip::XYZ
    }

    /// Whether `axis` is reflected.
    pub open spec fn spec_flips(self, axis: Axis) -> bool {
        match axis {
            Axis::X => self.spec_x(),
            Axis::Y => self.spec_y(),
            Axis::Z => self.spec_z(),
        }
    }

    /// The flip that reflects exactly the axes given as `true`.
    pub open spec fn spec_new(x: bool, y: bool, z: bool) -> Flip {
        if z {
            if y {
                if x {
                    Flip::XYZ
                } else {
                    Flip::YZ
                }
            } else {
                if x {
                    Flip::XZ
                } else {
                    Flip::Z
                }
            }
        } else {
            if y {
                if x {
                    Flip::XY
                } else {
                    Flip::Y
                }
            } else {
                if x {
                    Flip::X
                } else {
                    Flip::NONE
                }
            }
        }
    }

    /// Composition of two flips: an axis is reflected when exactly one of
    /// the two reflects it.
    pub open spec fn spec_flip(self, other: Flip) -> Flip {
        Self::spec_new(
            self.spec_x() != other.spec_x(),
            self.spec_y() != other.spec_y(),
            self.spec_z() != other.spec_z(),
        )
    }

    /// The flip that reflects exactly the axes that `self` leaves alone.
    pub open spec fn spec_invert(self) -> Flip {
        self.spec_flip(Flip::XYZ)
    }

    /// Whether an odd number of axes is reflected, that is, whether the
    /// flip turns a right-handed frame into a left-handed one.
    pub open spec fn spec_bits_xor(self) -> bool {
        (self.spec_x() != self.spec_y()) != self.spec_z()
    }

    /// Whether every axis that `mask` reflects is reflected by `self` too.
    pub open spec fn spec_contains(self, mask: Flip) -> bool {
        &&& mask.spec_x() ==> self.spec_x()
        &&& mask.spec_y() ==> self.spec_y()
        &&& mask.spec_z() ==> self.spec_z()
    }

    /// `self` with the axes of `mask` all set to `value`.
    pub open spec fn spec_with(self, mask: Flip, value: bool) -> Flip {
        Self::spec_new(
            if mask.spec_x() { value } else { self.spec_x() },
            if mask.spec_y() { value } else { self.spec_y() },
            if mask.spec_z() { value } else { self.spec_z() },
        )
    }

    /// The axes that both flips reflect.
    pub open spec fn spec_and(self, other: Flip) -> Flip {
        Self::spec_new(
            self.spec_x() && other.spec_x(),
            self.spec_y() && other.spec_y(),
            self.spec_z() && other.spec_z(),
        )
    }

    /// The axes that at least one of the two flips reflects.
    pub open spec fn spec_or(self, other: Flip) -> Flip {
        Self::spec_new(
            self.spec_x() || other.spec_x(),
            self.spec_y() || other.spec_y(),
            self.spec_z() || other.spec_z(),
        )
    }

    /// The flip that reflects the axes given as `true`.
    #[inline]
    pub fn new(x: bool, y: bool, z: bool) -> (res: Flip)
        ensures
            res == Self::spec_new(x, y, z),
            res.spec_x() == x,
            res.spec_y() == y,
            res.spec_z() == z,
    {
        let bx: u8 = if x { 1 } else { 0 };
        let by: u8 = if y { 2 } else { 0 };
        let bz: u8 = if z { 4 } else { 0 };
        assert(bx <= 1 && (by == 0 || by == 2) && (bz == 0 || bz == 4) ==> (bx | by | bz) == bx + by
            + bz) by (bit_vector);
        Self::from_u8_unchecked(bx | by | bz)
    }

    /// The flip with the packed value `bits`, which must be at most 7.
    #[inline]
    pub fn from_u8_unchecked(bits: u8) -> (res: Flip)
        requires
            bits <= 7,
        ensures
            res == Self::spec_from_bits(bits as int),
            res.spec_bits() == bits,
    {
        match bits {
            0 => Flip::NONE,
            1 => Flip::X,
            2 => Flip::Y,
            3 => Flip::XY,
            4 => Flip::Z,
            5 => Flip::XZ,
            6 => Flip::YZ,
            _ => Flip::XYZ,
        }
    }

    /// The flip with the packed value `bits`, if `bits` is at most 7.
    #[inline]
    pub fn from_u8(bits: u8) -> (res: Option<Flip>)
        ensures
            bits <= 7 <==> res.is_some(),
            res matches Some(f) ==> f.spec_bits() == bits,
    {
        if bits > 7 {
            return None;
        }
        Some(Self::from_u8_unchecked(bits))
    }

    /// The flip held in the three low bits of `bits`.
    #[inline]
    pub fn from_u8_wrapping(bits: u8) -> (res: Flip)
        ensures
            res.spec_bits() == bits % 8,
    {
        assert(bits & 7 == bits % 8) by (bit_vector);
        Self::from_u8_unchecked(bits & 7)
    }

    /// The packed value: bit 0 says whether X is reflected, bit 1 whether Y
    /// is, bit 2 whether Z is.
    #[inline]
    pub fn to_u8(self) -> (res: u8)
        ensures
            res == self.spec_bits(),
            res as int == (if self.spec_x() { 1int } else { 0 })
                + (if self.spec_y() { 2int } else { 0 })
                + (if self.spec_z() { 4int } else { 0 }),
            res <= 7,
    {
        match self {
            Flip::NONE => 0,
            Flip::X => 1,
            Flip::Y => 2,
            Flip::XY => 3,
            Flip::Z => 4,
            Flip::XZ => 5,
            Flip::YZ => 6,
            Flip::XYZ => 7,
        }
    }

    /// Whether every axis of `mask` is reflected.
    #[inline]
    pub fn contains(self, mask: Flip) -> (res: bool)
        ensures
            res == self.spec_contains(mask),
    {
        let a = self.to_u8();
        let m = mask.to_u8();
        proof {
            lemma_mask_bits(a, m);
        }
        a & m == m
    }

    /// `self` with every axis of `mask` reflected if `value` is `true`, and
    /// left alone if it is `false`.
    #[inline]
    pub fn with(self, mask: Flip, value: bool) -> (res: Flip)
        ensures
            res == self.spec_with(mask, value),
    {
        let a = self.to_u8();
        let m = mask.to_u8();
        proof {
            lemma_mask_bits(a, m);
        }
        if value {
            Self::from_u8_unchecked(a | m)
        } else {
            Self::from_u8_unchecked(a & (m ^ 7))
        }
    }

    /// Compose with `flip`: the axes that exactly one of the two reflects.
    #[inline]
    pub fn flip(self, flip: Flip) -> (res: Flip)
        ensures
            res == self.spec_flip(flip),
            res.spec_x() == (self.spec_x() != flip.spec_x()),
            res.spec_y() == (self.spec_y() != flip.spec_y()),
            res.spec_z() == (self.spec_z() != flip.spec_z()),
    {
        let a = self.to_u8();
        let m = flip.to_u8();
        proof {
            lemma_mask_bits(a, m);
        }
        Self::from_u8_unchecked(a ^ m)
    }

    /// The axes that `self` does not reflect.
    #[inline]
    pub fn invert(self) -> (res: Flip)
        ensures
            res == self.spec_invert(),
            res.spec_x() == !self.spec_x(),
            res.spec_y() == !self.spec_y(),
            res.spec_z() == !self.spec_z(),
    {
        self.flip(Flip::XYZ)
    }

    /// The axes that both reflect.
    #[inline]
    pub fn and(self, other: Flip) -> (res: Flip)
        ensures
            res == self.spec_and(other),
    {
        let a = self.to_u8();
        let m = other.to_u8();
        proof {
            lemma_mask_bits(a, m);
        }
        Self::from_u8_unchecked(a & m)
    }

    /// The axes that at least one of the two reflects.
    #[inline]
    pub fn or(self, other: Flip) -> (res: Flip)
        ensures
            res == self.spec_or(other),
    {
        let a = self.to_u8();
        let m = other.to_u8();
        proof {
            lemma_mask_bits(a, m);
        }
        Self::from_u8_unchecked(a | m)
    }

    /// The exclusive or of the three axis bits: whether the flip reverses
    /// handedness.
    pub fn bits_xor(self) -> (res: bool)
        ensures
            res == self.spec_bits_xor(),
    {
        self.x() ^ self.y() ^ self.z()
    }

    /// Whether `face` lies on an axis that is reflected.
    pub fn is_flipped(self, face: Direction) -> (res: bool)
        ensures
            res == self.spec_flips(face.spec_axis()),
    {
        match face.axis() {
            Axis::X => self.x(),
            Axis::Y => self.y(),
            Axis::Z => self.z(),
        }
    }

    /// The eight flips by rising packed value.
    #[inline]
    pub fn iter() -> (res: [Flip; 8])
        ensures
            res@.len() == 8,
            forall|i: int| 0 <= i < 8 ==> (#[trigger] res@[i]).spec_bits() == i,
    {
        [Flip::NONE, Flip::X, Flip::Y, Flip::XY, Flip::Z, Flip::XZ, Flip::YZ, Flip::XYZ]
    }

    /// Where the point `point` ends up: the coordinate on every reflected
    /// axis changes its sign.
    pub open spec fn spec_flip_coord(self, point: (int, int, int)) -> (int, int, int) {
        (
            if self.spec_x() {
                -point.0
            } else {
                point.0
            },
            if self.spec_y() {
                -point.1
            } else {
                point.1
            },
            if self.spec_z() {
                -point.2
            } else {
                point.2
            },
        )
    }

    /// Whether the image of `point` can be held in `T`: no coordinate on a
    /// reflected axis is the least value of `T`.
    pub open spec fn spec_can_flip_coord<T: SignedCoord>(self, point: (T, T, T)) -> bool {
        &&& self.spec_x() ==> spec_negatable(point.0)
        &&& self.spec_y() ==> spec_negatable(point.1)
        &&& self.spec_z() ==> spec_negatable(point.2)
    }

    /// Reflect a point: negate its coordinate on every reflected axis.
    pub fn flip_coord<T: SignedCoord>(self, value: (T, T, T)) -> (res: (T, T, T))
        requires
            self.spec_can_flip_coord(value),
        ensures
            spec_values(res) == self.spec_flip_coord(spec_values(value)),
            !self.spec_x() ==> res.0 == value.0,
            !self.spec_y() ==> res.1 == value.1,
            !self.spec_z() ==> res.2 == value.2,
    {
        let (mut x, mut y, mut z) = value;
        if self.x() {
            x = x.negated();
        }
        if self.y() {
            y = y.negated();
        }
        if self.z() {
            z = z.negated();
        }
        (x, y, z)
    }

    /// The flip as text: `Flip(` and `)` around the letters of the
    /// reflected axes. A bar stands after `X` where another letter follows
    /// it; `Y` and `Z` stand side by side.
    pub open spec fn spec_text(self) -> Seq<char> {
        match self {
            Flip::NONE => "Flip()"@,
            Flip::X => "Flip(X)"@,
            Flip::Y => "Flip(Y)"@,
            Flip::XY => "Flip(X|Y)"@,
            Flip::Z => "Flip(Z)"@,
            Flip::XZ => "Flip(X|Z)"@,
            Flip::YZ => "Flip(YZ)"@,
            Flip::XYZ => "Flip(X|Y|Z)"@,
        }
    }

    /// The flip as text, such as `Flip(X|Z)`.
    pub fn to_text(self) -> (res: String)
        ensures
            res@ == self.spec_text(),
    {
        let mut text = String::from_str("Flip(");
        let sep = self.x();
        if sep {
            text.append("X");
        }
        if self.y() {
            if sep {
                text.append("|");
            }
            text.append("Y");
        }
        if self.z() {
            if sep {
                text.append("|");
            }
            text.append("Z");
        }
        text.append(")");
        proof {
            reveal_strlit("Flip(");
            reveal_strlit("X");
            reveal_strlit("Y");
            reveal_strlit("Z");
            reveal_strlit("|");
            reveal_strlit(")");
            reveal_strlit("Flip()");
            reveal_strlit("Flip(X)");
            reveal_strlit("Flip(Y)");
            reveal_strlit("Flip(X|Y)");
            reveal_strlit("Flip(Z)");
            reveal_strlit("Flip(X|Z)");
            reveal_strlit("Flip(YZ)");
            reveal_strlit("Flip(X|Y|Z)");
            assert(text@ =~= self.spec_text());
        }
        text
    }

    /// Reflect X if `value` is `true`, and stop reflecting it if it is
    /// `false`. Returns whether X was reflected before.
    #[inline]
    pub fn set_x(&mut self, value: bool) -> (res: bool)
        ensures
            res == old(self).spec_contains(Flip::X),
            *final(self) == old(self).spec_with(Flip::X, value),
    {
        let before = self.contains(Flip::X);
        *self = self.with(Flip::X, value);
        before
    }

    /// `self` with X reflected if `value` is `true`, and not reflected if
    /// it is `false`.
    #[inline]
    pub fn with_x(self, value: bool) -> (res: Flip)
        ensures
            res == self.spec_with(Flip::X, value),
    {
        self.with(Flip::X, value)
    }

    /// `self` composed with the reflection of X.
    #[inline]
    pub fn flip_x(self) -> (res: Flip)
        ensures
            res == self.spec_flip(Flip::X),
    {
        self.flip(Flip::X)
    }

    /// Whether X and Y are all reflected.
    #[inline]
    pub fn xy(self) -> (res: bool)
        ensures
            res == self.spec_contains(Flip::XY),
    {
        self.contains(Flip::XY)
    }

    /// Reflect X and Y if `value` is `true`, and stop reflecting them if it is
    /// `false`. Returns whether X and Y were all reflected before.
    #[inline]
    pub fn set_xy(&mut self, value: bool) -> (res: bool)
        ensures
            res == old(self).spec_contains(Flip::XY),
            *final(self) == old(self).spec_with(Flip::XY, value),
    {
        let before = self.contains(Flip::XY);
        *self = self.with(Flip::XY, value);
        before
    }

    /// `self` with X and Y reflected if `value` is `true`, and not reflected if
    /// it is `false`.
    #[inline]
    pub fn with_xy(self, value: bool) -> (res: Flip)
        ensures
            res == self.spec_with(Flip::XY, value),
    {
        self.with(Flip::XY, value)
    }

    /// `self` composed with the reflection of X and Y.
    #[inline]
    pub fn flip_xy(self) -> (res: Flip)
        ensures
            res == self.spec_flip(Flip::XY),
    {
        self.flip(Flip::XY)
    }

    /// Whether X and Z are all reflected.
    #[inline]
    pub fn xz(self) -> (res: bool)
        ensures
            res == self.spec_contains(Flip::XZ),
    {
        self.contains(Flip::XZ)
    }

    /// Reflect X and Z if `value` is `true`, and stop reflecting them if it is
    /// `false`. Returns whether X and Z were all reflected before.
    #[inline]
    pub fn set_xz(&mut self, value: bool) -> (res: bool)
        ensures
            res == old(self).spec_contains(Flip::XZ),
            *final(self) == old(self).spec_with(Flip::XZ, value),
    {
        let before = self.contains(Flip::XZ);
        *self = self.with(Flip::XZ, value);
        before
    }

    /// `self` with X and Z reflected if `value` is `true`, and not reflected if
    /// it is `false`.
    #[inline]
    pub fn with_xz(self, value: bool) -> (res: Flip)
        ensures
            res == self.spec_with(Flip::XZ, value),
    {
        self.with(Flip::XZ, value)
    }

    /// `self` composed with the reflection of X and Z.
    #[inline]
    pub fn flip_xz(self) -> (res: Flip)
        ensures
            res == self.spec_flip(Flip::XZ),
    {
        self.flip(Flip::XZ)
    }

    /// Reflect Y if `value` is `true`, and stop reflecting it if it is
    /// `false`. Returns whether Y was reflected before.
    #[inline]
    pub fn set_y(&mut self, value: bool) -> (res: bool)
        ensures
            res == old(self).spec_contains(Flip::Y),
            *final(self) == old(self).spec_with(Flip::Y, value),
    {
        let before = self.contains(Flip::Y);
        *self = self.with(Flip::Y, value);
        before
    }

    /// `self` with Y reflected if `value` is `true`, and not reflected if
    /// it is `false`.
    #[inline]
    pub fn with_y(self, value: bool) -> (res: Flip)
        ensures
            res == self.spec_with(Flip::Y, value),
    {
        self.with(Flip::Y, value)
    }

    /// `self` composed with the reflection of Y.
    #[inline]
    pub fn flip_y(self) -> (res: Flip)
        ensures
            res == self.spec_flip(Flip::Y),
    {
        self.flip(Flip::Y)
    }

    /// Whether Y and Z are all reflected.
    #[inline]
    pub fn yz(self) -> (res: bool)
        ensures
            res == self.spec_contains(Flip::YZ),
    {
        self.contains(Flip::YZ)
    }

    /// Reflect Y and Z if `value` is `true`, and stop reflecting them if it is
    /// `false`. Returns whether Y and Z were all reflected before.
    #[inline]
    pub fn set_yz(&mut self, value: bool) -> (res: bool)
        ensures
            res == old(self).spec_contains(Flip::YZ),
            *final(self) == old(self).spec_with(Flip::YZ, value),
    {
        let before = self.contains(Flip::YZ);
        *self = self.with(Flip::YZ, value);
        before
    }

    /// `self` with Y and Z reflected if `value` is `true`, and not reflected if
    /// it is `false`.
    #[inline]
    pub fn with_yz(self, value: bool) -> (res: Flip)
        ensures
            res == self.spec_with(Flip::YZ, value),
    {
        self.with(Flip::YZ, value)
    }

    /// `self` composed with the reflection of Y and Z.
    #[inline]
    pub fn flip_yz(self) -> (res: Flip)
        ensures
            res == self.spec_flip(Flip::YZ),
    {
        self.flip(Flip::YZ)
    }

    /// Reflect Z if `value` is `true`, and stop reflecting it if it is
    /// `false`. Returns whether Z was reflected before.
    #[inline]
    pub fn set_z(&mut self, value: bool) -> (res: bool)
        ensures
            res == old(self).spec_contains(Flip::Z),
            *final(self) == old(self).spec_with(Flip::Z, value),
    {
        let before = self.contains(Flip::Z);
        *self = self.with(Flip::Z, value);
        before
    }

    /// `self` with Z reflected if `value` is `true`, and not reflected if
    /// it is `false`.
    #[inline]
    pub fn with_z(self, value: bool) -> (res: Flip)
        ensures
            res == self.spec_with(Flip::Z, value),
    {
        self.with(Flip::Z, value)
    }

    /// `self` composed with the reflection of Z.
    #[inline]
    pub fn flip_z(self) -> (res: Flip)
        ensures
            res == self.spec_flip(Flip::Z),
    {
        self.flip(Flip::Z)
    }

    /// Whether X, Y and Z are all reflected.
    #[inline]
    pub fn xyz(self) -> (res: bool)
        ensures
            res == self.spec_contains(Flip::XYZ),
    {
        self.contains(Flip::XYZ)
    }

    /// Reflect X, Y and Z if `value` is `true`, and stop reflecting them if it is
    /// `false`. Returns whether X, Y and Z were all reflected before.
    #[inline]
    pub fn set_xyz(&mut self, value: bool) -> (res: bool)
        ensures
            res == old(self).spec_contains(Flip::XYZ),
            *final(self) == old(self).spec_with(Flip::XYZ, value),
    {
        let before = self.contains(Flip::XYZ);
        *self = self.with(Flip::XYZ, value);
        before
    }

    /// `self` with X, Y and Z reflected if `value` is `true`, and not reflected if
    /// it is `false`.
    #[inline]
    pub fn with_xyz(self, value: bool) -> (res: Flip)
        ensures
            res == self.spec_with(Flip::XYZ, value),
    {
        self.with(Flip::XYZ, value)
    }

    /// `self` composed with the reflection of X, Y and Z.
    #[inline]
    pub fn flip_xyz(self) -> (res: Flip)
        ensures
            res == self.spec_flip(Flip::XYZ),
    {
        self.flip(Flip::XYZ)
    }

    /// Whether X is reflected.
    #[inline]
    pub fn x(self) -> (res: bool)
        ensures
            res == self.spec_x(),
    {
        self.contains(Flip::X)
    }

    /// Whether Y is reflected.
    #[inline]
    pub fn y(self) -> (res: bool)
        ensures
            res == self.spec_y(),
    {
        self.contains(Flip::Y)
    }

    /// Whether Z is reflected.
    #[inline]
    pub fn z(self) -> (res: bool)
        ensures
            res == self.spec_z(),
    {
        self.contains(Flip::Z)
    }
}

impl Default for Flip {
    fn default() -> (res: Flip)
        ensures
            res == Flip::NONE,
    {
        Flip::NONE
    }
}

impl core::ops::BitOr for Flip {
    type Output = Flip;

    /// The axes that at least one of the two reflects.
    #[inline]
    fn bitor(self, rhs: Flip) -> (res: Flip) {
        self.or(rhs)
    }
}

impl vstd::std_specs::ops::BitOrSpecImpl for Flip {
    open spec fn obeys_bitor_spec() -> bool {
        true
    }

    open spec fn bitor_req(self, rhs: Flip) -> bool {
        true
    }

    open spec fn bitor_spec(self, rhs: Flip) -> Flip {
        self.spec_or(rhs)
    }
}

impl core::ops::BitAnd for Flip {
    type Output = Flip;

    /// The axes that both reflect.
    #[inline]
    fn bitand(self, rhs: Flip) -> (res: Flip) {
        self.and(rhs)
    }
}

impl vstd::std_specs::ops::BitAndSpecImpl for Flip {
    open spec fn obeys_bitand_spec() -> bool {
        true
    }

    open spec fn bitand_req(self, rhs: Flip) -> bool {
        true
    }

    open spec fn bitand_spec(self, rhs: Flip) -> Flip {
        self.spec_and(rhs)
    }
}

impl core::ops::Add for Flip {
    type Output = Flip;

    /// The axes that at least one of the two reflects.
    #[inline]
    fn add(self, rhs: Flip) -> (res: Flip) {
        self.or(rhs)
    }
}

impl vstd::std_specs::ops::AddSpecImpl for Flip {
    open spec fn obeys_add_spec() -> bool {
        true
    }

    open spec fn add_req(self, rhs: Flip) -> bool {
        true
    }

    open spec fn add_spec(self, rhs: Flip) -> Flip {
        self.spec_or(rhs)
    }
}

impl core::ops::Sub for Flip {
    type Output = Flip;

    /// The axes that `self` reflects and `rhs` does not.
    #[inline]
    fn sub(self, rhs: Flip) -> (res: Flip) {
        self.and(rhs.invert())
    }
}

impl vstd::std_specs::ops::SubSpecImpl for Flip {
    open spec fn obeys_sub_spec() -> bool {
        true
    }

    open spec fn sub_req(self, rhs: Flip) -> bool {
        true
    }

    open spec fn sub_spec(self, rhs: Flip) -> Flip {
        self.spec_and(rhs.spec_invert())
    }
}

impl core::ops::Not for Flip {
    type Output = Flip;

    /// The axes that `self` does not reflect.
    #[inline]
    fn not(self) -> (res: Flip) {
        self.invert()
    }
}

impl vstd::std_specs::ops::NotSpecImpl for Flip {
    open spec fn obeys_not_spec() -> bool {
        true
    }

    open spec fn not_req(self) -> bool {
        true
    }

    open spec fn not_spec(self) -> Flip {
        self.spec_invert()
    }
}

/// What the bitwise operations do to two packed flips, bit by bit.
proof fn lemma_mask_bits(a: u8, m: u8)
    by (bit_vector)
    requires
        a <= 7,
        m <= 7,
    ensures
        (a & m) <= 7,
        (a | m) <= 7,
        (a ^ m) <= 7,
        (a & (m ^ 7)) <= 7,
        ((a & m) == m) == ({
            &&& m % 2 == 1 ==> a % 2 == 1
            &&& (m / 2) % 2 == 1 ==> (a / 2) % 2 == 1
            &&& (m / 4) % 2 == 1 ==> (a / 4) % 2 == 1
        }),
        ((a & m) % 2 == 1) == (a % 2 == 1 && m % 2 == 1),
        (((a & m) / 2) % 2 == 1) == ((a / 2) % 2 == 1 && (m / 2) % 2 == 1),
        (((a & m) / 4) % 2 == 1) == ((a / 4) % 2 == 1 && (m / 4) % 2 == 1),
        ((a | m) % 2 == 1) == (a % 2 == 1 || m % 2 == 1),
        (((a | m) / 2) % 2 == 1) == ((a / 2) % 2 == 1 || (m / 2) % 2 == 1),
        (((a | m) / 4) % 2 == 1) == ((a / 4) % 2 == 1 || (m / 4) % 2 == 1),
        ((a ^ m) % 2 == 1) == ((a % 2 == 1) != (m % 2 == 1)),
        (((a ^ m) / 2) % 2 == 1) == (((a / 2) % 2 == 1) != ((m / 2) % 2 == 1)),
        (((a ^ m) / 4) % 2 == 1) == (((a / 4) % 2 == 1) != ((m / 4) % 2 == 1)),
        ((a & (m ^ 7)) % 2 == 1) == (a % 2 == 1 && !(m % 2 == 1)),
        (((a & (m ^ 7)) / 2) % 2 == 1) == ((a / 2) % 2 == 1 && !((m / 2) % 2 == 1)),
        (((a & (m ^ 7)) / 4) % 2 == 1) == ((a / 4) % 2 == 1 && !((m / 4) % 2 == 1)),
{
}

/// A flip is made of its three axis bits, and of nothing else. In the
/// packed value bit 0 stands for X, bit 1 for Y and bit 2 for Z.
pub proof fn lemma_flip_bits(a: Flip, b: Flip)
    ensures
        0 <= a.spec_bits() < 8,
        a.spec_bits() == (if a.spec_x() { 1int } else { 0 }) + (if a.spec_y() { 2int } else { 0 })
            + (if a.spec_z() { 4int } else { 0 }),
        a.spec_x() == (a.spec_bits() % 2 == 1),
        a.spec_y() == ((a.spec_bits() / 2) % 2 == 1),
        a.spec_z() == ((a.spec_bits() / 4) % 2 == 1),
        Flip::spec_from_bits(a.spec_bits()) == a,
        Flip::spec_new(a.spec_x(), a.spec_y(), a.spec_z()) == a,
        (a.spec_x() == b.spec_x() && a.spec_y() == b.spec_y() && a.spec_z() == b.spec_z()) ==> a
            == b,
        a.spec_bits() == b.spec_bits() ==> a == b,
{
}

/// A composition reflects an axis when exactly one of its parts does.
pub proof fn lemma_flip_axes(a: Flip, b: Flip)
    ensures
        a.spec_flip(b).spec_x() == (a.spec_x() != b.spec_x()),
        a.spec_flip(b).spec_y() == (a.spec_y() != b.spec_y()),
        a.spec_flip(b).spec_z() == (a.spec_z() != b.spec_z()),
{
}

/// Every flip undoes itself: composed with itself it gives the identity.
pub proof fn lemma_flip_self_inverse(a: Flip)
    ensures
        a.spec_flip(a) == Flip::NONE,
        a.spec_flip(Flip::NONE) == a,
        Flip::NONE.spec_flip(a) == a,
{
}

/// The order in which two flips are composed does not matter.
pub proof fn lemma_flip_commutative(a: Flip, b: Flip)
    ensures
        a.spec_flip(b) == b.spec_flip(a),
{
}

/// The way in which three flips are grouped does not matter.
pub proof fn lemma_flip_associative(a: Flip, b: Flip, c: Flip)
    ensures
        a.spec_flip(b).spec_flip(c) == a.spec_flip(b.spec_flip(c)),
{
    lemma_flip_axes(a, b);
    lemma_flip_axes(b, c);
    lemma_flip_axes(a.spec_flip(b), c);
    lemma_flip_axes(a, b.spec_flip(c));
    lemma_flip_bits(a.spec_flip(b).spec_flip(c), a.spec_flip(b.spec_flip(c)));
}

/// Composing with a flip twice gives the first flip back, and a
/// composition reverses handedness exactly when one of its parts does.
pub proof fn lemma_flip_cancel(a: Flip, b: Flip)
    ensures
        a.spec_flip(b).spec_flip(b) == a,
        b.spec_flip(a.spec_flip(b)) == a,
        a.spec_flip(b).spec_bits_xor() == (a.spec_bits_xor() != b.spec_bits_xor()),
{
}

} // verus!
