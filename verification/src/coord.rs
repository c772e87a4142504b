//! Signed numbers as coordinates, and the component of a point along a
//! face normal.

use vstd::prelude::*;

use crate::axis::Axis;
use crate::direction::Direction;
use crate::polarity::Pol;

verus! {

/// A signed machine integer used as a coordinate.
///
/// Reflections and rotations of points only ever move coordinates between
/// axes and negate them, so negation is all that is asked of the type.
pub trait SignedCoord: Copy {
    /// The number that the coordinate stands for.
    spec fn spec_value(self) -> int;

    /// The least number that the type can hold: the one number in it whose
    /// negation it cannot hold.
    spec fn spec_least() -> int;

    /// Two coordinates that stand for the same number are the same.
    proof fn lemma_value_injective(a: Self, b: Self)
        ensures
            a.spec_value() == b.spec_value() ==> a == b,
    ;

    /// The type holds the numbers from the least one up to, but not
    /// including, the negation of the least one.
    proof fn lemma_range(a: Self)
        ensures
            Self::spec_least() <= a.spec_value() < -Self::spec_least(),
    ;

    /// The coordinate with the opposite sign.
    fn negated(self) -> (res: Self)
        requires
            self.spec_value() != Self::spec_least(),
        ensures
            res.spec_value() == -self.spec_value(),
    ;
}

impl SignedCoord for i8 {
    open spec fn spec_value(self) -> int {
        self as int
    }

    open spec fn spec_least() -> int {
        i8::MIN as int
    }

    proof fn lemma_value_injective(a: Self, b: Self) {
    }

    proof fn lemma_range(a: Self) {
    }

    #[inline]
    fn negated(self) -> (res: Self) {
        -self
    }
}

impl SignedCoord for i16 {
    open spec fn spec_value(self) -> int {
        self as int
    }

    open spec fn spec_least() -> int {
        i16::MIN as int
    }

    proof fn lemma_value_injective(a: Self, b: Self) {
    }

    proof fn lemma_range(a: Self) {
    }

    #[inline]
    fn negated(self) -> (res: Self) {
        -self
    }
}

impl SignedCoord for i32 {
    open spec fn spec_value(self) -> int {
        self as int
    }

    open spec fn spec_least() -> int {
        i32::MIN as int
    }

    proof fn lemma_value_injective(a: Self, b: Self) {
    }

    proof fn lemma_range(a: Self) {
    }

    #[inline]
    fn negated(self) -> (res: Self) {
        -self
    }
}

impl SignedCoord for i64 {
    open spec fn spec_value(self) -> int {
        self as int
    }

    open spec fn spec_least() -> int {
        i64::MIN as int
    }

    proof fn lemma_value_injective(a: Self, b: Self) {
    }

    proof fn lemma_range(a: Self) {
    }

    #[inline]
    fn negated(self) -> (res: Self) {
        -self
    }
}

impl SignedCoord for i128 {
    open spec fn spec_value(self) -> int {
        self as int
    }

    open spec fn spec_least() -> int {
        i128::MIN as int
    }

    proof fn lemma_value_injective(a: Self, b: Self) {
    }

    proof fn lemma_range(a: Self) {
    }

    #[inline]
    fn negated(self) -> (res: Self) {
        -self
    }
}

impl SignedCoord for isize {
    open spec fn spec_value(self) -> int {
        self as int
    }

    open spec fn spec_least() -> int {
        isize::MIN as int
    }

    proof fn lemma_value_injective(a: Self, b: Self) {
    }

    proof fn lemma_range(a: Self) {
    }

    #[inline]
    fn negated(self) -> (res: Self) {
        -self
    }
}

/// Whether the negation of `value` can be held in `T`: whether `value` is
/// not the least value of `T`.
pub open spec fn spec_negatable<T: SignedCoord>(value: T) -> bool {
    value.spec_value() != T::spec_least()
}

/// The coordinate of `point` on `axis`.
pub open spec fn spec_pick<T>(point: (T, T, T), axis: Axis) -> T {
    match axis {
        Axis::X => point.0,
        Axis::Y => point.1,
        Axis::Z => point.2,
    }
}

/// The point as a triple of numbers.
pub open spec fn spec_values<T: SignedCoord>(point: (T, T, T)) -> (int, int, int) {
    (point.0.spec_value(), point.1.spec_value(), point.2.spec_value())
}

/// The UV coordinate as a pair of numbers.
pub open spec fn spec_uv_values<T: SignedCoord>(uv: (T, T)) -> (int, int) {
    (uv.0.spec_value(), uv.1.spec_value())
}

/// The component of the point `point` along the face normal `normal`: the
/// coordinate on the normal's axis, negated for a negative normal.
pub open spec fn spec_component(point: (int, int, int), normal: Direction) -> int {
    match normal.spec_polarity() {
        Pol::Neg => -spec_pick(point, normal.spec_axis()),
        Pol::Pos => spec_pick(point, normal.spec_axis()),
    }
}

/// The vector of length `length` along the face normal `normal`.
pub open spec fn spec_along(normal: Direction, length: int) -> (int, int, int) {
    match normal {
        Direction::NegX => (-length, 0, 0),
        Direction::NegY => (0, -length, 0),
        Direction::NegZ => (0, 0, -length),
        Direction::PosX => (length, 0, 0),
        Direction::PosY => (0, length, 0),
        Direction::PosZ => (0, 0, length),
    }
}

/// The sum of two vectors.
pub open spec fn spec_sum(a: (int, int, int), b: (int, int, int)) -> (int, int, int) {
    (a.0 + b.0, a.1 + b.1, a.2 + b.2)
}

/// Whether the component of `point` along `normal` can be held in `T`.
pub open spec fn spec_has_component<T: SignedCoord>(point: (T, T, T), normal: Direction) -> bool {
    normal.spec_polarity() == Pol::Neg ==> spec_negatable(spec_pick(point, normal.spec_axis()))
}

} // verus!
