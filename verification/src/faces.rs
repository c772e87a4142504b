use vstd::prelude::*;

use crate::direction::Direction;

verus! {

/// Where the top, the right side and the front of a cube point: three
/// directions, each orthogonal to the two others.
#[derive(Debug, Clone, Copy, PartialEq, Eq, Hash, Structural)]
pub struct Faces {
    up: Direction,
    right: Direction,
    forward: Direction,
}

impl Faces {
    /// Where the top points.
    pub closed spec fn spec_up(self) -> Direction {
        self.up
    }

    /// Where the right side points.
    pub closed spec fn spec_right(self) -> Direction {
        self.right
    }

    /// Where the front points.
    pub closed spec fn spec_forward(self) -> Direction {
        self.forward
    }

    /// The three directions lie on three different axes.
    #[verifier::type_invariant]
    pub open spec fn wf(self) -> bool {
        &&& self.spec_up().spec_is_orthogonal_to(self.spec_right())
        &&& self.spec_right().spec_is_orthogonal_to(self.spec_forward())
        &&& self.spec_forward().spec_is_orthogonal_to(self.spec_up())
    }

    /// The faces of a cube that has not been turned: the top points to
    /// `PosY`, the right side to `PosX`, the front to `NegZ`.
    pub fn unoriented() -> (res: Faces)
        ensures
            res.spec_up() == Direction::PosY,
            res.spec_right() == Direction::PosX,
            res.spec_forward() == Direction::NegZ,
    {
        Faces { up: Direction::PosY, right: Direction::PosX, forward: Direction::NegZ }
    }

    /// The three directions as faces of a cube, if each is orthogonal to
    /// the two others.
    pub fn new(up: Direction, right: Direction, forward: Direction) -> (res: Option<Faces>)
        ensures
            res.is_some() <==> (up.spec_is_orthogonal_to(right) && right.spec_is_orthogonal_to(
                forward,
            ) && forward.spec_is_orthogonal_to(up)),
            res matches Some(faces) ==> faces.spec_up() == up && faces.spec_right() == right
                && faces.spec_forward() == forward,
    {
        let distinct = up.is_orthogonal_to(right) && right.is_orthogonal_to(forward);
        if distinct && forward.is_orthogonal_to(up) {
            Some(Faces { up, right, forward })
        } else {
            None
        }
    }

    /// Where the top points.
    #[inline(always)]
    pub fn up(self) -> (res: Direction)
        ensures
            res == self.spec_up(),
    {
        self.up
    }

    /// Where the right side points.
    #[inline(always)]
    pub fn right(self) -> (res: Direction)
        ensures
            res == self.spec_right(),
    {
        self.right
    }

    /// Where the front points.
    #[inline(always)]
    pub fn forward(self) -> (res: Direction)
        ensures
            res == self.spec_forward(),
    {
        self.forward
    }

    /// Where the bottom points: opposite to the top.
    #[inline(always)]
    pub fn down(self) -> (res: Direction)
        ensures
            res == self.spec_up().spec_invert(),
    {
        self.up.invert()
    }

    /// Where the left side points: opposite to the right side.
    #[inline(always)]
    pub fn left(self) -> (res: Direction)
        ensures
            res == self.spec_right().spec_invert(),
    {
        self.right.invert()
    }

    /// Where the back points: opposite to the front.
    #[inline(always)]
    pub fn backward(self) -> (res: Direction)
        ensures
            res == self.spec_forward().spec_invert(),
    {
        self.forward.invert()
    }
}

} // verus!
