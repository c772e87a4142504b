//! The action of a turned cube on its faces, given by where the top goes
//! and by an angle.

use vstd::prelude::*;

use crate::direction::Direction;
use crate::direction::Direction::{NegX, NegY, NegZ, PosX, PosY, PosZ};
use crate::flip::Flip;

verus! {

/// Where the face `d` ends up when the cube's top is turned to `up` and
/// the cube is then turned about `up` by `angle` quarter turns.
///
/// The top goes to `up` and the bottom opposite to it. The front, the
/// left, the back and the right go to the four neighbours of the `up`
/// face: to its upper, left, lower and right neighbour, each turned on
/// by `angle` places.
#[verifier::opaque]
pub open spec fn spec_frame_reface(up: Direction, angle: int, d: Direction) -> Direction {
    match d {
        NegX => up.spec_left_at_angle(angle),
        NegY => up.spec_invert(),
        NegZ => up.spec_up_at_angle(angle),
        PosX => up.spec_right_at_angle(angle),
        PosY => up,
        PosZ => up.spec_down_at_angle(angle),
    }
}

/// The face that ends up at `d` under the same turn: the direction
/// whose image under `spec_frame_reface` is `d`.
#[verifier::opaque]
pub open spec fn spec_frame_source_face(up: Direction, angle: int, d: Direction) -> Direction {
    if spec_frame_reface(up, angle, PosY) == d {
        PosY
    } else if spec_frame_reface(up, angle, PosX) == d {
        PosX
    } else if spec_frame_reface(up, angle, PosZ) == d {
        PosZ
    } else if spec_frame_reface(up, angle, NegY) == d {
        NegY
    } else if spec_frame_reface(up, angle, NegX) == d {
        NegX
    } else {
        NegZ
    }
}

/// The angle of a frame is the number of quarter turns from the upper
/// neighbour of its up direction to its front.
pub proof fn lemma_frame_angle(up: Direction, angle: int)
    requires
        0 <= angle < 4,
    ensures
        up.spec_angle_to(spec_frame_reface(up, angle, NegZ)) == angle,
        spec_frame_reface(up, angle, PosY) == up,
        up.spec_is_orthogonal_to(spec_frame_reface(up, angle, NegZ)),
{
    reveal(spec_frame_reface);
}

/// Two frames, one after the other, are the frame that `reorient` builds.
pub proof fn lemma_frames_compose(u1: Direction, a1: int, u2: Direction, a2: int, d: Direction)
    requires
        0 <= a1 < 4,
        0 <= a2 < 4,
    ensures
        ({
            let up = spec_frame_reface(u2, a2, u1);
            let forward = spec_frame_reface(
                u2,
                a2,
                spec_frame_reface(u1, a1, NegZ),
            );
            &&& up.spec_is_orthogonal_to(forward)
            &&& spec_frame_reface(up, up.spec_angle_to(forward), d)
                == spec_frame_reface(u2, a2, spec_frame_reface(u1, a1, d))
        }),
{
    reveal(spec_frame_reface);
    if a1 == 0 {
        if a2 == 0 {
        } else if a2 == 1 {
        } else if a2 == 2 {
        } else {
        }
    } else if a1 == 1 {
        if a2 == 0 {
        } else if a2 == 1 {
        } else if a2 == 2 {
        } else {
        }
    } else if a1 == 2 {
        if a2 == 0 {
        } else if a2 == 1 {
        } else if a2 == 2 {
        } else {
        }
    } else {
        if a2 == 0 {
        } else if a2 == 1 {
        } else if a2 == 2 {
        } else {
        }
    }
}

/// The inverse of a frame is the frame whose up direction and front are the
/// sources of `PosY` and `NegZ`.
pub proof fn lemma_frame_inverse(up: Direction, angle: int, d: Direction)
    requires
        0 <= angle < 4,
    ensures
        ({
            let inv_up = spec_frame_source_face(up, angle, PosY);
            let inv_forward = spec_frame_source_face(up, angle, NegZ);
            &&& inv_up.spec_is_orthogonal_to(inv_forward)
            &&& spec_frame_reface(inv_up, inv_up.spec_angle_to(inv_forward), d)
                == spec_frame_source_face(up, angle, d)
        }),
{
    reveal(spec_frame_reface);
    reveal(spec_frame_source_face);
    if angle == 0 {
    } else if angle == 1 {
    } else if angle == 2 {
    } else {
    }
}

/// A frame followed by the inverse of another is the frame that `deorient`
/// builds.
pub proof fn lemma_frames_decompose(u1: Direction, a1: int, u2: Direction, a2: int, d: Direction)
    requires
        0 <= a1 < 4,
        0 <= a2 < 4,
    ensures
        ({
            let up = spec_frame_source_face(u2, a2, u1);
            let forward = spec_frame_source_face(
                u2,
                a2,
                spec_frame_reface(u1, a1, NegZ),
            );
            &&& up.spec_is_orthogonal_to(forward)
            &&& spec_frame_reface(up, up.spec_angle_to(forward), d)
                == spec_frame_source_face(
                u2,
                a2,
                spec_frame_reface(u1, a1, d),
            )
        }),
{
    let inv_up = spec_frame_source_face(u2, a2, PosY);
    let inv_forward = spec_frame_source_face(u2, a2, NegZ);
    let inv_angle = inv_up.spec_angle_to(inv_forward);
    lemma_frame_inverse(u2, a2, u1);
    lemma_frame_inverse(u2, a2, spec_frame_reface(u1, a1, NegZ));
    lemma_frame_inverse(u2, a2, spec_frame_reface(u1, a1, d));
    lemma_frames_compose(u1, a1, inv_up, inv_angle, d);
}

/// Taking the source of a face and sending it on, or the other way round,
/// gives the face back.
pub proof fn lemma_frame_round_trip(up: Direction, angle: int, d: Direction)
    requires
        0 <= angle < 4,
    ensures
        spec_frame_source_face(up, angle, spec_frame_reface(up, angle, d)) == d,
        spec_frame_reface(up, angle, spec_frame_source_face(up, angle, d)) == d,
{
    reveal(spec_frame_reface);
    reveal(spec_frame_source_face);
    if angle == 0 {
    } else if angle == 1 {
    } else if angle == 2 {
    } else {
    }
}

/// A turn between two reflections by the same flip is again a turn: the
/// one whose up direction and front are what the three steps make of
/// `PosY` and `NegZ`.
pub proof fn lemma_frame_conjugate(up: Direction, angle: int, flip: Flip, d: Direction)
    requires
        0 <= angle < 4,
    ensures
        ({
            let c_up = spec_frame_reface(up, angle, PosY.spec_flip(flip)).spec_flip(flip);
            let c_forward = spec_frame_reface(up, angle, NegZ.spec_flip(flip)).spec_flip(flip);
            &&& c_up.spec_is_orthogonal_to(c_forward)
            &&& spec_frame_reface(c_up, c_up.spec_angle_to(c_forward), d) == spec_frame_reface(
                up,
                angle,
                d.spec_flip(flip),
            ).spec_flip(flip)
        }),
{
    reveal(spec_frame_reface);
    if angle == 0 {
    } else if angle == 1 {
    } else if angle == 2 {
    } else {
    }
}

/// A turn that does to every face what a flip does to it can only belong
/// to a flip of two axes or of none.
pub proof fn lemma_frame_is_flip(up: Direction, angle: int, flip: Flip)
    requires
        0 <= angle < 4,
        forall|d: Direction| spec_frame_reface(up, angle, d) == d.spec_flip(flip),
    ensures
        !flip.spec_bits_xor(),
{
    reveal(spec_frame_reface);
    assert(spec_frame_reface(up, angle, PosY) == PosY.spec_flip(flip));
    assert(spec_frame_reface(up, angle, NegZ) == NegZ.spec_flip(flip));
    assert(spec_frame_reface(up, angle, PosX) == PosX.spec_flip(flip));
}

} // verus!
