//! What holds of the rotations: how they compose, and what undoes what.

use vstd::prelude::*;

use crate::coord::spec_component;
use crate::direction::Direction::{NegX, NegY, NegZ, PosX, PosY, PosZ};
use crate::direction::{lemma_neighbours, Direction};
use crate::flip::Flip;
use crate::frame::{
    lemma_frame_angle, lemma_frame_conjugate, lemma_frame_is_flip, lemma_frame_round_trip,
    lemma_frames_compose, lemma_frames_decompose, spec_frame_reface, spec_frame_source_face,
};
use crate::rotation::{lemma_from_index, lemma_new, lemma_up_angle_determine, Rotation};

verus! {

/// Where a rotation sends the top is its up direction; its angle is the
/// number of quarter turns from the upper neighbour of the up direction to
/// the place of the front; the two are orthogonal.
pub proof fn lemma_up_forward(r: Rotation)
    requires
        r.wf(),
    ensures
        r.spec_reface(PosY) == r.spec_up(),
        r.spec_up().spec_angle_to(r.spec_forward()) == r.spec_angle(),
        r.spec_up().spec_is_orthogonal_to(r.spec_forward()),
        Rotation::spec_from_up_and_forward(r.spec_up(), r.spec_forward()) == Some(r),
{
    lemma_frame_angle(r.spec_up(), r.spec_angle());
    lemma_new(r.spec_up(), r.spec_angle());
    lemma_up_angle_determine(r, Rotation::spec_new(r.spec_up(), r.spec_angle()));
}

/// Two rotations that agree on where the top and the front end up are the
/// same rotation.
pub proof fn lemma_up_forward_determine(a: Rotation, b: Rotation)
    requires
        a.wf(),
        b.wf(),
        a.spec_up() == b.spec_up(),
        a.spec_forward() == b.spec_forward(),
    ensures
        a == b,
{
    lemma_up_forward(a);
    lemma_up_forward(b);
}

/// The identity leaves every face where it is.
pub proof fn lemma_unrotated(d: Direction)
    ensures
        Rotation::spec_unrotated().wf(),
        Rotation::spec_unrotated().spec_index() == 0,
        Rotation::spec_unrotated().spec_reface(d) == d,
        Rotation::spec_unrotated().spec_source_face(d) == d,
{
    lemma_new(PosY, 0);
    lemma_from_index(0);
    reveal(spec_frame_reface);
    reveal(spec_frame_source_face);
}

/// What `reorient` computes is the composition of the two rotations.
pub proof fn lemma_reorient(a: Rotation, b: Rotation)
    requires
        a.wf(),
        b.wf(),
    ensures
        b.spec_reface(a.spec_up()).spec_is_orthogonal_to(b.spec_reface(a.spec_forward())),
        Rotation::spec_from_up_and_forward(
            b.spec_reface(a.spec_up()),
            b.spec_reface(a.spec_forward()),
        ) == Some(a.spec_reorient(b)),
        a.spec_reorient(b).wf(),
        forall|d: Direction| #[trigger]
            a.spec_reorient(b).spec_reface(d) == b.spec_reface(a.spec_reface(d)),
{
    let c = a.spec_reorient(b);
    let up = b.spec_reface(a.spec_up());
    let forward = b.spec_reface(a.spec_forward());
    lemma_new(up, up.spec_angle_to(forward));
    lemma_frames_compose(a.spec_up(), a.spec_angle(), b.spec_up(), b.spec_angle(), PosY);
    assert forall|d: Direction| #[trigger] c.spec_reface(d) == b.spec_reface(a.spec_reface(d)) by {
        lemma_frames_compose(a.spec_up(), a.spec_angle(), b.spec_up(), b.spec_angle(), d);
    }
}

/// What `deorient` computes is the composition of the first rotation with
/// the inverse of the second.
pub proof fn lemma_deorient(a: Rotation, b: Rotation)
    requires
        a.wf(),
        b.wf(),
    ensures
        b.spec_source_face(a.spec_up()).spec_is_orthogonal_to(
            b.spec_source_face(a.spec_forward()),
        ),
        Rotation::spec_from_up_and_forward(
            b.spec_source_face(a.spec_up()),
            b.spec_source_face(a.spec_forward()),
        ) == Some(a.spec_deorient(b)),
        a.spec_deorient(b).wf(),
        forall|d: Direction| #[trigger]
            a.spec_deorient(b).spec_reface(d) == b.spec_source_face(a.spec_reface(d)),
{
    let c = a.spec_deorient(b);
    let up = b.spec_source_face(a.spec_up());
    let forward = b.spec_source_face(a.spec_forward());
    lemma_new(up, up.spec_angle_to(forward));
    lemma_frames_decompose(a.spec_up(), a.spec_angle(), b.spec_up(), b.spec_angle(), PosY);
    assert forall|d: Direction| #[trigger]
        c.spec_reface(d) == b.spec_source_face(a.spec_reface(d)) by {
        lemma_frames_decompose(a.spec_up(), a.spec_angle(), b.spec_up(), b.spec_angle(), d);
    }
}

/// The inverse of a rotation sends every face to its source.
pub proof fn lemma_invert(r: Rotation)
    requires
        r.wf(),
    ensures
        r.spec_invert().wf(),
        forall|d: Direction| #[trigger] r.spec_invert().spec_reface(d) == r.spec_source_face(d),
{
    lemma_unrotated(PosY);
    lemma_deorient(Rotation::spec_unrotated(), r);
    assert forall|d: Direction| #[trigger]
        r.spec_invert().spec_reface(d) == r.spec_source_face(d) by {
        lemma_unrotated(d);
    }
}


/// A quarter turn about a face leaves the face where it is and takes each
/// neighbour of the face to the next one, counter-clockwise.
pub proof fn lemma_face_turn(face: Direction)
    ensures
        Rotation::spec_face_turn(face).wf(),
        Rotation::spec_face_turn(face).spec_reface(face) == face,
        Rotation::spec_face_turn(face).spec_reface(face.spec_up()) == face.spec_left(),
        Rotation::spec_face_turn(face).spec_reface(face.spec_left()) == face.spec_down(),
        Rotation::spec_face_turn(face).spec_reface(face.spec_down()) == face.spec_right(),
        Rotation::spec_face_turn(face).spec_reface(face.spec_right()) == face.spec_up(),
{
    lemma_new(PosY, 1);
    lemma_new(PosZ, 0);
    lemma_new(NegX, 1);
    match face {
        PosY | PosX | PosZ => {
            reveal(spec_frame_reface);
        },
        NegY => {
            lemma_invert(Rotation::spec_new(PosY, 1));
            reveal(spec_frame_reface);
            reveal(spec_frame_source_face);
        },
        NegX => {
            lemma_invert(Rotation::spec_new(PosZ, 0));
            reveal(spec_frame_reface);
            reveal(spec_frame_source_face);
        },
        NegZ => {
            lemma_invert(Rotation::spec_new(NegX, 1));
            reveal(spec_frame_reface);
            reveal(spec_frame_source_face);
        },
    }
}

/// A rotation about a face leaves the face where it is and turns its
/// neighbours by the number of places that the angle gives.
pub proof fn lemma_face_rotation(face: Direction, angle: int)
    ensures
        Rotation::spec_face_rotation(face, angle).wf(),
        Rotation::spec_face_rotation(face, angle).spec_reface(face) == face,
        Rotation::spec_face_rotation(face, angle).spec_reface(face.spec_up())
            == face.spec_up_at_angle(angle),
{
    let turn = Rotation::spec_face_turn(face);
    let twice = turn.spec_reorient(turn);
    let thrice = twice.spec_reorient(turn);
    lemma_face_turn(face);
    lemma_reorient(turn, turn);
    lemma_reorient(twice, turn);
    let turns = angle % 4;
    if turns == 0 {
        lemma_unrotated(face);
        lemma_unrotated(face.spec_up());
    } else if turns == 1 {
    } else if turns == 2 {
        assert(twice.spec_reface(face) == turn.spec_reface(turn.spec_reface(face)));
        assert(twice.spec_reface(face.spec_up()) == turn.spec_reface(
            turn.spec_reface(face.spec_up()),
        ));
    } else {
        assert(twice.spec_reface(face) == turn.spec_reface(turn.spec_reface(face)));
        assert(twice.spec_reface(face.spec_up()) == turn.spec_reface(
            turn.spec_reface(face.spec_up()),
        ));
        assert(thrice.spec_reface(face) == turn.spec_reface(twice.spec_reface(face)));
        assert(thrice.spec_reface(face.spec_up()) == turn.spec_reface(
            twice.spec_reface(face.spec_up()),
        ));
    }
}

/// Where a composition of two rotations sends one face.
pub proof fn lemma_reorient_at(a: Rotation, b: Rotation, d: Direction)
    requires
        a.wf(),
        b.wf(),
    ensures
        a.spec_reorient(b).wf(),
        a.spec_reorient(b).spec_reface(d) == b.spec_reface(a.spec_reface(d)),
{
    lemma_reorient(a, b);
}

/// Four quarter turns about a face come back to the identity.
pub proof fn lemma_face_turn_closes(face: Direction)
    ensures
        Rotation::spec_face_turn(face).spec_angles()[3].spec_reorient(
            Rotation::spec_face_turn(face),
        ) == Rotation::spec_unrotated(),
{
    let turn = Rotation::spec_face_turn(face);
    let twice = turn.spec_reorient(turn);
    let thrice = twice.spec_reorient(turn);
    let full = thrice.spec_reorient(turn);
    lemma_face_turn(face);
    lemma_unrotated(PosY);
    lemma_unrotated(NegZ);
    assert forall|d: Direction| #[trigger] full.spec_reface(d) == d by {
        lemma_reorient_at(turn, turn, d);
        lemma_reorient_at(twice, turn, d);
        lemma_reorient_at(thrice, turn, d);
        lemma_neighbours(face, d);
        lemma_reface_invert(turn, face);
    }
    lemma_reorient_at(turn, turn, PosY);
    lemma_reorient_at(twice, turn, PosY);
    lemma_reorient_at(thrice, turn, PosY);
    assert(full.spec_reface(PosY) == PosY);
    assert(full.spec_reface(NegZ) == NegZ);
    lemma_reface_up_forward(full);
    lemma_reface_up_forward(Rotation::spec_unrotated());
    lemma_up_forward_determine(full, Rotation::spec_unrotated());
}

/// Fewer than four quarter turns about a face do not come back to the
/// identity: the upper neighbour of the face is still on its way.
pub proof fn lemma_face_turn_order(face: Direction)
    ensures
        Rotation::spec_face_turn(face).spec_angles()[1] != Rotation::spec_unrotated(),
        Rotation::spec_face_turn(face).spec_angles()[2] != Rotation::spec_unrotated(),
        Rotation::spec_face_turn(face).spec_angles()[3] != Rotation::spec_unrotated(),
{
    let turn = Rotation::spec_face_turn(face);
    let twice = turn.spec_reorient(turn);
    let thrice = twice.spec_reorient(turn);
    let up = face.spec_up();
    lemma_face_turn(face);
    lemma_unrotated(up);
    lemma_reorient_at(turn, turn, up);
    lemma_reorient_at(twice, turn, up);
    assert(turn.spec_reface(up) == face.spec_left());
    assert(twice.spec_reface(up) == face.spec_down());
    assert(thrice.spec_reface(up) == face.spec_right());
}

/// A third of a turn about a corner takes each of the three faces at the
/// corner to the next one: the face on X to the face on Y, that one to the
/// face on Z and that one to the face on X where the corner lies on the
/// negative side of no axis or of two, and the other way round where it
/// lies on the negative side of one axis or of all three.
pub proof fn lemma_corner_turn(x: bool, y: bool, z: bool)
    ensures
        Rotation::spec_corner_turn(x, y, z).wf(),
        ({
            let turn = Rotation::spec_corner_turn(x, y, z);
            let on_x = if x {
                PosX
            } else {
                NegX
            };
            let on_y = if y {
                PosY
            } else {
                NegY
            };
            let on_z = if z {
                PosZ
            } else {
                NegZ
            };
            if (x != y) != z {
                &&& turn.spec_reface(on_x) == on_y
                &&& turn.spec_reface(on_y) == on_z
                &&& turn.spec_reface(on_z) == on_x
            } else {
                &&& turn.spec_reface(on_x) == on_z
                &&& turn.spec_reface(on_z) == on_y
                &&& turn.spec_reface(on_y) == on_x
            }
        }),
{
    lemma_new(PosX, 0);
    lemma_new(PosX, 2);
    lemma_new(PosZ, 1);
    lemma_new(PosZ, 3);
    lemma_new(NegX, 0);
    lemma_new(NegX, 2);
    lemma_new(NegZ, 1);
    lemma_new(NegZ, 3);
    reveal(spec_frame_reface);
}

/// Three thirds of a turn about a corner come back to the identity.
pub proof fn lemma_corner_turn_closes(x: bool, y: bool, z: bool)
    ensures
        Rotation::spec_corner_turn(x, y, z).spec_angles()[2].spec_reorient(
            Rotation::spec_corner_turn(x, y, z),
        ) == Rotation::spec_unrotated(),
{
    let turn = Rotation::spec_corner_turn(x, y, z);
    let twice = turn.spec_reorient(turn);
    let full = twice.spec_reorient(turn);
    lemma_corner_turn(x, y, z);
    lemma_unrotated(PosY);
    lemma_unrotated(NegZ);
    assert forall|d: Direction| #[trigger] full.spec_reface(d) == d by {
        lemma_reorient_at(turn, turn, d);
        lemma_reorient_at(twice, turn, d);
        lemma_reface_invert(turn, PosX);
        lemma_reface_invert(turn, PosY);
        lemma_reface_invert(turn, PosZ);
        lemma_reface_invert(turn, NegX);
        lemma_reface_invert(turn, NegY);
        lemma_reface_invert(turn, NegZ);
    }
    lemma_reorient_at(turn, turn, PosY);
    lemma_reorient_at(twice, turn, PosY);
    assert(full.spec_reface(PosY) == PosY);
    assert(full.spec_reface(NegZ) == NegZ);
    lemma_reface_up_forward(full);
    lemma_reface_up_forward(Rotation::spec_unrotated());
    lemma_up_forward_determine(full, Rotation::spec_unrotated());
}

/// Fewer than three thirds of a turn about a corner do not come back to
/// the identity.
pub proof fn lemma_corner_turn_order(x: bool, y: bool, z: bool)
    ensures
        Rotation::spec_corner_turn(x, y, z).spec_angles()[1] != Rotation::spec_unrotated(),
        Rotation::spec_corner_turn(x, y, z).spec_angles()[2] != Rotation::spec_unrotated(),
{
    let turn = Rotation::spec_corner_turn(x, y, z);
    let on_x = if x {
        PosX
    } else {
        NegX
    };
    lemma_corner_turn(x, y, z);
    lemma_unrotated(on_x);
    lemma_reorient_at(turn, turn, on_x);
}

/// A rotation about a corner takes each face at the corner to a face at
/// the corner.
pub proof fn lemma_corner_rotation_faces(x: int, y: int, z: int, angle: int, face: Direction)
    requires
        Rotation::spec_at_corner(face, x, y, z),
    ensures
        Rotation::spec_corner_rotation(x, y, z, angle).wf(),
        Rotation::spec_at_corner(
            Rotation::spec_corner_rotation(x, y, z, angle).spec_reface(face),
            x,
            y,
            z,
        ),
{
    let turn = Rotation::spec_corner_turn(x > 0, y > 0, z > 0);
    lemma_corner_turn(x > 0, y > 0, z > 0);
    lemma_unrotated(face);
    lemma_reorient_at(turn, turn, face);
}

/// A rotation about a corner is the identity exactly for a number of
/// thirds that is a multiple of three. It leaves the corner where it is
/// and takes each face at the corner to a face at the corner.
pub proof fn lemma_corner_rotation(x: int, y: int, z: int, angle: int)
    ensures
        Rotation::spec_corner_rotation(x, y, z, angle).wf(),
        Rotation::spec_corner_rotation(x, y, z, angle) == Rotation::spec_unrotated() <==> angle % 3
            == 0,
        Rotation::spec_corner_rotation(x, y, z, angle) == Rotation::spec_corner_rotation(
            x,
            y,
            z,
            angle % 3,
        ),
        Rotation::spec_corner_rotation(x, y, z, angle).spec_rotate_coord(
            Rotation::spec_corner(x, y, z),
        ) == Rotation::spec_corner(x, y, z),
        forall|face: Direction|
            Rotation::spec_at_corner(face, x, y, z) ==> Rotation::spec_at_corner(
                #[trigger] Rotation::spec_corner_rotation(x, y, z, angle).spec_reface(face),
                x,
                y,
                z,
            ),
{
    let r = Rotation::spec_corner_rotation(x, y, z, angle);
    let corner = Rotation::spec_corner(x, y, z);
    lemma_corner_turn_order(x > 0, y > 0, z > 0);
    lemma_corner_rotation_faces(x, y, z, angle, if x > 0 {
        PosX
    } else {
        NegX
    });
    assert forall|face: Direction| Rotation::spec_at_corner(face, x, y, z) implies
        Rotation::spec_at_corner(#[trigger] r.spec_reface(face), x, y, z) by {
        lemma_corner_rotation_faces(x, y, z, angle, face);
    }
    // The source of a face lies at the corner exactly if the face does, so
    // the point has the same component along both.
    assert forall|d: Direction|
        spec_component(corner, #[trigger] r.spec_source_face(d)) == spec_component(corner, d) by {
        let s = r.spec_source_face(d);
        lemma_source_face_inverse(r, d);
        lemma_reface_invert(r, s);
        if Rotation::spec_at_corner(s, x, y, z) {
            lemma_corner_rotation_faces(x, y, z, angle, s);
        } else {
            lemma_corner_rotation_faces(x, y, z, angle, s.spec_invert());
        }
    }
    assert(spec_component(corner, r.spec_source_face(PosX)) == spec_component(corner, PosX));
    assert(spec_component(corner, r.spec_source_face(PosY)) == spec_component(corner, PosY));
    assert(spec_component(corner, r.spec_source_face(PosZ)) == spec_component(corner, PosZ));
}

/// A rotation takes opposite faces to opposite faces.
pub proof fn lemma_reface_invert(r: Rotation, d: Direction)
    requires
        r.wf(),
    ensures
        r.spec_reface(d.spec_invert()) == r.spec_reface(d).spec_invert(),
        r.spec_source_face(d.spec_invert()) == r.spec_source_face(d).spec_invert(),
{
    reveal(spec_frame_reface);
    reveal(spec_frame_source_face);
}

/// `spec_up` and `spec_forward` are the images of the top and the front.
pub proof fn lemma_reface_up_forward(r: Rotation)
    requires
        r.wf(),
    ensures
        r.spec_up() == r.spec_reface(PosY),
        r.spec_forward() == r.spec_reface(NegZ),
{
    reveal(spec_frame_reface);
}

/// `source_face` and `reface` undo each other: the face that ends up where
/// `d` ends up is `d`, and the source of `d` ends up at `d`.
pub proof fn lemma_source_face_inverse(r: Rotation, d: Direction)
    requires
        r.wf(),
    ensures
        r.spec_source_face(r.spec_reface(d)) == d,
        r.spec_reface(r.spec_source_face(d)) == d,
{
    lemma_frame_round_trip(r.spec_up(), r.spec_angle(), d);
}

/// A rotation keeps orthogonal faces orthogonal, both ways.
pub proof fn lemma_reface_orthogonal(r: Rotation, a: Direction, b: Direction)
    requires
        r.wf(),
    ensures
        r.spec_reface(a).spec_is_orthogonal_to(r.spec_reface(b)) == a.spec_is_orthogonal_to(b),
        r.spec_source_face(a).spec_is_orthogonal_to(r.spec_source_face(b))
            == a.spec_is_orthogonal_to(b),
{
    reveal(spec_frame_reface);
    reveal(spec_frame_source_face);
}

/// Two rotations that send every face to the same place are the same
/// rotation.
pub proof fn lemma_reface_determines(a: Rotation, b: Rotation)
    requires
        a.wf(),
        b.wf(),
        forall|d: Direction| a.spec_reface(d) == b.spec_reface(d),
    ensures
        a == b,
{
    lemma_reface_up_forward(a);
    lemma_reface_up_forward(b);
    assert(a.spec_reface(PosY) == b.spec_reface(PosY));
    assert(a.spec_reface(NegZ) == b.spec_reface(NegZ));
    lemma_up_forward_determine(a, b);
}

/// Applying a rotation and then taking it away again changes nothing.
pub proof fn lemma_reorient_deorient(a: Rotation, b: Rotation)
    requires
        a.wf(),
        b.wf(),
    ensures
        a.spec_reorient(b).spec_deorient(b) == a,
        a.spec_deorient(b).spec_reorient(b) == a,
{
    let there = a.spec_reorient(b);
    lemma_reorient(a, b);
    lemma_deorient(there, b);
    assert forall|d: Direction| there.spec_deorient(b).spec_reface(d) == a.spec_reface(d) by {
        assert(there.spec_reface(d) == b.spec_reface(a.spec_reface(d)));
        lemma_source_face_inverse(b, a.spec_reface(d));
    }
    lemma_reface_determines(there.spec_deorient(b), a);
    let back = a.spec_deorient(b);
    lemma_deorient(a, b);
    lemma_reorient(back, b);
    assert forall|d: Direction| back.spec_reorient(b).spec_reface(d) == a.spec_reface(d) by {
        assert(back.spec_reface(d) == b.spec_source_face(a.spec_reface(d)));
        lemma_source_face_inverse(b, a.spec_reface(d));
    }
    lemma_reface_determines(back.spec_reorient(b), a);
}

/// A rotation followed by its inverse, and the inverse followed by the
/// rotation, are the identity; the inverse of the inverse is the rotation.
pub proof fn lemma_invert_cancels(r: Rotation)
    requires
        r.wf(),
    ensures
        r.spec_reorient(r.spec_invert()) == Rotation::spec_unrotated(),
        r.spec_invert().spec_reorient(r) == Rotation::spec_unrotated(),
        r.spec_invert().spec_invert() == r,
{
    let inv = r.spec_invert();
    let unrotated = Rotation::spec_unrotated();
    lemma_invert(r);
    lemma_invert(inv);
    lemma_reorient(r, inv);
    lemma_reorient(inv, r);
    lemma_unrotated(PosY);
    assert forall|d: Direction| r.spec_reorient(inv).spec_reface(d) == unrotated.spec_reface(
        d,
    ) by {
        assert(inv.spec_reface(r.spec_reface(d)) == r.spec_source_face(r.spec_reface(d)));
        lemma_source_face_inverse(r, d);
        lemma_unrotated(d);
    }
    lemma_reface_determines(r.spec_reorient(inv), unrotated);
    assert forall|d: Direction| inv.spec_reorient(r).spec_reface(d) == unrotated.spec_reface(
        d,
    ) by {
        assert(inv.spec_reface(d) == r.spec_source_face(d));
        lemma_source_face_inverse(r, d);
        lemma_unrotated(d);
    }
    lemma_reface_determines(inv.spec_reorient(r), unrotated);
    assert forall|d: Direction| inv.spec_invert().spec_reface(d) == r.spec_reface(d) by {
        assert(inv.spec_invert().spec_reface(d) == inv.spec_source_face(d));
        assert(inv.spec_reface(r.spec_reface(d)) == r.spec_source_face(r.spec_reface(d)));
        lemma_source_face_inverse(r, d);
        lemma_source_face_inverse(inv, r.spec_reface(d));
    }
    lemma_reface_determines(inv.spec_invert(), r);
}

/// The identity changes nothing, whether it comes first or last.
pub proof fn lemma_reorient_identity(r: Rotation)
    requires
        r.wf(),
    ensures
        r.spec_reorient(Rotation::spec_unrotated()) == r,
        Rotation::spec_unrotated().spec_reorient(r) == r,
{
    let unrotated = Rotation::spec_unrotated();
    lemma_unrotated(PosY);
    lemma_reorient(r, unrotated);
    lemma_reorient(unrotated, r);
    assert forall|d: Direction| r.spec_reorient(unrotated).spec_reface(d) == r.spec_reface(d) by {
        lemma_unrotated(r.spec_reface(d));
    }
    lemma_reface_determines(r.spec_reorient(unrotated), r);
    assert forall|d: Direction| unrotated.spec_reorient(r).spec_reface(d) == r.spec_reface(d) by {
        lemma_unrotated(d);
    }
    lemma_reface_determines(unrotated.spec_reorient(r), r);
}

/// The way in which three rotations are grouped does not matter.
pub proof fn lemma_reorient_associative(a: Rotation, b: Rotation, c: Rotation)
    requires
        a.wf(),
        b.wf(),
        c.wf(),
    ensures
        a.spec_reorient(b).spec_reorient(c) == a.spec_reorient(b.spec_reorient(c)),
{
    lemma_reorient(a, b);
    lemma_reorient(b, c);
    lemma_reorient(a.spec_reorient(b), c);
    lemma_reorient(a, b.spec_reorient(c));
    assert forall|d: Direction|
        a.spec_reorient(b).spec_reorient(c).spec_reface(d) == a.spec_reorient(
            b.spec_reorient(c),
        ).spec_reface(d) by {
        assert(a.spec_reorient(b).spec_reface(d) == b.spec_reface(a.spec_reface(d)));
        assert(b.spec_reorient(c).spec_reface(a.spec_reface(d)) == c.spec_reface(
            b.spec_reface(a.spec_reface(d)),
        ));
    }
    lemma_reface_determines(
        a.spec_reorient(b).spec_reorient(c),
        a.spec_reorient(b.spec_reorient(c)),
    );
}

/// A rotated point has, along the image of every face normal, the
/// component that the point has along that normal. So the unit vector of
/// a face goes to the unit vector of the face that `reface` gives.
pub proof fn lemma_rotate_coord(r: Rotation, point: (int, int, int), d: Direction)
    requires
        r.wf(),
    ensures
        spec_component(r.spec_rotate_coord(point), r.spec_reface(d)) == spec_component(point, d),
        r.spec_rotate_coord(d.spec_unit()) == r.spec_reface(d).spec_unit(),
{
    lemma_source_face_inverse(r, d);
    lemma_reface_invert(r, d);
    lemma_source_face_inverse(r, PosX);
    lemma_source_face_inverse(r, PosY);
    lemma_source_face_inverse(r, PosZ);
    lemma_reface_invert(r, r.spec_source_face(PosX));
    lemma_reface_invert(r, r.spec_source_face(PosY));
    lemma_reface_invert(r, r.spec_source_face(PosZ));
}

/// Between two reflections by the same flip a rotation is a rotation
/// still: `spec_conjugate` gives it.
pub proof fn lemma_conjugate(r: Rotation, flip: Flip)
    requires
        r.wf(),
    ensures
        r.spec_conjugate(flip).wf(),
        forall|d: Direction| #[trigger]
            r.spec_conjugate(flip).spec_reface(d) == r.spec_reface(d.spec_flip(flip)).spec_flip(
                flip,
            ),
{
    let c = r.spec_conjugate(flip);
    let c_up = r.spec_reface(PosY.spec_flip(flip)).spec_flip(flip);
    let c_forward = r.spec_reface(NegZ.spec_flip(flip)).spec_flip(flip);
    lemma_new(c_up, c_up.spec_angle_to(c_forward));
    lemma_frame_conjugate(r.spec_up(), r.spec_angle(), flip, PosY);
    assert forall|d: Direction| #[trigger]
        c.spec_reface(d) == r.spec_reface(d.spec_flip(flip)).spec_flip(flip) by {
        lemma_frame_conjugate(r.spec_up(), r.spec_angle(), flip, d);
    }
}

/// Only a flip of two axes, or of none, does to the faces what a rotation
/// does.
pub proof fn lemma_rotation_is_flip(r: Rotation, flip: Flip)
    requires
        r.wf(),
        forall|d: Direction| r.spec_reface(d) == d.spec_flip(flip),
    ensures
        !flip.spec_bits_xor(),
{
    lemma_frame_is_flip(r.spec_up(), r.spec_angle(), flip);
}

} // verus!
