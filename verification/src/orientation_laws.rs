//! What holds of the orientations: how they compose, what undoes what,
//! and which of them stand for the same symmetry.

use vstd::prelude::*;

use crate::coord::spec_component;
use crate::direction::Direction::{NegZ, PosX, PosY, PosZ};
use crate::direction::{lemma_flip_direction, Direction};
use crate::flip::{
    lemma_flip_associative, lemma_flip_bits, lemma_flip_cancel, lemma_flip_commutative,
    lemma_flip_self_inverse, Flip,
};
use crate::frame::spec_frame_reface;
use crate::orientation::{
    lemma_bits, lemma_from_bits, lemma_parts, lemma_parts_determine, Orientation,
};
use crate::rotation::{lemma_from_index, lemma_index_determines, lemma_new, Rotation};
use crate::rotation_laws;

verus! {

/// `source_face` and `reface` undo each other.
pub proof fn lemma_source_face_inverse(o: Orientation, d: Direction)
    requires
        o.wf(),
    ensures
        o.spec_source_face(o.spec_reface(d)) == d,
        o.spec_reface(o.spec_source_face(d)) == d,
{
    let r = o.spec_rotation();
    let f = o.spec_flip();
    lemma_bits(o);
    lemma_flip_direction(r.spec_reface(d), f, f);
    lemma_flip_direction(d, f, f);
    rotation_laws::lemma_source_face_inverse(r, d);
    rotation_laws::lemma_source_face_inverse(r, d.spec_flip(f));
}

/// An orientation takes opposite faces to opposite faces.
pub proof fn lemma_reface_invert(o: Orientation, d: Direction)
    requires
        o.wf(),
    ensures
        o.spec_reface(d.spec_invert()) == o.spec_reface(d).spec_invert(),
        o.spec_source_face(d.spec_invert()) == o.spec_source_face(d).spec_invert(),
{
    let r = o.spec_rotation();
    let f = o.spec_flip();
    lemma_bits(o);
    rotation_laws::lemma_reface_invert(r, d);
    rotation_laws::lemma_reface_invert(r, d.spec_flip(f));
    lemma_flip_direction(r.spec_reface(d), f, f);
    lemma_flip_direction(d, f, f);
}

/// The identity leaves every face where it is.
pub proof fn lemma_unoriented(d: Direction)
    ensures
        Orientation::spec_unoriented().wf(),
        Orientation::spec_unoriented().spec_bits() == 0,
        Orientation::spec_unoriented().spec_flip() == Flip::NONE,
        Orientation::spec_unoriented().spec_rotation() == Rotation::spec_unrotated(),
        Orientation::spec_unoriented().spec_reface(d) == d,
        Orientation::spec_unoriented().spec_source_face(d) == d,
{
    rotation_laws::lemma_unrotated(d);
    lemma_parts(Rotation::spec_unrotated(), Flip::NONE);
}

/// What `reorient` computes is the composition of the two orientations.
pub proof fn lemma_reorient(a: Orientation, b: Orientation)
    requires
        a.wf(),
        b.wf(),
    ensures
        ({
            let flip = a.spec_flip().spec_flip(b.spec_flip());
            let up = b.spec_reface(a.spec_up()).spec_flip(flip);
            let forward = b.spec_reface(a.spec_forward()).spec_flip(flip);
            &&& up.spec_is_orthogonal_to(forward)
            &&& a.spec_reorient(b).spec_rotation() == Rotation::spec_new(
                up,
                up.spec_angle_to(forward),
            )
        }),
        a.spec_reorient(b).wf(),
        a.spec_reorient(b).spec_flip() == a.spec_flip().spec_flip(b.spec_flip()),
        a.spec_reorient(b).spec_rotation() == a.spec_rotation().spec_reorient(
            b.spec_rotation().spec_conjugate(a.spec_flip()),
        ),
        forall|d: Direction| #[trigger]
            a.spec_reorient(b).spec_reface(d) == b.spec_reface(a.spec_reface(d)),
{
    let ra = a.spec_rotation();
    let fa = a.spec_flip();
    let rb = b.spec_rotation();
    let fb = b.spec_flip();
    let flip = fa.spec_flip(fb);
    let q = rb.spec_conjugate(fa);
    let up = b.spec_reface(a.spec_up()).spec_flip(flip);
    let forward = b.spec_reface(a.spec_forward()).spec_flip(flip);
    let rot = Rotation::spec_new(up, up.spec_angle_to(forward));
    lemma_bits(a);
    lemma_bits(b);
    rotation_laws::lemma_conjugate(rb, fa);
    rotation_laws::lemma_reorient(ra, q);
    rotation_laws::lemma_reface_up_forward(ra);
    lemma_flip_cancel(fa, fb);
    lemma_flip_commutative(fa, fb);
    // What the composed flip leaves of `b` after `a` is the rotation of
    // `a` followed by the rotation of `b` between two reflections by the
    // flip of `a`.
    assert forall|d: Direction|
        b.spec_reface(a.spec_reface(d)).spec_flip(flip) == q.spec_reface(
            #[trigger] ra.spec_reface(d),
        ) by {
        let x = ra.spec_reface(d);
        lemma_flip_direction(rb.spec_reface(x.spec_flip(fa)), fb, flip);
    }
    assert(up == q.spec_reface(ra.spec_reface(PosY)));
    assert(forward == q.spec_reface(ra.spec_reface(NegZ)));
    lemma_new(up, up.spec_angle_to(forward));
    lemma_parts(rot, flip);
    assert forall|d: Direction| #[trigger]
        a.spec_reorient(b).spec_reface(d) == b.spec_reface(a.spec_reface(d)) by {
        let y = b.spec_reface(a.spec_reface(d));
        assert(rot.spec_reface(d) == q.spec_reface(ra.spec_reface(d)));
        lemma_flip_direction(y, flip, flip);
    }
}

/// What `deorient` computes is the composition of the first orientation
/// with the inverse of the second.
pub proof fn lemma_deorient(a: Orientation, b: Orientation)
    requires
        a.wf(),
        b.wf(),
    ensures
        ({
            let flip = a.spec_flip().spec_flip(b.spec_flip());
            let up = b.spec_source_face(a.spec_up()).spec_flip(flip);
            let forward = b.spec_source_face(a.spec_forward()).spec_flip(flip);
            &&& up.spec_is_orthogonal_to(forward)
            &&& a.spec_deorient(b).spec_rotation() == Rotation::spec_new(
                up,
                up.spec_angle_to(forward),
            )
        }),
        a.spec_deorient(b).wf(),
        a.spec_deorient(b).spec_flip() == a.spec_flip().spec_flip(b.spec_flip()),
        forall|d: Direction| #[trigger]
            a.spec_deorient(b).spec_reface(d) == b.spec_source_face(a.spec_reface(d)),
{
    let ra = a.spec_rotation();
    let fa = a.spec_flip();
    let rb = b.spec_rotation();
    let fb = b.spec_flip();
    let flip = fa.spec_flip(fb);
    let q = rb.spec_invert().spec_conjugate(flip);
    let up = b.spec_source_face(a.spec_up()).spec_flip(flip);
    let forward = b.spec_source_face(a.spec_forward()).spec_flip(flip);
    let rot = Rotation::spec_new(up, up.spec_angle_to(forward));
    lemma_bits(a);
    lemma_bits(b);
    rotation_laws::lemma_invert(rb);
    rotation_laws::lemma_conjugate(rb.spec_invert(), flip);
    rotation_laws::lemma_reorient(ra, q);
    rotation_laws::lemma_reface_up_forward(ra);
    // Between two reflections by the composed flip, the inverse of the
    // rotation of `b` does what is left of the inverse of `b` after `a`.
    assert forall|d: Direction|
        b.spec_source_face(a.spec_reface(d)).spec_flip(flip) == q.spec_reface(
            #[trigger] ra.spec_reface(d),
        ) by {
        let x = ra.spec_reface(d);
        lemma_flip_direction(x, fa, fb);
        assert(q.spec_reface(x) == rb.spec_invert().spec_reface(x.spec_flip(flip)).spec_flip(
            flip,
        ));
    }
    assert(up == q.spec_reface(ra.spec_reface(PosY)));
    assert(forward == q.spec_reface(ra.spec_reface(NegZ)));
    lemma_new(up, up.spec_angle_to(forward));
    lemma_parts(rot, flip);
    assert forall|d: Direction| #[trigger]
        a.spec_deorient(b).spec_reface(d) == b.spec_source_face(a.spec_reface(d)) by {
        let y = b.spec_source_face(a.spec_reface(d));
        assert(rot.spec_reface(d) == q.spec_reface(ra.spec_reface(d)));
        lemma_flip_direction(y, flip, flip);
    }
}

/// The inverse of an orientation has the same flip and sends every face
/// to its source.
pub proof fn lemma_invert(o: Orientation)
    requires
        o.wf(),
    ensures
        o.spec_invert().wf(),
        o.spec_invert().spec_flip() == o.spec_flip(),
        forall|d: Direction| #[trigger] o.spec_invert().spec_reface(d) == o.spec_source_face(d),
{
    lemma_unoriented(PosY);
    lemma_deorient(Orientation::spec_unoriented(), o);
    lemma_flip_self_inverse(o.spec_flip());
    assert forall|d: Direction| #[trigger]
        o.spec_invert().spec_reface(d) == o.spec_source_face(d) by {
        lemma_unoriented(d);
    }
}

/// Two orientations with the same flip that send every face to the same
/// place are the same orientation.
pub proof fn lemma_reface_determines(a: Orientation, b: Orientation)
    requires
        a.wf(),
        b.wf(),
        a.spec_flip() == b.spec_flip(),
        forall|d: Direction| a.spec_reface(d) == b.spec_reface(d),
    ensures
        a == b,
{
    let f = a.spec_flip();
    lemma_bits(a);
    lemma_bits(b);
    assert forall|d: Direction|
        a.spec_rotation().spec_reface(d) == b.spec_rotation().spec_reface(d) by {
        assert(a.spec_reface(d) == b.spec_reface(d));
        lemma_flip_direction(a.spec_rotation().spec_reface(d), f, f);
        lemma_flip_direction(b.spec_rotation().spec_reface(d), f, f);
    }
    rotation_laws::lemma_reface_determines(a.spec_rotation(), b.spec_rotation());
    lemma_parts_determine(a, b);
}

/// An orientation without a flip does to the faces what its rotation
/// does.
pub proof fn lemma_plain(r: Rotation, d: Direction)
    requires
        r.wf(),
    ensures
        Orientation::spec_new(r, Flip::NONE).wf(),
        Orientation::spec_new(r, Flip::NONE).spec_flip() == Flip::NONE,
        Orientation::spec_new(r, Flip::NONE).spec_rotation() == r,
        Orientation::spec_new(r, Flip::NONE).spec_reface(d) == r.spec_reface(d),
        Orientation::spec_new(r, Flip::NONE).spec_source_face(d) == r.spec_source_face(d),
{
    lemma_parts(r, Flip::NONE);
    lemma_flip_direction(r.spec_reface(d), Flip::NONE, Flip::NONE);
    lemma_flip_direction(d, Flip::NONE, Flip::NONE);
}

/// Orientations without a flip compose as their rotations do, and the
/// inverse of one is its inverse rotation without a flip.
pub proof fn lemma_reorient_plain(a: Rotation, b: Rotation)
    requires
        a.wf(),
        b.wf(),
    ensures
        Orientation::spec_new(a, Flip::NONE).spec_reorient(Orientation::spec_new(b, Flip::NONE))
            == Orientation::spec_new(a.spec_reorient(b), Flip::NONE),
        Orientation::spec_new(a, Flip::NONE).spec_invert() == Orientation::spec_new(
            a.spec_invert(),
            Flip::NONE,
        ),
{
    let oa = Orientation::spec_new(a, Flip::NONE);
    let ob = Orientation::spec_new(b, Flip::NONE);
    let both = Orientation::spec_new(a.spec_reorient(b), Flip::NONE);
    lemma_parts(a, Flip::NONE);
    lemma_parts(b, Flip::NONE);
    lemma_reorient(oa, ob);
    rotation_laws::lemma_reorient(a, b);
    lemma_parts(a.spec_reorient(b), Flip::NONE);
    lemma_flip_self_inverse(Flip::NONE);
    assert forall|d: Direction| oa.spec_reorient(ob).spec_reface(d) == both.spec_reface(d) by {
        lemma_plain(a, d);
        lemma_plain(b, a.spec_reface(d));
        lemma_plain(a.spec_reorient(b), d);
    }
    lemma_reface_determines(oa.spec_reorient(ob), both);
    let inv = Orientation::spec_new(a.spec_invert(), Flip::NONE);
    lemma_invert(oa);
    rotation_laws::lemma_invert(a);
    lemma_parts(a.spec_invert(), Flip::NONE);
    assert forall|d: Direction| oa.spec_invert().spec_reface(d) == inv.spec_reface(d) by {
        lemma_plain(a, d);
        lemma_plain(a.spec_invert(), d);
    }
    lemma_reface_determines(oa.spec_invert(), inv);
}

/// The quarter turn about a face, as an orientation, is the quarter turn
/// about that face, as a rotation, without a flip.
pub proof fn lemma_turn(face: Direction)
    ensures
        Orientation::spec_turn(face) == Orientation::spec_new(
            Rotation::spec_face_turn(face),
            Flip::NONE,
        ),
        Orientation::spec_turn(face).wf(),
{
    rotation_laws::lemma_face_turn(face);
    rotation_laws::lemma_face_turn(face.spec_invert());
    lemma_parts(Rotation::spec_face_turn(face), Flip::NONE);
    rotation_laws::lemma_unrotated(face);
    lemma_reorient_plain(Rotation::spec_face_turn(face.spec_invert()), Rotation::spec_unrotated());
}

/// The orientation that turns about a face is the rotation about that
/// face, without a flip. It leaves the face where it is and turns its
/// neighbours by the number of places that the angle gives.
pub proof fn lemma_face_orientation(face: Direction, angle: int)
    ensures
        Orientation::spec_face_orientation(face, angle) == Orientation::spec_new(
            Rotation::spec_face_rotation(face, angle),
            Flip::NONE,
        ),
        Orientation::spec_face_orientation(face, angle).wf(),
        Orientation::spec_face_orientation(face, angle).spec_reface(face) == face,
        Orientation::spec_face_orientation(face, angle).spec_reface(face.spec_up())
            == face.spec_up_at_angle(angle),
{
    let turn = Rotation::spec_face_turn(face);
    let twice = turn.spec_reorient(turn);
    lemma_turn(face);
    rotation_laws::lemma_face_turn(face);
    rotation_laws::lemma_face_rotation(face, angle);
    rotation_laws::lemma_reorient(turn, turn);
    rotation_laws::lemma_reorient(twice, turn);
    lemma_reorient_plain(turn, turn);
    lemma_reorient_plain(twice, turn);
    rotation_laws::lemma_unrotated(face);
    lemma_plain(Rotation::spec_face_rotation(face, angle), face);
    lemma_plain(Rotation::spec_face_rotation(face, angle), face.spec_up());
}

/// The orientation that turns about a corner is the rotation about that
/// corner, without a flip. It is the identity exactly for a number of
/// thirds that is a multiple of three.
pub proof fn lemma_corner_orientation(x: int, y: int, z: int, angle: int)
    ensures
        Orientation::spec_corner_orientation(x, y, z, angle) == Orientation::spec_new(
            Rotation::spec_corner_rotation(x, y, z, angle),
            Flip::NONE,
        ),
        Orientation::spec_corner_orientation(x, y, z, angle).wf(),
        Orientation::spec_corner_orientation(x, y, z, angle) == Orientation::spec_unoriented()
            <==> angle % 3 == 0,
{
    let turn = Rotation::spec_corner_turn(x > 0, y > 0, z > 0);
    rotation_laws::lemma_corner_turn(x > 0, y > 0, z > 0);
    rotation_laws::lemma_corner_rotation(x, y, z, angle);
    rotation_laws::lemma_unrotated(PosY);
    lemma_reorient_plain(turn, turn);
    lemma_parts(Rotation::spec_corner_rotation(x, y, z, angle), Flip::NONE);
    lemma_parts(Rotation::spec_unrotated(), Flip::NONE);
}

/// The three orientations that `canonicalize` composes with leave every
/// face where it is, and composing with them gives the value of group 0
/// that does to the faces what the orientation does.
pub proof fn lemma_canonicalize(o: Orientation)
    requires
        o.wf(),
    ensures
        o.spec_canonicalize().wf(),
        o.spec_canonicalize().spec_canonical_group() == 0,
        o.spec_canonicalize().spec_flip() == (if o.spec_flip().spec_bits_xor() {
            Flip::X
        } else {
            Flip::NONE
        }),
        forall|d: Direction| #[trigger] o.spec_canonicalize().spec_reface(d) == o.spec_reface(d),
        o.spec_is_canonical() ==> o.spec_canonicalize() == o,
        !o.spec_is_canonical() ==> o.spec_canonicalize() == o.spec_reorient(
            Orientation::spec_canonicalizer(o.spec_canonical_group()),
        ),
{
    if !o.spec_is_canonical() {
        let c = Orientation::spec_canonicalizer(o.spec_canonical_group());
        lemma_canonicalizer(o.spec_canonical_group(), PosY);
        lemma_reorient(o, c);
        assert forall|d: Direction| #[trigger]
            o.spec_canonicalize().spec_reface(d) == o.spec_reface(d) by {
            lemma_canonicalizer(o.spec_canonical_group(), o.spec_reface(d));
        }
    }
}

/// Each of the three orientations that `canonicalize` composes with is a
/// half turn together with the reflection that undoes it.
pub proof fn lemma_canonicalizer(group: int, d: Direction)
    requires
        1 <= group <= 3,
    ensures
        Orientation::spec_canonicalizer(group).wf(),
        Orientation::spec_canonicalizer(group).spec_flip() == (if group == 1 {
            Flip::XY
        } else if group == 2 {
            Flip::XZ
        } else {
            Flip::YZ
        }),
        Orientation::spec_canonicalizer(group).spec_reface(d) == d,
{
    lemma_new(Direction::NegY, 2);
    lemma_new(PosY, 2);
    lemma_new(Direction::NegY, 0);
    lemma_parts(Rotation::spec_new(Direction::NegY, 2), Flip::XY);
    lemma_parts(Rotation::spec_new(PosY, 2), Flip::XZ);
    lemma_parts(Rotation::spec_new(Direction::NegY, 0), Flip::YZ);
    reveal(spec_frame_reface);
}

/// An orientation keeps orthogonal faces orthogonal, both ways.
pub proof fn lemma_reface_orthogonal(o: Orientation, a: Direction, b: Direction)
    requires
        o.wf(),
    ensures
        o.spec_reface(a).spec_is_orthogonal_to(o.spec_reface(b)) == a.spec_is_orthogonal_to(b),
        o.spec_source_face(a).spec_is_orthogonal_to(o.spec_source_face(b))
            == a.spec_is_orthogonal_to(b),
{
    let r = o.spec_rotation();
    let f = o.spec_flip();
    lemma_bits(o);
    rotation_laws::lemma_reface_orthogonal(r, a, b);
    rotation_laws::lemma_reface_orthogonal(r, a.spec_flip(f), b.spec_flip(f));
    lemma_flip_direction(r.spec_reface(a), f, f);
    lemma_flip_direction(r.spec_reface(b), f, f);
    lemma_flip_direction(a, f, f);
    lemma_flip_direction(b, f, f);
}

/// Applying an orientation and then taking it away again changes nothing,
/// and neither does taking it away and then applying it.
pub proof fn lemma_reorient_deorient(a: Orientation, b: Orientation)
    requires
        a.wf(),
        b.wf(),
    ensures
        a.spec_reorient(b).spec_deorient(b) == a,
        a.spec_deorient(b).spec_reorient(b) == a,
{
    let there = a.spec_reorient(b);
    lemma_reorient(a, b);
    lemma_deorient(there, b);
    lemma_flip_cancel(a.spec_flip(), b.spec_flip());
    assert forall|d: Direction| there.spec_deorient(b).spec_reface(d) == a.spec_reface(d) by {
        assert(there.spec_reface(d) == b.spec_reface(a.spec_reface(d)));
        lemma_source_face_inverse(b, a.spec_reface(d));
    }
    lemma_reface_determines(there.spec_deorient(b), a);
    let back = a.spec_deorient(b);
    lemma_deorient(a, b);
    lemma_reorient(back, b);
    assert forall|d: Direction| back.spec_reorient(b).spec_reface(d) == a.spec_reface(d) by {
        assert(back.spec_reface(d) == b.spec_source_face(a.spec_reface(d)));
        lemma_source_face_inverse(b, a.spec_reface(d));
    }
    lemma_reface_determines(back.spec_reorient(b), a);
}

/// The inverse of the inverse is the orientation itself; an orientation
/// followed by its inverse, and the inverse followed by the orientation,
/// are the identity.
pub proof fn lemma_invert_cancels(o: Orientation)
    requires
        o.wf(),
    ensures
        o.spec_invert().spec_invert() == o,
        o.spec_reorient(o.spec_invert()) == Orientation::spec_unoriented(),
        o.spec_invert().spec_reorient(o) == Orientation::spec_unoriented(),
{
    let inv = o.spec_invert();
    let unoriented = Orientation::spec_unoriented();
    lemma_invert(o);
    lemma_invert(inv);
    lemma_reorient(o, inv);
    lemma_reorient(inv, o);
    lemma_unoriented(PosY);
    lemma_flip_self_inverse(o.spec_flip());
    assert forall|d: Direction| inv.spec_invert().spec_reface(d) == o.spec_reface(d) by {
        assert(inv.spec_invert().spec_reface(d) == inv.spec_source_face(d));
        assert(inv.spec_reface(o.spec_reface(d)) == o.spec_source_face(o.spec_reface(d)));
        lemma_source_face_inverse(o, d);
        lemma_source_face_inverse(inv, o.spec_reface(d));
    }
    lemma_reface_determines(inv.spec_invert(), o);
    assert forall|d: Direction| o.spec_reorient(inv).spec_reface(d) == unoriented.spec_reface(
        d,
    ) by {
        assert(inv.spec_reface(o.spec_reface(d)) == o.spec_source_face(o.spec_reface(d)));
        lemma_source_face_inverse(o, d);
        lemma_unoriented(d);
    }
    lemma_reface_determines(o.spec_reorient(inv), unoriented);
    assert forall|d: Direction| inv.spec_reorient(o).spec_reface(d) == unoriented.spec_reface(
        d,
    ) by {
        assert(inv.spec_reface(d) == o.spec_source_face(d));
        lemma_source_face_inverse(o, d);
        lemma_unoriented(d);
    }
    lemma_reface_determines(inv.spec_reorient(o), unoriented);
}

/// The identity changes nothing, whether it comes first or last.
pub proof fn lemma_reorient_identity(o: Orientation)
    requires
        o.wf(),
    ensures
        o.spec_reorient(Orientation::spec_unoriented()) == o,
        Orientation::spec_unoriented().spec_reorient(o) == o,
{
    let unoriented = Orientation::spec_unoriented();
    lemma_unoriented(PosY);
    lemma_reorient(o, unoriented);
    lemma_reorient(unoriented, o);
    lemma_flip_self_inverse(o.spec_flip());
    assert forall|d: Direction| o.spec_reorient(unoriented).spec_reface(d) == o.spec_reface(d) by {
        lemma_unoriented(o.spec_reface(d));
    }
    lemma_reface_determines(o.spec_reorient(unoriented), o);
    assert forall|d: Direction| unoriented.spec_reorient(o).spec_reface(d) == o.spec_reface(d) by {
        lemma_unoriented(d);
    }
    lemma_reface_determines(unoriented.spec_reorient(o), o);
}

/// The way in which three orientations are grouped does not matter.
pub proof fn lemma_reorient_associative(a: Orientation, b: Orientation, c: Orientation)
    requires
        a.wf(),
        b.wf(),
        c.wf(),
    ensures
        a.spec_reorient(b).spec_reorient(c) == a.spec_reorient(b.spec_reorient(c)),
{
    lemma_reorient(a, b);
    lemma_reorient(b, c);
    lemma_reorient(a.spec_reorient(b), c);
    lemma_reorient(a, b.spec_reorient(c));
    lemma_flip_associative(a.spec_flip(), b.spec_flip(), c.spec_flip());
    assert forall|d: Direction|
        a.spec_reorient(b).spec_reorient(c).spec_reface(d) == a.spec_reorient(
            b.spec_reorient(c),
        ).spec_reface(d) by {
        assert(a.spec_reorient(b).spec_reface(d) == b.spec_reface(a.spec_reface(d)));
        assert(b.spec_reorient(c).spec_reface(a.spec_reface(d)) == c.spec_reface(
            b.spec_reface(a.spec_reface(d)),
        ));
    }
    lemma_reface_determines(
        a.spec_reorient(b).spec_reorient(c),
        a.spec_reorient(b.spec_reorient(c)),
    );
}

/// A transformed point has, along the image of every face normal, the
/// component that the point has along that normal. So the unit vector of
/// a face goes to the unit vector of the face that `reface` gives.
pub proof fn lemma_transform(o: Orientation, point: (int, int, int), d: Direction)
    requires
        o.wf(),
    ensures
        spec_component(o.spec_transform(point), o.spec_reface(d)) == spec_component(point, d),
        o.spec_transform(d.spec_unit()) == o.spec_reface(d).spec_unit(),
{
    lemma_source_face_inverse(o, d);
    lemma_reface_invert(o, d);
    lemma_source_face_inverse(o, PosX);
    lemma_source_face_inverse(o, PosY);
    lemma_source_face_inverse(o, PosZ);
    lemma_reface_invert(o, o.spec_source_face(PosX));
    lemma_reface_invert(o, o.spec_source_face(PosY));
    lemma_reface_invert(o, o.spec_source_face(PosZ));
}

/// Canonicalizing twice is canonicalizing once, and what comes out is
/// canonical.
pub proof fn lemma_canonicalize_idempotent(o: Orientation)
    requires
        o.wf(),
    ensures
        o.spec_canonicalize().spec_canonicalize() == o.spec_canonicalize(),
        o.spec_canonicalize().spec_is_canonical(),
        o.spec_canonicalize().spec_canonical_group() == 0,
{
    lemma_canonicalize(o);
}

/// Two orientations have the same canonical value exactly if they send
/// every face to the same place: the canonical values stand for the
/// symmetries of the cube, one for each.
pub proof fn lemma_canonical_value_of_symmetry(a: Orientation, b: Orientation)
    requires
        a.wf(),
        b.wf(),
    ensures
        (forall|d: Direction| a.spec_reface(d) == b.spec_reface(d)) <==> a.spec_canonicalize()
            == b.spec_canonicalize(),
{
    lemma_canonicalize(a);
    lemma_canonicalize(b);
    if a.spec_canonicalize() == b.spec_canonicalize() {
        assert forall|d: Direction| a.spec_reface(d) == b.spec_reface(d) by {
            assert(a.spec_canonicalize().spec_reface(d) == a.spec_reface(d));
            assert(b.spec_canonicalize().spec_reface(d) == b.spec_reface(d));
        }
    }
    if forall|d: Direction| a.spec_reface(d) == b.spec_reface(d) {
        let ra = a.spec_rotation();
        let rb = b.spec_rotation();
        let fa = a.spec_flip();
        let fb = b.spec_flip();
        lemma_bits(a);
        lemma_bits(b);
        // The rotation of `b`, undone and followed by the rotation of `a`,
        // does what the two flips together do.
        let c = rb.spec_invert().spec_reorient(ra);
        rotation_laws::lemma_invert(rb);
        rotation_laws::lemma_reorient(rb.spec_invert(), ra);
        assert forall|y: Direction| c.spec_reface(y) == y.spec_flip(fb.spec_flip(fa)) by {
            let x = rb.spec_source_face(y);
            assert(rb.spec_invert().spec_reface(y) == x);
            rotation_laws::lemma_source_face_inverse(rb, y);
            assert(a.spec_reface(x) == b.spec_reface(x));
            lemma_flip_direction(ra.spec_reface(x), fa, fa);
            lemma_flip_direction(y, fb, fa);
        }
        rotation_laws::lemma_rotation_is_flip(c, fb.spec_flip(fa));
        lemma_flip_cancel(fb, fa);
        assert forall|d: Direction|
            a.spec_canonicalize().spec_reface(d) == b.spec_canonicalize().spec_reface(d) by {
            assert(a.spec_canonicalize().spec_reface(d) == a.spec_reface(d));
            assert(b.spec_canonicalize().spec_reface(d) == b.spec_reface(d));
        }
        lemma_reface_determines(a.spec_canonicalize(), b.spec_canonicalize());
    }
}

/// Adding two different offsets below 192 to a number and wrapping at 192
/// gives two different numbers, and every number below 192 is reached.
proof fn lemma_wrap(start: int, target: int, j: int, k: int)
    requires
        0 <= start < 192,
        0 <= target < 192,
        0 <= j < 192,
        0 <= k < 192,
    ensures
        0 <= (start + j) % 192 < 192,
        (start + j) % 192 == (start + k) % 192 ==> j == k,
        0 <= (target - start) % 192 < 192,
        (start + (target - start) % 192) % 192 == target,
{
    if start + j < 192 {
        assert((start + j) % 192 == start + j);
    } else {
        assert((start + j) % 192 == start + j - 192);
    }
    if start + k < 192 {
        assert((start + k) % 192 == start + k);
    } else {
        assert((start + k) % 192 == start + k - 192);
    }
    if target >= start {
        assert((target - start) % 192 == target - start);
    } else {
        assert((target - start) % 192 == target - start + 192);
    }
}

/// Stepping through the packed values from any orientation, the first 192
/// steps reach 192 different orientations, and reach every orientation.
pub proof fn lemma_cycle_visits_all(o: Orientation, p: Orientation, j: int, k: int)
    requires
        o.wf(),
        p.wf(),
        0 <= j < 192,
        0 <= k < 192,
    ensures
        o.spec_cycle(j).wf(),
        o.spec_cycle(j) == o.spec_cycle(k) ==> j == k,
        0 <= (p.spec_bits() - o.spec_bits()) % 192 < 192,
        o.spec_cycle((p.spec_bits() - o.spec_bits()) % 192) == p,
{
    lemma_wrap(o.spec_bits(), p.spec_bits(), j, k);
    lemma_from_bits((o.spec_bits() + j) % 192);
    lemma_from_bits((o.spec_bits() + k) % 192);
    assert(Orientation::spec_from_bits(p.spec_bits()) == p) by {
        lemma_bits(p);
    }
}

/// The place of an orientation in the order in which the rotation changes
/// fastest is below 192, and the orientation is the one at that place.
pub proof fn lemma_rotation_first_index(o: Orientation)
    requires
        o.wf(),
    ensures
        0 <= o.spec_rotation_first_index() < 192,
        Orientation::spec_from_rotation_first_index(o.spec_rotation_first_index()) == o,
{
    let r = o.spec_rotation();
    let f = o.spec_flip();
    lemma_bits(o);
    lemma_flip_bits(f, f);
    let index = 24 * f.spec_bits() + r.spec_index();
    assert(index % 24 == r.spec_index() && index / 24 == f.spec_bits()) by {
        let fb = f.spec_bits();
        let ri = r.spec_index();
        assert(0 <= fb < 8 && 0 <= ri < 24);
        assert(index == 24 * fb + ri);
    }
    lemma_from_index(r.spec_index());
    lemma_index_determines(r, Rotation::spec_from_index(r.spec_index()));
}

/// At every place below 192 of the order in which the rotation changes
/// fastest stands an orientation, and its place is that place.
pub proof fn lemma_from_rotation_first_index(index: int)
    requires
        0 <= index < 192,
    ensures
        Orientation::spec_from_rotation_first_index(index).wf(),
        Orientation::spec_from_rotation_first_index(index).spec_rotation_first_index() == index,
        Orientation::spec_from_rotation_first_index(index).spec_rotation()
            == Rotation::spec_from_index(index % 24),
        Orientation::spec_from_rotation_first_index(index).spec_flip() == Flip::spec_from_bits(
            index / 24,
        ),
{
    let r = Rotation::spec_from_index(index % 24);
    let f = Flip::spec_from_bits(index / 24);
    lemma_from_index(index % 24);
    assert(0 <= index / 24 < 8);
    assert(f.spec_bits() == index / 24);
    lemma_parts(r, f);
}

/// Stepping through the order in which the rotation changes fastest, the
/// first 192 steps from any orientation reach 192 different orientations,
/// and reach every orientation.
pub proof fn lemma_cycle_rotation_first_visits_all(
    o: Orientation,
    p: Orientation,
    j: int,
    k: int,
)
    requires
        o.wf(),
        p.wf(),
        0 <= j < 192,
        0 <= k < 192,
    ensures
        o.spec_cycle_rotation_first(j).wf(),
        o.spec_cycle_rotation_first(j) == o.spec_cycle_rotation_first(k) ==> j == k,
        0 <= (p.spec_rotation_first_index() - o.spec_rotation_first_index()) % 192 < 192,
        o.spec_cycle_rotation_first(
            (p.spec_rotation_first_index() - o.spec_rotation_first_index()) % 192,
        ) == p,
{
    let start = o.spec_rotation_first_index();
    let target = p.spec_rotation_first_index();
    lemma_rotation_first_index(o);
    lemma_rotation_first_index(p);
    lemma_wrap(start, target, j, k);
    lemma_from_rotation_first_index((start + j) % 192);
    lemma_from_rotation_first_index((start + k) % 192);
}

/// The two orders differ: one step from the identity changes the flip in
/// the one and the rotation in the other.
pub proof fn lemma_cycle_orders_differ()
    ensures
        Orientation::spec_unoriented().spec_cycle(1) != Orientation::spec_unoriented(
        ).spec_cycle_rotation_first(1),
        Orientation::spec_unoriented().spec_cycle(1).spec_flip() == Flip::X,
        Orientation::spec_unoriented().spec_cycle_rotation_first(1).spec_flip() == Flip::NONE,
{
    let unoriented = Orientation::spec_unoriented();
    lemma_unoriented(PosY);
    lemma_from_bits(1);
    lemma_rotation_first_index(unoriented);
    lemma_index_determines(
        unoriented.spec_rotation(),
        Rotation::spec_from_index(0),
    );
    lemma_from_index(0);
    assert(unoriented.spec_rotation_first_index() == 0);
    lemma_from_rotation_first_index(1);
}

} // verus!
