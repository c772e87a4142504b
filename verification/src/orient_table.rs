//! How the UV plane of a face is carried along when the cube is
//! reoriented.
//!
//! On every face U grows towards the right neighbour of the face and V
//! towards its lower neighbour. An orientation takes a source face to a
//! target face, and the U and V axes of the source with it; seen from the
//! target they arrive as one of eight combinations of the target's own
//! axes, with signs.

use vstd::prelude::*;

use crate::coord::{
    spec_along, spec_component, spec_negatable, spec_sum, spec_uv_values, SignedCoord,
};
use crate::direction::{lemma_neighbours, Direction};
use crate::flip::{lemma_flip_bits, Flip};
use crate::orientation::Orientation;
use crate::orientation_laws::{
    lemma_reface_invert, lemma_reface_orthogonal, lemma_source_face_inverse, lemma_transform,
};
use crate::rotation::{lemma_from_index, Rotation};

verus! {

/// One of the two axes of a UV plane, with a sign.
#[derive(Debug, Clone, Copy, PartialEq, Eq, Hash, Structural)]
pub enum AxisMap {
    PosX,
    PosY,
    NegX,
    NegY,
}

impl AxisMap {
    /// Whether the axis is the first one, U.
    pub open spec fn spec_is_x(self) -> bool {
        self == AxisMap::PosX || self == AxisMap::NegX
    }

    /// The coordinate of `uv` along the axis.
    pub open spec fn spec_value(self, uv: (int, int)) -> int {
        match self {
            AxisMap::PosX => uv.0,
            AxisMap::PosY => uv.1,
            AxisMap::NegX => -uv.0,
            AxisMap::NegY => -uv.1,
        }
    }

    /// Whether the coordinate of `uv` along the axis can be held in `T`.
    pub open spec fn spec_has_value<T: SignedCoord>(self, uv: (T, T)) -> bool {
        match self {
            AxisMap::PosX | AxisMap::PosY => true,
            AxisMap::NegX => spec_negatable(uv.0),
            AxisMap::NegY => spec_negatable(uv.1),
        }
    }

    /// The signed axis of the plane spanned by `right` (U) and `down` (V)
    /// that points along `target`. The three directions are neighbours of
    /// one face.
    pub open spec fn spec_along(target: Direction, right: Direction, down: Direction) -> AxisMap {
        if target == right {
            AxisMap::PosX
        } else if target == right.spec_invert() {
            AxisMap::NegX
        } else if target == down {
            AxisMap::PosY
        } else {
            AxisMap::NegY
        }
    }
}

/// A pair of signed plane axes, one along U and one along V: one of the
/// eight ways to swap the two coordinates of a plane and to change their
/// signs. The first axis named is where the new U comes from, the second
/// where the new V comes from.
#[derive(Debug, Clone, Copy, PartialEq, Eq, Hash, Structural)]
pub enum AxisMapper {
    PosXPosY,
    NegXPosY,
    PosXNegY,
    NegXNegY,
    PosYPosX,
    NegYPosX,
    PosYNegX,
    NegYNegX,
}

impl AxisMapper {
    /// Where the new U comes from.
    pub open spec fn spec_x(self) -> AxisMap {
        match self {
            AxisMapper::PosXPosY => AxisMap::PosX,
            AxisMapper::NegXPosY => AxisMap::NegX,
            AxisMapper::PosXNegY => AxisMap::PosX,
            AxisMapper::NegXNegY => AxisMap::NegX,
            AxisMapper::PosYPosX => AxisMap::PosY,
            AxisMapper::NegYPosX => AxisMap::NegY,
            AxisMapper::PosYNegX => AxisMap::PosY,
            AxisMapper::NegYNegX => AxisMap::NegY,
        }
    }

    /// Where the new V comes from.
    pub open spec fn spec_y(self) -> AxisMap {
        match self {
            AxisMapper::PosXPosY => AxisMap::PosY,
            AxisMapper::NegXPosY => AxisMap::PosY,
            AxisMapper::PosXNegY => AxisMap::NegY,
            AxisMapper::NegXNegY => AxisMap::NegY,
            AxisMapper::PosYPosX => AxisMap::PosX,
            AxisMapper::NegYPosX => AxisMap::PosX,
            AxisMapper::PosYNegX => AxisMap::NegX,
            AxisMapper::NegYNegX => AxisMap::NegX,
        }
    }

    /// Two axes make a pair when one of them is U and the other is V.
    pub open spec fn spec_is_pair(x: AxisMap, y: AxisMap) -> bool {
        x.spec_is_x() != y.spec_is_x()
    }

    /// The pair of the two axes.
    pub fn from_pair(x: AxisMap, y: AxisMap) -> (res: AxisMapper)
        requires
            Self::spec_is_pair(x, y),
        ensures
            res.spec_x() == x,
            res.spec_y() == y,
    {
        match (x, y) {
            (AxisMap::NegX, AxisMap::PosY) => AxisMapper::NegXPosY,
            (AxisMap::PosX, AxisMap::PosY) => AxisMapper::PosXPosY,
            (AxisMap::PosX, AxisMap::NegY) => AxisMapper::PosXNegY,
            (AxisMap::NegX, AxisMap::NegY) => AxisMapper::NegXNegY,
            (AxisMap::PosY, AxisMap::PosX) => AxisMapper::PosYPosX,
            (AxisMap::NegY, AxisMap::PosX) => AxisMapper::NegYPosX,
            (AxisMap::PosY, AxisMap::NegX) => AxisMapper::PosYNegX,
            (AxisMap::NegY, AxisMap::NegX) => AxisMapper::NegYNegX,
            _ => vstd::pervasive::unreached(),
        }
    }

    /// Where the new U comes from.
    pub fn x(self) -> (res: AxisMap)
        ensures
            res == self.spec_x(),
    {
        match self {
            AxisMapper::PosXPosY => AxisMap::PosX,
            AxisMapper::NegXPosY => AxisMap::NegX,
            AxisMapper::PosXNegY => AxisMap::PosX,
            AxisMapper::NegXNegY => AxisMap::NegX,
            AxisMapper::PosYPosX => AxisMap::PosY,
            AxisMapper::NegYPosX => AxisMap::NegY,
            AxisMapper::PosYNegX => AxisMap::PosY,
            AxisMapper::NegYNegX => AxisMap::NegY,
        }
    }

    /// Where the new V comes from.
    pub fn y(self) -> (res: AxisMap)
        ensures
            res == self.spec_y(),
    {
        match self {
            AxisMapper::PosXPosY => AxisMap::PosY,
            AxisMapper::NegXPosY => AxisMap::PosY,
            AxisMapper::PosXNegY => AxisMap::NegY,
            AxisMapper::NegXNegY => AxisMap::NegY,
            AxisMapper::PosYPosX => AxisMap::PosX,
            AxisMapper::NegYPosX => AxisMap::PosX,
            AxisMapper::PosYNegX => AxisMap::NegX,
            AxisMapper::NegYNegX => AxisMap::NegX,
        }
    }

    /// Both axes.
    pub fn to_pair(self) -> (res: (AxisMap, AxisMap))
        ensures
            res == (self.spec_x(), self.spec_y()),
            Self::spec_is_pair(res.0, res.1),
    {
        match self {
            AxisMapper::PosXPosY => (AxisMap::PosX, AxisMap::PosY),
            AxisMapper::NegXPosY => (AxisMap::NegX, AxisMap::PosY),
            AxisMapper::PosXNegY => (AxisMap::PosX, AxisMap::NegY),
            AxisMapper::NegXNegY => (AxisMap::NegX, AxisMap::NegY),
            AxisMapper::PosYPosX => (AxisMap::PosY, AxisMap::PosX),
            AxisMapper::NegYPosX => (AxisMap::NegY, AxisMap::PosX),
            AxisMapper::PosYNegX => (AxisMap::PosY, AxisMap::NegX),
            AxisMapper::NegYNegX => (AxisMap::NegY, AxisMap::NegX),
        }
    }
}

/// A map of UV coordinates: a swap of the two coordinates or none, and a
/// sign for each.
#[derive(Debug, Clone, Copy, PartialEq, Eq, Hash, Structural)]
pub struct CoordMap {
    pub mapper: AxisMapper,
}

impl CoordMap {
    /// Where `uv` goes.
    pub open spec fn spec_map(self, uv: (int, int)) -> (int, int) {
        (self.mapper.spec_x().spec_value(uv), self.mapper.spec_y().spec_value(uv))
    }

    /// Whether the image of `uv` can be held in `T`: no coordinate that is
    /// to be negated is the least value of `T`.
    pub open spec fn spec_can_map<T: SignedCoord>(self, uv: (T, T)) -> bool {
        self.mapper.spec_x().spec_has_value(uv) && self.mapper.spec_y().spec_has_value(uv)
    }

    /// The map whose new U and V come from `x` and `y`.
    pub open spec fn spec_new(x: AxisMap, y: AxisMap) -> CoordMap {
        if x == AxisMap::PosX {
            if y == AxisMap::PosY {
                CoordMap { mapper: AxisMapper::PosXPosY }
            } else {
                CoordMap { mapper: AxisMapper::PosXNegY }
            }
        } else if x == AxisMap::NegX {
            if y == AxisMap::PosY {
                CoordMap { mapper: AxisMapper::NegXPosY }
            } else {
                CoordMap { mapper: AxisMapper::NegXNegY }
            }
        } else if x == AxisMap::PosY {
            if y == AxisMap::PosX {
                CoordMap { mapper: AxisMapper::PosYPosX }
            } else {
                CoordMap { mapper: AxisMapper::PosYNegX }
            }
        } else {
            if y == AxisMap::PosX {
                CoordMap { mapper: AxisMapper::NegYPosX }
            } else {
                CoordMap { mapper: AxisMapper::NegYNegX }
            }
        }
    }

    /// The map that changes nothing.
    #[inline]
    pub fn identity() -> (res: CoordMap)
        ensures
            res.mapper == AxisMapper::PosXPosY,
            forall|uv: (int, int)| #[trigger] res.spec_map(uv) == uv,
    {
        CoordMap { mapper: AxisMapper::PosXPosY }
    }

    /// The map whose new U and V come from `x` and `y`, one of which is a
    /// U axis and the other a V axis.
    pub fn new(x: AxisMap, y: AxisMap) -> (res: CoordMap)
        requires
            AxisMapper::spec_is_pair(x, y),
        ensures
            res == Self::spec_new(x, y),
            res.mapper.spec_x() == x,
            res.mapper.spec_y() == y,
    {
        CoordMap { mapper: AxisMapper::from_pair(x, y) }
    }

    /// Where the new U comes from.
    pub fn x(self) -> (res: AxisMap)
        ensures
            res == self.mapper.spec_x(),
    {
        self.mapper.x()
    }

    /// Where the new V comes from.
    pub fn y(self) -> (res: AxisMap)
        ensures
            res == self.mapper.spec_y(),
    {
        self.mapper.y()
    }

    /// Map one UV coordinate.
    #[inline]
    pub fn map<T: SignedCoord>(self, uv: (T, T)) -> (res: (T, T))
        requires
            self.spec_can_map(uv),
        ensures
            spec_uv_values(res) == self.spec_map(spec_uv_values(uv)),
    {
        let (x, y) = uv;
        match self.mapper {
            AxisMapper::PosXPosY => (x, y),
            AxisMapper::NegXPosY => (x.negated(), y),
            AxisMapper::PosXNegY => (x, y.negated()),
            AxisMapper::NegXNegY => (x.negated(), y.negated()),
            AxisMapper::PosYPosX => (y, x),
            AxisMapper::NegYPosX => (y.negated(), x),
            AxisMapper::PosYNegX => (y, x.negated()),
            AxisMapper::NegYNegX => (y.negated(), x.negated()),
        }
    }

    /// Map every UV coordinate of `array`, in place.
    pub fn map_many<T: SignedCoord>(self, array: &mut [(T, T)])
        requires
            forall|i: int|
                0 <= i < old(array)@.len() ==> self.spec_can_map(#[trigger] old(array)@[i]),
        ensures
            final(array)@.len() == old(array)@.len(),
            forall|i: int|
                0 <= i < old(array)@.len() ==> spec_uv_values(#[trigger] final(array)@[i])
                    == self.spec_map(spec_uv_values(old(array)@[i])),
    {
        let ghost before = array@;
        let mut index: usize = 0;
        while index < array.len()
            invariant
                index <= array@.len(),
                array@.len() == before.len(),
                forall|i: int| index <= i < before.len() ==> array@[i] == before[i],
                forall|i: int| 0 <= i < before.len() ==> self.spec_can_map(#[trigger] before[i]),
                forall|i: int|
                    0 <= i < index ==> spec_uv_values(#[trigger] array@[i]) == self.spec_map(
                        spec_uv_values(before[i]),
                    ),
            decreases array@.len() - index,
        {
            let uv = array[index];
            assert(uv == before[index as int]);
            array[index] = self.map(uv);
            index += 1;
        }
    }
}

/// The map from UV coordinates on the source face to UV coordinates on
/// `face`, where the source face is the one that `orientation` takes to
/// `face`: the new U is read along the axis of the carried plane that
/// points to the right neighbour of `face`, the new V along the one that
/// points to its lower neighbour.
pub open spec fn spec_map_face_coord(orientation: Orientation, face: Direction) -> CoordMap {
    let source = orientation.spec_source_face(face);
    let right = orientation.spec_reface(source.spec_right());
    let down = orientation.spec_reface(source.spec_down());
    CoordMap::spec_new(
        AxisMap::spec_along(face.spec_right(), right, down),
        AxisMap::spec_along(face.spec_down(), right, down),
    )
}

/// The map from UV coordinates on `face` to UV coordinates on the source
/// face, which `orientation` takes to `face`: the other way round.
pub open spec fn spec_source_face_coord(orientation: Orientation, face: Direction) -> CoordMap {
    let source = orientation.spec_source_face(face);
    let right = orientation.spec_reface(source.spec_right());
    let down = orientation.spec_reface(source.spec_down());
    CoordMap::spec_new(
        AxisMap::spec_along(right, face.spec_right(), face.spec_down()),
        AxisMap::spec_along(down, face.spec_right(), face.spec_down()),
    )
}

/// The UV axes of the source face arrive on `face` along the UV axes of
/// `face`, each along another one.
pub proof fn lemma_carried_plane(orientation: Orientation, face: Direction)
    requires
        orientation.wf(),
    ensures
        ({
            let source = orientation.spec_source_face(face);
            let right = orientation.spec_reface(source.spec_right());
            let down = orientation.spec_reface(source.spec_down());
            &&& orientation.spec_reface(source.spec_left()) == right.spec_invert()
            &&& orientation.spec_reface(source.spec_up()) == down.spec_invert()
            &&& right.spec_is_orthogonal_to(face)
            &&& down.spec_is_orthogonal_to(face)
            &&& right.spec_is_orthogonal_to(down)
            &&& AxisMapper::spec_is_pair(
                AxisMap::spec_along(face.spec_right(), right, down),
                AxisMap::spec_along(face.spec_down(), right, down),
            )
            &&& AxisMapper::spec_is_pair(
                AxisMap::spec_along(right, face.spec_right(), face.spec_down()),
                AxisMap::spec_along(down, face.spec_right(), face.spec_down()),
            )
        }),
{
    let source = orientation.spec_source_face(face);
    let right = orientation.spec_reface(source.spec_right());
    let down = orientation.spec_reface(source.spec_down());
    lemma_source_face_inverse(orientation, face);
    lemma_neighbours(face, right);
    lemma_neighbours(face, down);
    lemma_reface_invert(orientation, source.spec_right());
    lemma_reface_invert(orientation, source.spec_down());
    lemma_reface_orthogonal(orientation, source.spec_right(), source);
    lemma_reface_orthogonal(orientation, source.spec_down(), source);
    lemma_reface_orthogonal(orientation, source.spec_right(), source.spec_down());
}

/// The map to a face and the map back to its source face undo each other,
/// for every orientation, every face and every UV coordinate.
pub proof fn lemma_coord_maps_inverse(orientation: Orientation, face: Direction, uv: (int, int))
    requires
        orientation.wf(),
    ensures
        spec_map_face_coord(orientation, face).spec_map(
            spec_source_face_coord(orientation, face).spec_map(uv),
        ) == uv,
        spec_source_face_coord(orientation, face).spec_map(
            spec_map_face_coord(orientation, face).spec_map(uv),
        ) == uv,
{
    lemma_carried_plane(orientation, face);
    let source = orientation.spec_source_face(face);
    let right = orientation.spec_reface(source.spec_right());
    let down = orientation.spec_reface(source.spec_down());
    lemma_neighbours(face, right);
    lemma_neighbours(face, down);
}

/// The point of the plane of `face` that has the UV coordinate `uv`, as a
/// vector from the middle of the face: `uv.0` towards the right neighbour
/// of the face and `uv.1` towards its lower neighbour.
pub open spec fn spec_place(face: Direction, uv: (int, int)) -> (int, int, int) {
    spec_sum(spec_along(face.spec_right(), uv.0), spec_along(face.spec_down(), uv.1))
}

/// The components of a point of the plane of a face along the six
/// directions.
proof fn lemma_place(face: Direction, uv: (int, int))
    ensures
        spec_component(spec_place(face, uv), face) == 0,
        spec_component(spec_place(face, uv), face.spec_invert()) == 0,
        spec_component(spec_place(face, uv), face.spec_right()) == uv.0,
        spec_component(spec_place(face, uv), face.spec_left()) == -uv.0,
        spec_component(spec_place(face, uv), face.spec_down()) == uv.1,
        spec_component(spec_place(face, uv), face.spec_up()) == -uv.1,
{
}

/// The point of the source face at `uv` goes to the point of `face` at
/// the image of `uv`.
proof fn lemma_map_follows_transform(orientation: Orientation, face: Direction, uv: (int, int))
    requires
        orientation.wf(),
    ensures
        orientation.spec_transform(spec_place(orientation.spec_source_face(face), uv))
            == spec_place(face, spec_map_face_coord(orientation, face).spec_map(uv)),
{
    let source = orientation.spec_source_face(face);
    let right = orientation.spec_reface(source.spec_right());
    let down = orientation.spec_reface(source.spec_down());
    let point = spec_place(source, uv);
    let image = spec_place(face, spec_map_face_coord(orientation, face).spec_map(uv));
    lemma_carried_plane(orientation, face);
    lemma_source_face_inverse(orientation, face);
    lemma_neighbours(face, right);
    lemma_neighbours(face, down);
    lemma_place(source, uv);
    lemma_place(face, spec_map_face_coord(orientation, face).spec_map(uv));
    // Along the face and along the images of the right and the lower
    // neighbour of the source face, the transformed point and the image
    // have the same components.
    lemma_transform(orientation, point, source);
    lemma_transform(orientation, point, source.spec_right());
    lemma_transform(orientation, point, source.spec_down());
    assert(spec_component(orientation.spec_transform(point), face) == 0);
    assert(spec_component(orientation.spec_transform(point), right) == uv.0);
    assert(spec_component(orientation.spec_transform(point), down) == uv.1);
    assert(spec_component(image, face) == 0);
    assert(spec_component(image, right) == uv.0);
    assert(spec_component(image, down) == uv.1);
    lemma_components_determine(orientation.spec_transform(point), image, face, right, down);
}

/// The maps of UV coordinates say where the points of a face go: the
/// point of the source face at `uv` goes to the point of `face` at the
/// image of `uv`, and the point of `face` at `uv` comes from the point of
/// the source face at the image of `uv` under the map back.
pub proof fn lemma_coord_maps_follow_transform(
    orientation: Orientation,
    face: Direction,
    uv: (int, int),
)
    requires
        orientation.wf(),
    ensures
        orientation.spec_transform(spec_place(orientation.spec_source_face(face), uv))
            == spec_place(face, spec_map_face_coord(orientation, face).spec_map(uv)),
        orientation.spec_transform(
            spec_place(
                orientation.spec_source_face(face),
                spec_source_face_coord(orientation, face).spec_map(uv),
            ),
        ) == spec_place(face, uv),
{
    lemma_map_follows_transform(orientation, face, uv);
    lemma_coord_maps_inverse(orientation, face, uv);
    lemma_map_follows_transform(
        orientation,
        face,
        spec_source_face_coord(orientation, face).spec_map(uv),
    );
}

/// Two points with the same components along three directions, each
/// orthogonal to the two others, are the same point.
proof fn lemma_components_determine(
    a: (int, int, int),
    b: (int, int, int),
    d1: Direction,
    d2: Direction,
    d3: Direction,
)
    requires
        d1.spec_is_orthogonal_to(d2),
        d2.spec_is_orthogonal_to(d3),
        d3.spec_is_orthogonal_to(d1),
        spec_component(a, d1) == spec_component(b, d1),
        spec_component(a, d2) == spec_component(b, d2),
        spec_component(a, d3) == spec_component(b, d3),
    ensures
        a == b,
{
}

/// Work out the map from UV coordinates on the source face to UV
/// coordinates on `face` from where `orientation` takes the neighbours of
/// the source face.
pub fn map_face_coord_naive(orientation: Orientation, face: Direction) -> (res: CoordMap)
    ensures
        res == spec_map_face_coord(orientation, face),
{
    let source_face = orientation.source_face(face);
    let face_up = face.up();
    let face_right = face.right();
    let src_up = source_face.up();
    let src_right = source_face.right();
    let src_down = source_face.down();
    let src_left = source_face.left();
    let rsrc_up = orientation.reface(src_up);
    let rsrc_right = orientation.reface(src_right);
    let rsrc_down = orientation.reface(src_down);
    let rsrc_left = orientation.reface(src_left);
    proof {
        use_type_invariant(&orientation);
        lemma_carried_plane(orientation, face);
        lemma_neighbours(face, rsrc_right);
        lemma_neighbours(face, rsrc_down);
    }
    // The right and upper neighbours are compared, since the signs of the
    // two axes do not depend on each other.
    let x_map = if face_right == rsrc_right {
        AxisMap::PosX
    } else if face_right == rsrc_up {
        AxisMap::NegY
    } else if face_right == rsrc_left {
        AxisMap::NegX
    } else {
        AxisMap::PosY
    };
    let y_map = if face_up == rsrc_up {
        AxisMap::PosY
    } else if face_up == rsrc_left {
        AxisMap::PosX
    } else if face_up == rsrc_down {
        AxisMap::NegY
    } else {
        AxisMap::NegX
    };
    CoordMap::new(x_map, y_map)
}

/// Work out the map from UV coordinates on `face` to UV coordinates on the
/// source face from where `orientation` takes the neighbours of the source
/// face.
pub fn source_face_coord_naive(orientation: Orientation, face: Direction) -> (res: CoordMap)
    ensures
        res == spec_source_face_coord(orientation, face),
{
    let source_face = orientation.source_face(face);
    let src_up = source_face.up();
    let src_right = source_face.right();
    let face_up = face.up();
    let face_right = face.right();
    let face_down = face.down();
    let face_left = face.left();
    let rsrc_up = orientation.reface(src_up);
    let rsrc_right = orientation.reface(src_right);
    proof {
        use_type_invariant(&orientation);
        lemma_carried_plane(orientation, face);
        lemma_neighbours(face, rsrc_right);
        lemma_neighbours(face, rsrc_up);
    }
    let x_map = if rsrc_right == face_right {
        AxisMap::PosX
    } else if rsrc_right == face_down {
        AxisMap::PosY
    } else if rsrc_right == face_left {
        AxisMap::NegX
    } else {
        AxisMap::NegY
    };
    let y_map = if rsrc_up == face_up {
        AxisMap::PosY
    } else if rsrc_up == face_right {
        AxisMap::NegX
    } else if rsrc_up == face_down {
        AxisMap::NegY
    } else {
        AxisMap::PosX
    };
    CoordMap::new(x_map, y_map)
}

/// A table of one map for every flip, rotation and face: 1152 maps, the
/// one for a flip, a rotation and a face at 144 times the packed flip, plus
/// 6 times the packed rotation, plus the rotation index of the face.
pub struct CoordMapTable {
    table: [CoordMap; 1152],
}

impl CoordMapTable {
    /// The maps of the table, in order.
    pub closed spec fn spec_entries(self) -> Seq<CoordMap> {
        self.table@
    }

    /// The place of the map for `flip`, `rotation` and `face`.
    pub open spec fn spec_table_index(rotation: Rotation, flip: Flip, face: Direction) -> int {
        flip.spec_bits() * 144 + rotation.spec_index() * 6 + face.spec_rotation_index()
    }

    /// The map for `flip`, `rotation` and `face`.
    pub open spec fn spec_get(self, rotation: Rotation, flip: Flip, face: Direction) -> CoordMap {
        self.spec_entries()[Self::spec_table_index(rotation, flip, face)]
    }

    /// The orientation whose maps stand in the six places from
    /// `index - index % 6`.
    pub open spec fn spec_orientation_at(index: int) -> Orientation {
        Orientation::spec_new(
            Rotation::spec_from_index((index / 6) % 24),
            Flip::spec_from_bits(index / 144),
        )
    }

    /// The face whose map stands at place `index`.
    pub open spec fn spec_face_at(index: int) -> Direction {
        Direction::spec_from_rotation_index(index % 6)
    }

    /// Whether the table holds, for every orientation and face, the map
    /// from the source face to the face.
    pub open spec fn spec_is_map_face_coord_table(self) -> bool {
        forall|index: int|
            0 <= index < 1152 ==> #[trigger] self.spec_entries()[index] == spec_map_face_coord(
                Self::spec_orientation_at(index),
                Self::spec_face_at(index),
            )
    }

    /// Whether the table holds, for every orientation and face, the map
    /// from the face to the source face.
    pub open spec fn spec_is_source_face_coord_table(self) -> bool {
        forall|index: int|
            0 <= index < 1152 ==> #[trigger] self.spec_entries()[index] == spec_source_face_coord(
                Self::spec_orientation_at(index),
                Self::spec_face_at(index),
            )
    }

    /// A table of the given maps.
    #[inline]
    pub fn new(table: [CoordMap; 1152]) -> (res: CoordMapTable)
        ensures
            res.spec_entries() == table@,
    {
        CoordMapTable { table }
    }

    /// The place of the map for `flip`, `rotation` and `face`.
    #[inline(always)]
    pub fn table_index(rotation: Rotation, flip: Flip, face: Direction) -> (res: usize)
        ensures
            res as int == Self::spec_table_index(rotation, flip, face),
            res < 1152,
            Self::spec_orientation_at(res as int) == Orientation::spec_new(rotation, flip),
            Self::spec_face_at(res as int) == face,
    {
        let flip_bits = flip.to_u8() as usize;
        let rot = rotation.to_u8() as usize;
        let face_index = face.rotation_discriminant() as usize;
        proof {
            lemma_flip_bits(flip, flip);
            lemma_from_index(rot as int);
            let index = flip_bits * 144 + rot * 6 + face_index;
            assert(index / 144 == flip_bits && (index / 6) % 24 == rot && index % 6 == face_index);
        }
        flip_bits * 144 + rot * 6 + face_index
    }

    /// The map for `flip`, `rotation` and `face`.
    #[inline(always)]
    pub fn get(&self, rotation: Rotation, flip: Flip, face: Direction) -> (res: CoordMap)
        ensures
            res == self.spec_get(rotation, flip, face),
            self.spec_is_map_face_coord_table() ==> res == spec_map_face_coord(
                Orientation::spec_new(rotation, flip),
                face,
            ),
            self.spec_is_source_face_coord_table() ==> res == spec_source_face_coord(
                Orientation::spec_new(rotation, flip),
                face,
            ),
    {
        self.table[Self::table_index(rotation, flip, face)]
    }

    /// The table of the maps from source faces to faces, worked out anew
    /// for all 1152 places.
    pub fn map_face_coord_table() -> (res: CoordMapTable)
        ensures
            res.spec_is_map_face_coord_table(),
    {
        let mut arr = [CoordMap::identity();1152];
        let mut index: usize = 0;
        let mut flip_i: u8 = 0;
        while flip_i < 8
            invariant
                flip_i <= 8,
                index == flip_i * 144,
                forall|k: int|
                    0 <= k < index ==> #[trigger] arr@[k] == spec_map_face_coord(
                        Self::spec_orientation_at(k),
                        Self::spec_face_at(k),
                    ),
            decreases 8 - flip_i,
        {
            let mut rot_i: u8 = 0;
            while rot_i < 24
                invariant
                    flip_i < 8,
                    rot_i <= 24,
                    index == flip_i * 144 + rot_i * 6,
                    forall|k: int|
                        0 <= k < index ==> #[trigger] arr@[k] == spec_map_face_coord(
                            Self::spec_orientation_at(k),
                            Self::spec_face_at(k),
                        ),
                decreases 24 - rot_i,
            {
                let orientation = Orientation::new(
                    Rotation::from_u8_unchecked(rot_i),
                    Flip::from_u8_unchecked(flip_i),
                );
                let mut dir_i: u8 = 0;
                while dir_i < 6
                    invariant
                        flip_i < 8,
                        rot_i < 24,
                        dir_i <= 6,
                        index == flip_i * 144 + rot_i * 6 + dir_i,
                        orientation == Orientation::spec_new(
                            Rotation::spec_from_index(rot_i as int),
                            Flip::spec_from_bits(flip_i as int),
                        ),
                        forall|k: int|
                            0 <= k < index ==> #[trigger] arr@[k] == spec_map_face_coord(
                                Self::spec_orientation_at(k),
                                Self::spec_face_at(k),
                            ),
                    decreases 6 - dir_i,
                {
                    let face = match Direction::from_rotation_discriminant(dir_i) {
                        Some(face) => face,
                        None => vstd::pervasive::unreached(),
                    };
                    arr[index] = map_face_coord_naive(orientation, face);
                    index += 1;
                    dir_i += 1;
                }
                rot_i += 1;
            }
            flip_i += 1;
        }
        CoordMapTable { table: arr }
    }

    /// The table of the maps from faces to source faces, worked out anew
    /// for all 1152 places.
    pub fn source_face_coord_table() -> (res: CoordMapTable)
        ensures
            res.spec_is_source_face_coord_table(),
    {
        let mut arr = [CoordMap::identity();1152];
        let mut index: usize = 0;
        let mut flip_i: u8 = 0;
        while flip_i < 8
            invariant
                flip_i <= 8,
                index == flip_i * 144,
                forall|k: int|
                    0 <= k < index ==> #[trigger] arr@[k] == spec_source_face_coord(
                        Self::spec_orientation_at(k),
                        Self::spec_face_at(k),
                    ),
            decreases 8 - flip_i,
        {
            let mut rot_i: u8 = 0;
            while rot_i < 24
                invariant
                    flip_i < 8,
                    rot_i <= 24,
                    index == flip_i * 144 + rot_i * 6,
                    forall|k: int|
                        0 <= k < index ==> #[trigger] arr@[k] == spec_source_face_coord(
                            Self::spec_orientation_at(k),
                            Self::spec_face_at(k),
                        ),
                decreases 24 - rot_i,
            {
                let orientation = Orientation::new(
                    Rotation::from_u8_unchecked(rot_i),
                    Flip::from_u8_unchecked(flip_i),
                );
                let mut dir_i: u8 = 0;
                while dir_i < 6
                    invariant
                        flip_i < 8,
                        rot_i < 24,
                        dir_i <= 6,
                        index == flip_i * 144 + rot_i * 6 + dir_i,
                        orientation == Orientation::spec_new(
                            Rotation::spec_from_index(rot_i as int),
                            Flip::spec_from_bits(flip_i as int),
                        ),
                        forall|k: int|
                            0 <= k < index ==> #[trigger] arr@[k] == spec_source_face_coord(
                                Self::spec_orientation_at(k),
                                Self::spec_face_at(k),
                            ),
                    decreases 6 - dir_i,
                {
                    let face = match Direction::from_rotation_discriminant(dir_i) {
                        Some(face) => face,
                        None => vstd::pervasive::unreached(),
                    };
                    arr[index] = source_face_coord_naive(orientation, face);
                    index += 1;
                    dir_i += 1;
                }
                rot_i += 1;
            }
            flip_i += 1;
        }
        CoordMapTable { table: arr }
    }
}

} // verus!
