use mfgeometry::orient_table::{
    map_face_coord_naive, source_face_coord_naive, AxisMap, AxisMapper, CoordMap, CoordMapTable,
};
use mfgeometry::{Direction, Flip, Orientation, Rotation};

const MAPPERS: [AxisMapper; 8] = [
    AxisMapper::PosXPosY,
    AxisMapper::NegXPosY,
    AxisMapper::PosXNegY,
    AxisMapper::NegXNegY,
    AxisMapper::PosYPosX,
    AxisMapper::NegYPosX,
    AxisMapper::PosYNegX,
    AxisMapper::NegYNegX,
];

#[test]
fn map_and_source_coords_undo_each_other() {
    for bits in 0u8..192 {
        let o = Orientation::from_u8(bits).unwrap();
        for face in Direction::iter() {
            for uv in [(0i32, 0i32), (1, 0), (0, 1), (3, -5)] {
                assert_eq!(o.map_face_coord(face, o.source_face_coord(face, uv)), uv);
                assert_eq!(o.source_face_coord(face, o.map_face_coord(face, uv)), uv);
            }
        }
    }
}

#[test]
fn coord_maps_of_the_identity_change_nothing() {
    for face in Direction::iter() {
        assert_eq!(map_face_coord_naive(Orientation::unoriented(), face), CoordMap::identity());
        assert_eq!(source_face_coord_naive(Orientation::unoriented(), face), CoordMap::identity());
        assert_eq!(Orientation::unoriented().map_face_coord(face, (3i32, -5i32)), (3, -5));
    }
}

#[test]
fn coord_map_examples() {
    let quarter = Rotation::new(Direction::PosY, 1).orientation();
    assert_eq!(map_face_coord_naive(quarter, Direction::PosY).mapper, AxisMapper::PosYNegX);
    assert_eq!(source_face_coord_naive(quarter, Direction::PosY).mapper, AxisMapper::NegYPosX);
    assert_eq!(map_face_coord_naive(quarter, Direction::PosX).mapper, AxisMapper::PosXPosY);
    assert_eq!(quarter.map_face_coord(Direction::PosY, (3i32, -5i32)), (-5, -3));
    assert_eq!(quarter.source_face_coord(Direction::PosY, (-5i32, -3i32)), (3, -5));
    let o = Orientation::new(Rotation::from_u8(17).unwrap(), Flip::XY);
    assert_eq!(map_face_coord_naive(o, Direction::NegZ).mapper, AxisMapper::PosYNegX);
    assert_eq!(source_face_coord_naive(o, Direction::NegZ).mapper, AxisMapper::NegYPosX);
    let o = Orientation::from_u8(45).unwrap();
    assert_eq!(map_face_coord_naive(o, Direction::PosY).mapper, AxisMapper::PosYNegX);
    assert_eq!(source_face_coord_naive(o, Direction::PosY).mapper, AxisMapper::NegYPosX);
}

#[test]
fn coord_map_follows_the_transform() {
    // A point of a face, given by its UV coordinate there: U runs to the
    // right neighbour of the face, V to the lower one.
    fn place(face: Direction, uv: (i32, i32)) -> (i32, i32, i32) {
        let n = face.to_ituple();
        let r = face.right().to_ituple();
        let d = face.down().to_ituple();
        (
            n.0 * 100 + r.0 * uv.0 + d.0 * uv.1,
            n.1 * 100 + r.1 * uv.0 + d.1 * uv.1,
            n.2 * 100 + r.2 * uv.0 + d.2 * uv.1,
        )
    }
    for bits in 0u8..192 {
        let o = Orientation::from_u8(bits).unwrap();
        for face in Direction::iter() {
            let source = o.source_face(face);
            let uv = (3, -5);
            assert_eq!(o.transform(place(source, uv)), place(face, o.map_face_coord(face, uv)));
            assert_eq!(o.transform(place(source, o.source_face_coord(face, uv))), place(face, uv));
        }
    }
}

#[test]
fn coord_map_tables_hold_the_naive_maps() {
    let map_table = CoordMapTable::map_face_coord_table();
    let source_table = CoordMapTable::source_face_coord_table();
    let mut place = 0usize;
    for flip in Flip::iter() {
        for index in 0u8..24 {
            let rotation = Rotation::from_u8(index).unwrap();
            let o = Orientation::new(rotation, flip);
            for face in Direction::iter_discriminant_order() {
                assert_eq!(CoordMapTable::table_index(rotation, flip, face), place);
                assert_eq!(map_table.get(rotation, flip, face), map_face_coord_naive(o, face));
                assert_eq!(source_table.get(rotation, flip, face), source_face_coord_naive(o, face));
                place += 1;
            }
        }
    }
    assert_eq!(place, 1152);
    assert_eq!(
        CoordMapTable::table_index(Rotation::from_u8(5).unwrap(), Flip::XZ, Direction::NegX),
        5 * 144 + 5 * 6 + 4
    );
    let identity = CoordMapTable::new([CoordMap::identity(); 1152]);
    assert_eq!(
        identity.get(Rotation::max_value(), Flip::XYZ, Direction::NegZ),
        CoordMap::identity()
    );
}

#[test]
fn axis_mapper_pairs() {
    for mapper in MAPPERS {
        let (x, y) = mapper.to_pair();
        assert_eq!(mapper.x(), x);
        assert_eq!(mapper.y(), y);
        assert_eq!(AxisMapper::from_pair(x, y), mapper);
        let map = CoordMap::new(x, y);
        assert_eq!(map.mapper, mapper);
        assert_eq!(map.x(), x);
        assert_eq!(map.y(), y);
    }
    assert_eq!(AxisMapper::NegYPosX.to_pair(), (AxisMap::NegY, AxisMap::PosX));
    assert_eq!(AxisMapper::from_pair(AxisMap::PosY, AxisMap::NegX), AxisMapper::PosYNegX);
    assert_eq!(CoordMap::identity().mapper, AxisMapper::PosXPosY);
}

#[test]
fn coord_map_formulas() {
    let uv = (3i32, -5i32);
    let expected = [(3, -5), (-3, -5), (3, 5), (-3, 5), (-5, 3), (5, 3), (-5, -3), (5, -3)];
    for (mapper, image) in MAPPERS.into_iter().zip(expected) {
        let map = CoordMap { mapper };
        assert_eq!(map.map(uv), image);
        assert_eq!(map.map((3i8, -5i8)), (image.0 as i8, image.1 as i8));
        assert_eq!(map.map((3i128, -5i128)), (image.0 as i128, image.1 as i128));
        assert_eq!(map.map((3isize, -5isize)), (image.0 as isize, image.1 as isize));
        let mut many = [(3i32, -5i32), (0, 0), (1, 2), (-7, 7)];
        map.map_many(&mut many);
        assert_eq!(many[0], image);
        assert_eq!(many[1], (0, 0));
        assert_eq!(many[2], map.map((1, 2)));
        assert_eq!(many[3], map.map((-7, 7)));
        let mut none: [(i32, i32); 0] = [];
        map.map_many(&mut none);
    }
    assert_eq!(CoordMap { mapper: AxisMapper::PosYPosX }.map((i16::MIN, i16::MAX)), (i16::MAX, i16::MIN));
}
