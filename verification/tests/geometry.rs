use mfgeometry::orientation::RotationFirstOrientationIterator;
use mfgeometry::{Direction, Flip, Orientation, Rotation};

#[test]
fn orientation_test() {
    for up in Direction::iter() {
        let dir = up.name();
        let orient = Orientation::new(Rotation::new(up, 1), Flip::NONE);

        let orient_face = orient.rotation().up();
        assert_eq!(orient.forward(), orient_face.left(), "forward: {dir}");

        assert_eq!(
            orient.reface(Direction::FORWARD),
            orient_face.left(),
            "{dir}: Forward -> Left"
        );
        assert_eq!(
            orient.reface(Direction::LEFT),
            orient_face.down(),
            "{dir}: Left -> Down"
        );
        assert_eq!(
            orient.reface(Direction::BACKWARD),
            orient_face.right(),
            "{dir}: Back -> Right"
        );
        assert_eq!(
            orient.reface(Direction::RIGHT),
            orient_face.up(),
            "{dir}: Right -> Up"
        );
    }
}

// Another way to turn faces, from the neighbours of the `up` face alone.
fn rotate_world(up: Direction, angle: i32, world: Direction) -> Direction {
    match world {
        Direction::NegX => up.left_at_angle(angle),
        Direction::NegY => up.invert(),
        Direction::NegZ => up.up_at_angle(angle),
        Direction::PosX => up.right_at_angle(angle),
        Direction::PosY => up,
        Direction::PosZ => up.down_at_angle(angle),
    }
}

#[test]
fn orientation_query_test() {
    for angle in 0..4 {
        for up_face in Direction::iter() {
            for world_face in Direction::iter() {
                let rotation = Rotation::new(up_face, angle);
                let rot_world = rotation.reface(world_face);
                let rot_world_alt = rotate_world(up_face, angle, world_face);
                let up = up_face.name();
                let world = world_face.name();
                assert_eq!(
                    rot_world, rot_world_alt,
                    "(rot: [up: {up}, angle: {angle}], world: {world})"
                );
            }
        }
    }
}

#[test]
fn reface_sourceface_symmetry_test() {
    let start_time = std::time::Instant::now();
    for angle in 0..4 {
        for up in Direction::iter() {
            let rotation = Rotation::new(up, angle);
            for world in Direction::iter() {
                let refaced = rotation.reface(world);
                let source = rotation.source_face(refaced);
                assert_eq!(source, world);
            }
        }
    }
    let elapsed = start_time.elapsed();
    println!("Elapsed Time: {elapsed:.3?}");
}

#[test]
fn transform_coord_test() {
    for flip in 0..8 {
        let flip = Flip::from_u8(flip).unwrap();
        for angle in 0..4 {
            for up in Direction::iter() {
                let oriented = Orientation::new(Rotation::new(up, angle), flip);
                let orientation = oriented.to_text();
                for side in Direction::iter() {
                    let face = side.name();
                    let reface = oriented.reface(side);
                    let face_coord = side.to_ituple();
                    let reface_coord = reface.to_ituple();
                    let trans_face_coord = oriented.transform(face_coord);
                    assert_eq!(reface_coord, trans_face_coord, "{orientation} -> {face}");
                }
            }
        }
    }
}

#[test]
fn rotation_first_order_test() {
    let ordered = Orientation::rotation_ordered();
    let mut walk = RotationFirstOrientationIterator::new();
    for lhs in ordered.iter().copied() {
        let rhs = walk.next().unwrap();
        assert_eq!(lhs, rhs);
    }
    assert_eq!(ordered.len(), 192);
    assert_eq!(walk.next(), None);
}
