use mfgeometry::{Axis, Direction, Flip, Pol, Rotation};

#[test]
fn direction_invert_twice_is_identity() {
    for d in Direction::iter() {
        assert_eq!(d.invert().invert(), d);
        assert_ne!(d.invert(), d);
        assert_eq!(d.invert().axis(), d.axis());
        assert_eq!(-d, d.invert());
    }
    assert_eq!(Direction::NegX.invert(), Direction::PosX);
    assert_eq!(Direction::PosY.invert(), Direction::NegY);
    assert_eq!(Direction::PosZ.invert(), Direction::NegZ);
}

#[test]
fn direction_rotation_index_is_fixed() {
    assert_eq!(Direction::PosY.rotation_discriminant(), 0);
    assert_eq!(Direction::PosX.rotation_discriminant(), 1);
    assert_eq!(Direction::PosZ.rotation_discriminant(), 2);
    assert_eq!(Direction::NegY.rotation_discriminant(), 3);
    assert_eq!(Direction::NegX.rotation_discriminant(), 4);
    assert_eq!(Direction::NegZ.rotation_discriminant(), 5);
    for d in Direction::iter() {
        assert_eq!(d.discriminant(), d.rotation_discriminant());
        assert_eq!(d.bit(), 1u8 << d.rotation_discriminant());
        assert_eq!(Direction::from_rotation_discriminant(d.rotation_discriminant()), Some(d));
    }
    assert_eq!(Direction::from_rotation_discriminant(6), None);
    assert_eq!(Direction::from_rotation_discriminant(255), None);
    assert_eq!(Direction::NegZ.bit(), 32);
}

#[test]
fn direction_orders() {
    assert_eq!(
        Direction::iter(),
        [
            Direction::NegX,
            Direction::NegY,
            Direction::NegZ,
            Direction::PosX,
            Direction::PosY,
            Direction::PosZ
        ]
    );
    assert_eq!(Direction::iter(), Direction::ALL);
    assert_eq!(Direction::iter_discriminant_order(), Direction::INDEX_ORDER);
    for (index, d) in Direction::iter_discriminant_order().into_iter().enumerate() {
        assert_eq!(d.rotation_discriminant() as usize, index);
    }
    assert_eq!(
        Direction::FLOOD,
        [
            Direction::PosY,
            Direction::NegY,
            Direction::PosX,
            Direction::NegX,
            Direction::PosZ,
            Direction::NegZ
        ]
    );
    assert_eq!(Direction::UP, Direction::PosY);
    assert_eq!(Direction::NORTH, Direction::FORWARD);
    assert_eq!(Direction::EAST, Direction::RIGHT);
    assert_eq!(Direction::SOUTH, Direction::BACKWARD);
    assert_eq!(Direction::WEST, Direction::LEFT);
    assert_eq!(Direction::DOWN, Direction::NegY);
}

#[test]
fn direction_neighbours() {
    assert_eq!(Direction::PosY.up(), Direction::NegZ);
    assert_eq!(Direction::PosY.left(), Direction::NegX);
    assert_eq!(Direction::NegY.up(), Direction::PosZ);
    assert_eq!(Direction::PosX.right(), Direction::NegZ);
    assert_eq!(Direction::NegX.left(), Direction::NegZ);
    for d in Direction::iter() {
        assert_eq!(d.down(), d.up().invert());
        assert_eq!(d.right(), d.left().invert());
        for n in [d.up(), d.left(), d.down(), d.right()] {
            assert!(d.is_orthogonal_to(n));
        }
        assert!(d.up().is_orthogonal_to(d.left()));
        assert!(!d.is_orthogonal_to(d));
        assert!(!d.is_orthogonal_to(d.invert()));
    }
}

#[test]
fn direction_neighbours_at_angle() {
    for d in Direction::iter() {
        let ring = [d.up(), d.left(), d.down(), d.right()];
        for angle in -9i32..10 {
            let turns = angle.rem_euclid(4) as usize;
            assert_eq!(d.up_at_angle(angle), ring[turns]);
            assert_eq!(d.left_at_angle(angle), ring[(turns + 1) % 4]);
            assert_eq!(d.down_at_angle(angle), ring[(turns + 2) % 4]);
            assert_eq!(d.right_at_angle(angle), ring[(turns + 3) % 4]);
        }
        assert_eq!(d.up_at_angle(i32::MIN), d.up());
        assert_eq!(d.up_at_angle(i32::MAX), d.right());
    }
    assert_eq!(Direction::PosX.up_at_angle(1), Direction::PosZ);
    assert_eq!(Direction::PosY.up_at_angle(-1), Direction::PosX);
}

#[test]
fn direction_axis_and_polarity() {
    for d in Direction::iter() {
        assert_eq!(Direction::from_polar_axis(d.polarity(), d.axis()), d);
        assert_eq!(d.polarity().with_axis(d.axis()), d);
        assert_eq!(d.axis().pos().axis(), d.axis());
        assert_eq!(d.axis().neg(), d.axis().pos().invert());
    }
    assert_eq!(Direction::NegZ.axis(), Axis::Z);
    assert_eq!(Direction::NegZ.polarity(), Pol::Neg);
    assert_eq!(Axis::X.pos(), Direction::PosX);
    assert_eq!(Axis::Y.neg(), Direction::NegY);
    assert_eq!(Pol::Neg.x(), Direction::NegX);
    assert_eq!(Pol::Pos.y(), Direction::PosY);
    assert_eq!(Pol::Pos.z(), Direction::PosZ);
    assert_eq!(Pol::Neg.as_u8(), 0);
    assert_eq!(Pol::Pos.as_u8(), 1);
    assert!(Pol::Neg.is_neg() && !Pol::Neg.is_pos());
    assert!(Pol::Pos.is_pos() && !Pol::Pos.is_neg());
    assert_eq!(Pol::Neg.invert(), Pol::Pos);
    assert_eq!(Pol::Pos.invert().invert(), Pol::Pos);
    assert_eq!(Pol::default(), Pol::Neg);
}

#[test]
fn direction_flip_and_rotate() {
    assert_eq!(Direction::PosX.flip(Flip::X), Direction::NegX);
    assert_eq!(Direction::PosX.flip(Flip::YZ), Direction::PosX);
    assert_eq!(Direction::NegZ.flip(Flip::XYZ), Direction::PosZ);
    for d in Direction::iter() {
        assert_eq!(d.flip(Flip::NONE), d);
        assert_eq!(d.flip(Flip::XYZ), d.invert());
        for f in Flip::iter() {
            assert_eq!(d.flip(f).flip(f), d);
            assert_eq!(d.flip(f) != d, f.is_flipped(d));
        }
        for r in 0..24 {
            let rotation = Rotation::from_u8(r).unwrap();
            assert_eq!(d.rotate(rotation), rotation.reface(d));
        }
    }
}

#[test]
fn direction_unit_vectors_and_names() {
    assert_eq!(Direction::NegX.to_ituple(), (-1, 0, 0));
    assert_eq!(Direction::NegY.to_ituple(), (0, -1, 0));
    assert_eq!(Direction::NegZ.to_ituple(), (0, 0, -1));
    assert_eq!(Direction::PosX.to_ituple(), (1, 0, 0));
    assert_eq!(Direction::PosY.to_ituple(), (0, 1, 0));
    assert_eq!(Direction::PosZ.to_ituple(), (0, 0, 1));
    for d in Direction::iter() {
        let (x, y, z) = d.to_ituple();
        assert_eq!(d.to_iarray(), [x, y, z]);
        let tuple: (i32, i32, i32) = d.into();
        assert_eq!(tuple, (x, y, z));
        assert_eq!(d.name(), format!("{:?}", d));
    }
    assert_eq!(Direction::NegX.name(), "NegX");
    assert_eq!(Direction::PosZ.name(), "PosZ");
}
