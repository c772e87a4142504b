use mfgeometry::rotation::RotationIterator;
use mfgeometry::{Direction, Flip, Orientation, Rotation};

fn all_rotations() -> Vec<Rotation> {
    (0u8..24).map(|index| Rotation::from_u8(index).unwrap()).collect()
}

#[test]
fn rotation_packing() {
    for up in Direction::iter() {
        for angle in -8i32..9 {
            let rotation = Rotation::new(up, angle);
            let turns = angle.rem_euclid(4);
            assert_eq!(rotation.to_u8() as i32, up.rotation_discriminant() as i32 * 4 + turns);
            assert_eq!(rotation.up(), up);
            assert_eq!(rotation.angle(), turns);
            assert_eq!(rotation.down(), up.invert());
        }
        assert_eq!(Rotation::from_up(up), Rotation::new(up, 0));
        assert_eq!(Rotation::from(up), Rotation::new(up, 0));
    }
    assert_eq!(Rotation::new(Direction::PosX, 1).to_u8(), 5);
    assert_eq!(Rotation::new(Direction::NegZ, 3).to_u8(), 23);
    assert_eq!(Rotation::new(Direction::PosY, -1).to_u8(), 3);
    assert_eq!(Rotation::unrotated().to_u8(), 0);
    assert_eq!(Rotation::unrotated(), Rotation::new(Direction::PosY, 0));
    assert_eq!(Rotation::default(), Rotation::unrotated());
    assert_eq!(Rotation::min_value().to_u8(), 0);
    assert_eq!(Rotation::max_value().to_u8(), 23);
    assert_eq!(Rotation::neg_x(1), Rotation::new(Direction::NegX, 1));
    assert_eq!(Rotation::neg_y(2), Rotation::new(Direction::NegY, 2));
    assert_eq!(Rotation::neg_z(3), Rotation::new(Direction::NegZ, 3));
    assert_eq!(Rotation::pos_x(4), Rotation::new(Direction::PosX, 0));
    assert_eq!(Rotation::pos_y(5), Rotation::new(Direction::PosY, 1));
    assert_eq!(Rotation::pos_z(-2), Rotation::new(Direction::PosZ, 2));
}

#[test]
fn rotation_from_u8_rejects_values_from_24() {
    for value in 0u8..24 {
        let rotation = Rotation::from_u8(value).unwrap();
        assert_eq!(rotation.to_u8(), value);
        assert_eq!(Rotation::from_u8_unchecked(value), rotation);
    }
    for value in 24u8..=255 {
        assert_eq!(Rotation::from_u8(value), None);
    }
}

#[test]
fn rotation_reface_and_source_face_undo_each_other() {
    for rotation in all_rotations() {
        for d in Direction::iter() {
            assert_eq!(rotation.source_face(rotation.reface(d)), d);
            assert_eq!(rotation.reface(rotation.source_face(d)), d);
            assert_eq!(rotation.reface(d.invert()), rotation.reface(d).invert());
        }
        assert_eq!(rotation.reface(Direction::PosY), rotation.up());
        assert_eq!(rotation.reface(Direction::NegY), rotation.down());
        assert_eq!(rotation.reface(Direction::NegX), rotation.left());
        assert_eq!(rotation.reface(Direction::PosX), rotation.right());
        assert_eq!(rotation.reface(Direction::NegZ), rotation.forward());
        assert_eq!(rotation.reface(Direction::PosZ), rotation.backward());
    }
    let rotation = Rotation::new(Direction::PosX, 1);
    assert_eq!(rotation.forward(), Direction::PosZ);
    assert_eq!(rotation.right(), Direction::PosY);
    assert_eq!(rotation.left(), Direction::NegY);
    assert_eq!(rotation.source_face(Direction::PosY), Direction::PosX);
}

#[test]
fn rotation_from_up_and_forward() {
    let mut found = 0;
    let mut absent = 0;
    for up in Direction::iter() {
        for forward in Direction::iter() {
            match Rotation::from_up_and_forward(up, forward) {
                Some(rotation) => {
                    found += 1;
                    assert!(up.is_orthogonal_to(forward));
                    assert_eq!(rotation.up(), up);
                    assert_eq!(rotation.forward(), forward);
                }
                None => {
                    absent += 1;
                    assert!(forward == up || forward == up.invert());
                }
            }
        }
    }
    assert_eq!(found, 24);
    assert_eq!(absent, 12);
    for rotation in all_rotations() {
        assert_eq!(Rotation::from_up_and_forward(rotation.up(), rotation.forward()), Some(rotation));
    }
    assert_eq!(
        Rotation::from_up_and_forward(Direction::PosY, Direction::NegZ),
        Some(Rotation::unrotated())
    );
    assert_eq!(
        Rotation::from_up_and_forward(Direction::PosX, Direction::NegZ),
        Some(Rotation::new(Direction::PosX, 3))
    );
    assert_eq!(Rotation::from_up_and_forward(Direction::PosY, Direction::PosY), None);
    assert_eq!(Rotation::from_up_and_forward(Direction::PosY, Direction::NegY), None);
}

#[test]
fn rotation_group_laws() {
    let unrotated = Rotation::unrotated();
    for a in all_rotations() {
        assert_eq!(a.reorient(a.invert()), unrotated);
        assert_eq!(a.invert().reorient(a), unrotated);
        assert_eq!(a.invert().invert(), a);
        assert_eq!(a.invert(), unrotated.deorient(a));
        assert_eq!(a.reorient(unrotated), a);
        assert_eq!(unrotated.reorient(a), a);
        for b in all_rotations() {
            assert_eq!(a.reorient(b).deorient(b), a);
            assert_eq!(a.deorient(b).reorient(b), a);
            assert_eq!(a.deorient(b), a.reorient(b.invert()));
            for d in Direction::iter() {
                assert_eq!(a.reorient(b).reface(d), b.reface(a.reface(d)));
                assert_eq!(a.deorient(b).reface(d), b.source_face(a.reface(d)));
            }
        }
    }
    let a = Rotation::new(Direction::PosX, 1);
    let b = Rotation::new(Direction::NegZ, 2);
    let c = Rotation::new(Direction::PosZ, 3);
    assert_eq!(a.reorient(b).reorient(c), a.reorient(b.reorient(c)));
    assert_eq!(Rotation::new(Direction::PosZ, 0).invert().to_u8(), 22);
}

#[test]
fn rotation_generator_closes_after_four() {
    let generator = Rotation::new(Direction::PosX, 1);
    let angles = generator.angles();
    assert_eq!(angles[0], Rotation::unrotated());
    assert_eq!(angles[1], generator);
    assert_eq!(angles[2], generator.reorient(generator));
    assert_eq!(angles[3], generator.reorient(generator).reorient(generator));
    assert_eq!(angles[3].reorient(generator), Rotation::unrotated());
    // This generator is a half turn about a diagonal of a face, so it is
    // back at the start after two applications already.
    assert_eq!(angles[2], Rotation::unrotated());
    // The quarter turns about the faces close on the fourth application,
    // and not before.
    for face in Direction::iter() {
        let turn = Rotation::face_rotation(face, 1);
        let turns = turn.angles();
        assert_ne!(turns[1], Rotation::unrotated());
        assert_ne!(turns[2], Rotation::unrotated());
        assert_ne!(turns[3], Rotation::unrotated());
        assert_eq!(turns[3].reorient(turn), Rotation::unrotated());
    }
}

#[test]
fn rotation_face_rotations() {
    let packed = |turns: [Rotation; 4]| turns.map(Rotation::to_u8);
    assert_eq!(packed(Rotation::x_rotations()), [0, 8, 12, 22]);
    assert_eq!(packed(Rotation::y_rotations()), [0, 1, 2, 3]);
    assert_eq!(packed(Rotation::z_rotations()), [0, 17, 14, 7]);
    assert_eq!(Rotation::turn_x(), Rotation::new(Direction::PosZ, 0));
    assert_eq!(Rotation::turn_y(), Rotation::new(Direction::PosY, 1));
    assert_eq!(Rotation::turn_z(), Rotation::new(Direction::NegX, 1));
    assert_eq!(Rotation::turn_x_cw().to_u8(), 22);
    assert_eq!(Rotation::turn_y_cw().to_u8(), 3);
    assert_eq!(Rotation::turn_z_cw().to_u8(), 7);
    for face in Direction::iter() {
        for angle in -5i32..6 {
            let rotation = Rotation::face_rotation(face, angle);
            assert_eq!(rotation.reface(face), face);
            assert_eq!(rotation.reface(face.up()), face.up_at_angle(angle));
            assert_eq!(rotation.reface(face.left()), face.left_at_angle(angle));
            assert_eq!(Rotation::face_rotation(face.invert(), -angle), rotation);
            let start = Rotation::new(Direction::NegX, 3);
            assert_eq!(start.rotate_face(face, angle), start.reorient(rotation));
        }
        assert_eq!(Rotation::face_rotation(face, 0), Rotation::unrotated());
    }
    let start = Rotation::new(Direction::PosZ, 2);
    for angle in -4i32..5 {
        assert_eq!(start.rotate_x(angle), start.rotate_face(Direction::PosX, angle));
        assert_eq!(start.rotate_y(angle), start.rotate_face(Direction::PosY, angle));
        assert_eq!(start.rotate_z(angle), start.rotate_face(Direction::PosZ, angle));
    }
    assert_eq!(Rotation::unrotated().rotate_y(1).forward(), Direction::NegX);
}

#[test]
fn rotation_corner_rotations() {
    assert_eq!(Rotation::corner_rotation(1, 1, 1, 0), Rotation::unrotated());
    assert_eq!(Rotation::corner_rotation(1, 1, 1, 1).to_u8(), 9);
    assert_eq!(Rotation::corner_rotation(1, 1, 1, 2).to_u8(), 6);
    assert_eq!(Rotation::corner_rotation(0, 0, 0, 1).to_u8(), 6);
    assert_eq!(Rotation::corner_rotation(-3, -3, -3, 2).to_u8(), 9);
    assert_eq!(Rotation::corner_rotation(1, 0, 0, 1).to_u8(), 11);
    assert_eq!(Rotation::corner_rotation(0, 0, 1, 1).to_u8(), 21);
    assert_eq!(Rotation::corner_rotation(1, 0, 1, 1).to_u8(), 16);
    assert_eq!(Rotation::corner_rotation(0, 1, 0, 1).to_u8(), 23);
    assert_eq!(Rotation::corner_rotation(1, 1, 0, 1).to_u8(), 4);
    assert_eq!(Rotation::corner_rotation(0, 1, 1, 1).to_u8(), 18);
    assert_eq!(Rotation::corner_rotation(1, 1, 1, 3), Rotation::unrotated());
    assert_eq!(Rotation::corner_rotation(1, 1, 1, -3), Rotation::unrotated());
    assert_eq!(Rotation::corner_rotation(1, 1, 1, 4), Rotation::corner_rotation(1, 1, 1, 1));
    assert_eq!(Rotation::corner_rotation(1, 1, 1, -1), Rotation::corner_rotation(1, 1, 1, 2));
    assert_eq!(Rotation::corner_rotation(1, 1, 1, 7).to_u8(), 9);
    assert_eq!(Rotation::corner_rotation(1, 1, 1, i32::MAX).to_u8(), 9);
    assert_eq!(Rotation::corner_rotation(1, 1, 1, i32::MIN).to_u8(), 9);
    for x in [-1, 1] {
        for y in [-1, 1] {
            for z in [-1, 1] {
                let turn = Rotation::corner_rotation(x, y, z, 1);
                let thirds = turn.corner_angles();
                assert_eq!(thirds[0], Rotation::unrotated());
                assert_eq!(thirds[1], turn);
                assert_eq!(thirds[2], Rotation::corner_rotation(x, y, z, 2));
                assert_ne!(thirds[1], Rotation::unrotated());
                assert_ne!(thirds[2], Rotation::unrotated());
                assert_eq!(thirds[2].reorient(turn), Rotation::unrotated());
                let on_x = if x > 0 { Direction::PosX } else { Direction::NegX };
                let on_y = if y > 0 { Direction::PosY } else { Direction::NegY };
                let on_z = if z > 0 { Direction::PosZ } else { Direction::NegZ };
                let corner = [on_x, on_y, on_z];
                for face in corner {
                    assert!(corner.contains(&turn.reface(face)));
                    assert_ne!(turn.reface(face), face);
                }
                let start = Rotation::new(Direction::PosX, 3);
                assert_eq!(start.rotate_corner(x, y, z, 2), start.reorient(thirds[2]));
                for angle in -10i32..11 {
                    let third = angle.rem_euclid(3);
                    let rotation = Rotation::corner_rotation(x, y, z, angle);
                    assert_eq!(rotation, thirds[third as usize]);
                    assert_eq!(rotation, Rotation::corner_rotation(x, y, z, third));
                    assert_eq!(rotation == Rotation::unrotated(), third == 0);
                    assert_eq!(rotation.rotate_coord((x, y, z)), (x, y, z));
                    for face in corner {
                        assert!(corner.contains(&rotation.reface(face)));
                    }
                    assert_eq!(start.rotate_corner(x, y, z, angle), start.reorient(rotation));
                    assert_eq!(
                        Rotation::corner_rotation(x, y, z, angle + 1),
                        rotation.reorient(turn)
                    );
                }
            }
        }
    }
}

#[test]
fn rotation_cycle_visits_all() {
    for start in all_rotations() {
        let mut seen = [false; 24];
        for offset in 0..24 {
            let rotation = start.cycle(offset);
            assert_eq!(rotation.to_u8() as i32, (start.to_u8() as i32 + offset) % 24);
            assert!(!seen[rotation.to_u8() as usize]);
            seen[rotation.to_u8() as usize] = true;
        }
        assert!(seen.iter().all(|&s| s));
        assert_eq!(start.cycle(24), start);
        assert_eq!(start.cycle(-24), start);
        assert_eq!(start.cycle(1).cycle(-1), start);
    }
    assert_eq!(Rotation::unrotated().cycle(-1).to_u8(), 23);
    assert_eq!(Rotation::unrotated().cycle(i32::MAX).to_u8(), (i32::MAX % 24) as u8);
    assert_eq!(Rotation::unrotated().cycle(i32::MIN).to_u8(), (i32::MIN as i64).rem_euclid(24) as u8);
    assert_eq!(Rotation::max_value().cycle(i32::MAX).to_u8(), ((23 + i32::MAX as i64) % 24) as u8);
}

#[test]
fn rotation_set_up_and_angle() {
    for rotation in all_rotations() {
        for up in Direction::iter() {
            let mut changed = rotation;
            changed.set_up(up);
            assert_eq!(changed, Rotation::new(up, rotation.angle()));
        }
        for angle in -5i32..6 {
            let mut changed = rotation;
            changed.set_angle(angle);
            assert_eq!(changed, Rotation::new(rotation.up(), angle));
        }
    }
}

#[test]
fn rotation_rotate_coord() {
    let point = (2i32, 3i32, 5i32);
    assert_eq!(Rotation::unrotated().rotate_coord(point), (2, 3, 5));
    assert_eq!(Rotation::new(Direction::PosY, 1).rotate_coord(point), (5, 3, -2));
    assert_eq!(Rotation::new(Direction::PosY, 2).rotate_coord(point), (-2, 3, -5));
    assert_eq!(Rotation::new(Direction::PosX, 0).rotate_coord(point), (3, -5, -2));
    assert_eq!(Rotation::new(Direction::PosZ, 1).rotate_coord(point), (5, 2, 3));
    assert_eq!(Rotation::new(Direction::NegY, 0).rotate_coord(point), (2, -3, -5));
    assert_eq!(Rotation::new(Direction::NegX, 3).rotate_coord(point), (-3, -2, -5));
    assert_eq!(Rotation::new(Direction::NegZ, 3).rotate_coord(point), (5, -2, -3));
    assert_eq!(Rotation::new(Direction::PosY, 1).rotate_coord((1i8, i8::MIN, i8::MIN)), (i8::MIN, i8::MIN, -1));
    for rotation in all_rotations() {
        for face in Direction::iter() {
            assert_eq!(rotation.rotate_coord(face.to_ituple()), rotation.reface(face).to_ituple());
        }
        let back = rotation.invert().rotate_coord(rotation.rotate_coord(point));
        assert_eq!(back, point);
        let (x, y, z) = rotation.rotate_coord((2i64, 3i64, 5i64));
        assert_eq!((x as i32, y as i32, z as i32), rotation.rotate_coord(point));
    }
}

#[test]
fn rotation_face_angle() {
    for rotation in all_rotations() {
        for world in Direction::iter() {
            let angle = rotation.face_angle(world);
            assert!(angle < 4);
            let source = rotation.source_face(world);
            assert_eq!(world.up_at_angle(angle as i32), rotation.reface(source.up()));
        }
    }
    for world in Direction::iter() {
        assert_eq!(Rotation::unrotated().face_angle(world), 0);
    }
    assert_eq!(Rotation::new(Direction::PosY, 1).face_angle(Direction::PosY), 1);
    assert_eq!(Rotation::new(Direction::PosY, 1).face_angle(Direction::NegY), 3);
    assert_eq!(Rotation::new(Direction::NegX, 0).face_angle(Direction::NegZ), 3);
    assert_eq!(Rotation::new(Direction::PosZ, 3).face_angle(Direction::PosY), 2);
}

#[test]
fn rotation_to_orientation() {
    for rotation in all_rotations() {
        assert_eq!(rotation.orientation(), Orientation::new(rotation, Flip::NONE));
        assert_eq!(rotation.orientation().to_u8(), rotation.to_u8() << 3);
        for flip in Flip::iter() {
            assert_eq!(rotation.with_flip(flip), Orientation::new(rotation, flip));
        }
    }
}

#[test]
fn rotation_text() {
    assert_eq!(Rotation::unrotated().to_text(), "Rotation(up=PosY,forward=NegZ,angle=0)");
    assert_eq!(
        Rotation::new(Direction::PosX, 1).to_text(),
        "Rotation(up=PosX,forward=PosZ,angle=1)"
    );
    assert_eq!(
        Rotation::new(Direction::NegZ, 3).to_text(),
        "Rotation(up=NegZ,forward=NegX,angle=3)"
    );
    assert_eq!(
        Rotation::new(Direction::NegY, 2).to_text(),
        "Rotation(up=NegY,forward=NegZ,angle=2)"
    );
}

#[test]
fn rotation_iterator_walks_all() {
    let mut walk = Rotation::iter();
    assert_eq!(walk, RotationIterator::new());
    for index in 0u8..24 {
        assert_eq!(walk.remaining(), 24 - index as usize);
        assert_eq!(walk.current(), Rotation::from_u8(index));
        assert_eq!(walk.next(), Rotation::from_u8(index));
    }
    assert_eq!(walk.remaining(), 0);
    assert_eq!(walk.current(), None);
    assert_eq!(walk.next(), None);
    assert_eq!(walk.next(), None);
    let mut late = RotationIterator::start_at(Rotation::max_value());
    assert_eq!(late.remaining(), 1);
    assert_eq!(late.next(), Some(Rotation::max_value()));
    assert_eq!(late.next(), None);
}
