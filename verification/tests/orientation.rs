use mfgeometry::orientation::{DeconstructedOrientation, RotationFirstOrientationIterator};
use mfgeometry::{Direction, Flip, Orientation, Rotation};

fn all_orientations() -> Vec<Orientation> {
    (0u8..192).map(|bits| Orientation::from_u8(bits).unwrap()).collect()
}

#[test]
fn unoriented_fixes_up() {
    assert_eq!(Orientation::unoriented().reface(Direction::PosY), Direction::PosY);
    for d in Direction::iter() {
        assert_eq!(Orientation::unoriented().reface(d), d);
        assert_eq!(Orientation::unoriented().source_face(d), d);
    }
    assert_eq!(Orientation::unoriented().to_u8(), 0);
    assert_eq!(Orientation::default(), Orientation::unoriented());
    assert_eq!(Orientation::min_value().to_u8(), 0);
    assert_eq!(Orientation::max_value().to_u8(), 191);
    assert_eq!(
        Orientation::unoriented(),
        Orientation::new(Rotation::new(Direction::PosY, 0), Flip::NONE)
    );
}

#[test]
fn orientation_packing_round_trip() {
    for flip in Flip::iter() {
        for index in 0u8..24 {
            let rotation = Rotation::from_u8(index).unwrap();
            let orientation = Orientation::new(rotation, flip);
            assert_eq!(orientation.flip(), flip);
            assert_eq!(orientation.rotation(), rotation);
            assert_eq!(orientation.to_u8(), flip.to_u8() | (index << 3));
            assert_eq!(mfgeometry::pack_flip_and_rotation(flip, rotation), orientation.to_u8());
            assert_eq!(mfgeometry::unpack_flip_and_rotation(orientation.to_u8()), (flip, rotation));
            assert_eq!(Orientation::from_u8(orientation.to_u8()), Some(orientation));
            assert_eq!(u8::from(orientation), orientation.to_u8());
        }
    }
    assert_eq!(Orientation::new(Rotation::new(Direction::PosX, 1), Flip::XZ).to_u8(), 45);
    assert_eq!(Orientation::from(Rotation::new(Direction::PosX, 1)).to_u8(), 40);
    assert_eq!(Orientation::from(Flip::YZ).to_u8(), 6);
    assert_eq!(mfgeometry::unpack_flip_and_rotation(255).0, Flip::XYZ);
    assert_eq!(mfgeometry::unpack_flip_and_rotation(255).1.to_u8(), 7);
    assert_eq!(mfgeometry::unpack_flip_and_rotation(192).1.to_u8(), 0);
}

#[test]
fn orientation_from_u8_rejects_values_from_192() {
    for bits in 0u8..192 {
        assert_eq!(Orientation::from_u8(bits).unwrap().to_u8(), bits);
        assert_eq!(Orientation::from_u8_unchecked(bits).to_u8(), bits);
    }
    for bits in 192u8..=255 {
        assert_eq!(Orientation::from_u8(bits), None);
        assert_eq!(Orientation::from_u8_wrapping(bits).to_u8(), bits - 192);
    }
    assert_eq!(Orientation::from_u8_wrapping(191).to_u8(), 191);
}

#[test]
fn orientation_reface_is_rotate_then_flip() {
    for o in all_orientations() {
        for d in Direction::iter() {
            assert_eq!(o.reface(d), o.rotation().reface(d).flip(o.flip()));
            assert_eq!(o.source_face(d), o.rotation().source_face(d.flip(o.flip())));
            assert_eq!(o.source_face(o.reface(d)), d);
            assert_eq!(o.reface(o.source_face(d)), d);
        }
        assert_eq!(o.up(), o.reface(Direction::PosY));
        assert_eq!(o.down(), o.reface(Direction::NegY));
        assert_eq!(o.left(), o.reface(Direction::NegX));
        assert_eq!(o.right(), o.reface(Direction::PosX));
        assert_eq!(o.forward(), o.reface(Direction::NegZ));
        assert_eq!(o.backward(), o.reface(Direction::PosZ));
    }
    let o = Orientation::new(Rotation::new(Direction::PosX, 1), Flip::XZ);
    assert_eq!(o.up(), Direction::NegX);
    assert_eq!(o.forward(), Direction::NegZ);
    assert_eq!(o.right(), Direction::PosY);
}

#[test]
fn orientation_invert_laws() {
    let unoriented = Orientation::unoriented();
    for o in all_orientations() {
        assert_eq!(o.invert().invert(), o);
        assert_eq!(o.reorient(o.invert()), unoriented);
        assert_eq!(o.invert().reorient(o), unoriented);
        assert_eq!(o.invert(), unoriented.deorient(o));
        assert_eq!(o.invert().flip(), o.flip());
        assert_eq!(o.reorient(unoriented), o);
        assert_eq!(unoriented.reorient(o), o);
        for d in Direction::iter() {
            assert_eq!(o.invert().reface(d), o.source_face(d));
        }
    }
    assert_eq!(Orientation::from_u8(45).unwrap().invert().to_u8(), 157);
}

#[test]
fn orientation_reorient_composes() {
    for a in all_orientations() {
        for b in all_orientations() {
            let both = a.reorient(b);
            assert_eq!(both.flip(), a.flip().flip(b.flip()));
            assert_eq!(both.up(), b.reface(a.up()));
            assert_eq!(both.forward(), b.reface(a.forward()));
            assert_eq!(both.right(), b.reface(a.right()));
            assert_eq!(both.deorient(b), a);
            assert_eq!(a.deorient(b).reorient(b), a);
        }
    }
    let a = Orientation::from_u8(45).unwrap();
    assert_eq!(a.reorient(a).to_u8(), 112);
    let b = Orientation::from_u8(131).unwrap();
    let c = Orientation::from_u8(78).unwrap();
    assert_eq!(a.reorient(b).reorient(c), a.reorient(b.reorient(c)));
}

#[test]
fn orientation_canonicalize() {
    let mut representatives = Vec::new();
    for o in all_orientations() {
        let c = o.canonicalize();
        assert_eq!(c.canonicalize(), c);
        assert_eq!(c.canonical_group(), 0);
        assert!(c.is_canonical());
        assert_eq!(o.canonical_group(), (o.to_u8() >> 1) & 0b11);
        assert_eq!(o.is_canonical(), o.canonical_group() == 0);
        assert_eq!(o.is_canonical(), o.flip() == Flip::NONE || o.flip() == Flip::X);
        assert_eq!(o.is_canonical(), c == o);
        assert_eq!(c.flip(), if o.flip().bits_xor() { Flip::X } else { Flip::NONE });
        for d in Direction::iter() {
            assert_eq!(c.reface(d), o.reface(d));
        }
        if !representatives.contains(&c) {
            representatives.push(c);
        }
    }
    assert_eq!(representatives.len(), 48);
    for a in all_orientations() {
        for b in all_orientations() {
            let same_symmetry = Direction::iter().into_iter().all(|d| a.reface(d) == b.reface(d));
            assert_eq!(same_symmetry, a.canonicalize() == b.canonicalize());
        }
    }
    assert_eq!(Orientation::from_u8(46).unwrap().canonicalize().to_u8(), 56);
    assert_eq!(Orientation::from_u8(2).unwrap().canonicalize().to_u8(), 113);
    assert_eq!(Orientation::from_u8(4).unwrap().canonicalize().to_u8(), 17);
    assert_eq!(Orientation::from_u8(6).unwrap().canonicalize().to_u8(), 96);
    assert_eq!(Orientation::from_u8(7).unwrap().canonicalize().to_u8(), 97);
    assert_eq!(Orientation::from_u8(191).unwrap().canonicalize().to_u8(), 73);
    assert_eq!(Orientation::from_u8(1).unwrap().canonicalize().to_u8(), 1);
}

#[test]
fn orientation_cycles_visit_all() {
    let start = Orientation::unoriented();
    let mut by_flip = Vec::new();
    let mut by_rotation = Vec::new();
    for offset in 0..192 {
        by_flip.push(start.cycle(offset));
        by_rotation.push(start.cycle_rotation_first(offset));
    }
    for list in [&by_flip, &by_rotation] {
        let mut seen = [false; 192];
        for o in list.iter() {
            assert!(!seen[o.to_u8() as usize]);
            seen[o.to_u8() as usize] = true;
        }
        assert!(seen.iter().all(|&s| s));
    }
    assert_ne!(by_flip, by_rotation);
    assert_eq!(by_flip[1], Orientation::new(Rotation::unrotated(), Flip::X));
    assert_eq!(by_rotation[1], Orientation::new(Rotation::from_u8(1).unwrap(), Flip::NONE));
    assert_eq!(by_rotation[24], Orientation::new(Rotation::unrotated(), Flip::X));
    assert_eq!(by_rotation, Orientation::rotation_ordered());
    assert_eq!(by_flip, start.iter());
    for o in all_orientations() {
        let mut seen_flip = [false; 192];
        let mut seen_rotation = [false; 192];
        for offset in 0..192 {
            seen_flip[o.cycle(offset).to_u8() as usize] = true;
            seen_rotation[o.cycle_rotation_first(offset).to_u8() as usize] = true;
            assert_eq!(
                o.cycle(offset).to_u8() as i32,
                (o.to_u8() as i32 + offset) % 192
            );
        }
        assert!(seen_flip.iter().all(|&s| s));
        assert!(seen_rotation.iter().all(|&s| s));
        assert_eq!(o.cycle(192), o);
        assert_eq!(o.cycle(-1).cycle(1), o);
        assert_eq!(o.cycle_rotation_first(-192), o);
        assert_eq!(o.cycle_rotation_first(5).cycle_rotation_first(-5), o);
        for offset in -30i32..31 {
            let cycled = o.cycle_rotation(offset);
            assert_eq!(cycled.flip(), o.flip());
            assert_eq!(cycled.rotation(), o.rotation().cycle(offset));
        }
    }
    assert_eq!(start.cycle(-1).to_u8(), 191);
    assert_eq!(start.cycle(i32::MIN).to_u8(), (i32::MIN as i64).rem_euclid(192) as u8);
    assert_eq!(start.cycle_rotation_first(-1), Orientation::new(Rotation::max_value(), Flip::XYZ));
    assert_eq!(
        start.cycle_rotation_first(i32::MAX).rotation().to_u8(),
        ((i32::MAX as i64 % 192) % 24) as u8
    );
}

#[test]
fn orientation_setters() {
    for o in all_orientations() {
        for flip in Flip::iter() {
            let mut changed = o;
            changed.set_flip(flip);
            assert_eq!(changed, Orientation::new(o.rotation(), flip));
            assert_eq!(o.flipped(flip), Orientation::new(o.rotation(), o.flip().flip(flip)));
            assert_eq!(o.flipped(flip).to_u8(), o.to_u8() ^ flip.to_u8());
        }
        let mut plain = o;
        plain.reset_flip();
        assert_eq!(plain.to_u8(), o.to_u8() & 0b11111000);
        let mut still = o;
        still.reset_rotation();
        assert_eq!(still.to_u8(), o.to_u8() & 0b111);
        for index in 0u8..24 {
            let rotation = Rotation::from_u8(index).unwrap();
            let mut changed = o;
            changed.set_rotation(rotation);
            assert_eq!(changed, Orientation::new(rotation, o.flip()));
        }
        for up in Direction::iter() {
            let mut changed = o;
            changed.set_up(up);
            assert_eq!(changed, Orientation::new(Rotation::new(up, o.rotation().angle()), o.flip()));
        }
        for angle in -4i32..5 {
            let mut changed = o;
            changed.set_angle(angle);
            assert_eq!(changed, Orientation::new(Rotation::new(o.rotation().up(), angle), o.flip()));
        }
        assert_eq!(o.flip_x(), o.flipped(Flip::X));
        assert_eq!(o.flip_y(), o.flipped(Flip::Y));
        assert_eq!(o.flip_z(), o.flipped(Flip::Z));
        assert_eq!(o.flip_xy(), o.flipped(Flip::XY));
        assert_eq!(o.flip_xz(), o.flipped(Flip::XZ));
        assert_eq!(o.flip_yz(), o.flipped(Flip::YZ));
        assert_eq!(o.flip_xyz(), o.flipped(Flip::XYZ));
    }
}

#[test]
fn orientation_deconstruct_and_construct() {
    for o in all_orientations() {
        let parts = o.deconstruct();
        assert_eq!(parts.flip_x, o.flip().x());
        assert_eq!(parts.flip_y, o.flip().y());
        assert_eq!(parts.flip_z, o.flip().z());
        assert_eq!(parts.angle as i32, o.rotation().angle());
        assert_eq!(parts.up, o.rotation().up());
        assert_eq!(parts.construct(), o);
    }
    let parts = DeconstructedOrientation {
        flip_x: true,
        flip_y: false,
        flip_z: true,
        angle: 5,
        up: Direction::PosX,
    };
    assert_eq!(parts.construct().to_u8(), 45);
}

#[test]
fn orientation_face_and_corner_orientations() {
    let packed = |turns: [Orientation; 4]| turns.map(Orientation::to_u8);
    assert_eq!(packed(Orientation::x_rotations()), [0, 8 << 3, 12 << 3, 22 << 3]);
    assert_eq!(packed(Orientation::y_rotations()), [0, 1 << 3, 2 << 3, 3 << 3]);
    assert_eq!(packed(Orientation::z_rotations()), [0, 17 << 3, 14 << 3, 7 << 3]);
    assert_eq!(Orientation::turn_x(), Rotation::turn_x().orientation());
    assert_eq!(Orientation::turn_y(), Rotation::turn_y().orientation());
    assert_eq!(Orientation::turn_z(), Rotation::turn_z().orientation());
    let start = Orientation::from_u8(45).unwrap();
    for face in Direction::iter() {
        for angle in -5i32..6 {
            let turn = Orientation::face_orientation(face, angle);
            assert_eq!(turn, Rotation::face_rotation(face, angle).orientation());
            assert_eq!(turn.reface(face), face);
            assert_eq!(turn.reface(face.up()), face.up_at_angle(angle));
            assert_eq!(start.rotate_face(face, angle), start.reorient(turn));
            assert_eq!(start.rotate_face(face, angle).flip(), start.flip());
        }
        assert_eq!(Orientation::face_orientation(face, 0), Orientation::unoriented());
    }
    for angle in -4i32..5 {
        assert_eq!(start.rotate_x(angle), start.rotate_face(Direction::PosX, angle));
        assert_eq!(start.rotate_y(angle), start.rotate_face(Direction::PosY, angle));
        assert_eq!(start.rotate_z(angle), start.rotate_face(Direction::PosZ, angle));
    }
    for x in [0, 1] {
        for y in [0, 1] {
            for z in [0, 1] {
                for angle in -7i32..8 {
                    let third = angle.rem_euclid(3);
                    let turn = Orientation::corner_orientation(x, y, z, angle);
                    assert_eq!(turn, Rotation::corner_rotation(x, y, z, third).orientation());
                    assert_eq!(turn, Rotation::corner_rotation(x, y, z, angle).orientation());
                    assert_eq!(turn == Orientation::unoriented(), third == 0);
                    assert_eq!(start.rotate_corner(x, y, z, angle), start.reorient(turn));
                }
                let turn = Orientation::corner_orientation(x, y, z, 1);
                let thirds = turn.corner_angles();
                assert_eq!(thirds[0], Orientation::unoriented());
                assert_eq!(thirds[1], turn);
                assert_eq!(thirds[2].reorient(turn), Orientation::unoriented());
            }
        }
    }
    assert_eq!(Orientation::corner_orientation(1, 1, 1, 1).to_u8(), 9 << 3);
    assert_eq!(Orientation::corner_orientation(1, 1, 1, 3), Orientation::unoriented());
    assert_eq!(Orientation::corner_orientation(1, 1, 1, -1).to_u8(), 6 << 3);
    let angles = start.angles();
    assert_eq!(angles[0], Orientation::unoriented());
    assert_eq!(angles[1], start);
    assert_eq!(angles[2], start.reorient(start));
    assert_eq!(angles[3], start.reorient(start).reorient(start));
}

#[test]
fn orientation_local_reorientation() {
    for a in [0u8, 45, 78, 131, 191] {
        for b in [0u8, 8, 64, 99, 150] {
            let a = Orientation::from_u8(a).unwrap();
            let b = Orientation::from_u8(b).unwrap();
            let inner = a.reorient(b).reorient(a);
            assert_eq!(a.reorient_local(b), a.reorient(inner));
            assert_eq!(a.deorient_local(b), a.deorient(inner));
        }
    }
    let a = Orientation::from_u8(45).unwrap();
    let b = Orientation::from_u8(64).unwrap();
    assert_eq!(a.reorient_local(b).to_u8(), 93);
    assert_eq!(a.deorient_local(b).to_u8(), 93);
}

#[test]
fn orientation_transform() {
    let o = Orientation::from_u8(45).unwrap();
    assert_eq!(o.transform((2i32, 3i32, 5i32)), (-3, 2, 5));
    assert_eq!(o.transform((2i64, 3i64, 5i64)), (-3, 2, 5));
    assert_eq!(Orientation::unoriented().transform((i32::MIN, i32::MIN, i32::MIN)), (i32::MIN, i32::MIN, i32::MIN));
    for o in all_orientations() {
        let point = (2i32, 3i32, 5i32);
        let image = o.transform(point);
        assert_eq!(image, o.flip().flip_coord(o.rotation().rotate_coord(point)));
        assert_eq!(o.invert().transform(image), point);
        for face in Direction::iter() {
            assert_eq!(o.transform(face.to_ituple()), o.reface(face).to_ituple());
        }
    }
}

#[test]
fn orientation_text() {
    assert_eq!(
        Orientation::unoriented().to_text(),
        "Orientation(Flip(),Rotation(up=PosY,forward=NegZ,angle=0))"
    );
    assert_eq!(
        Orientation::from_u8(45).unwrap().to_text(),
        "Orientation(Flip(X|Z),Rotation(up=PosX,forward=PosZ,angle=1))"
    );
}

#[test]
fn rotation_first_iterator() {
    let start = Orientation::unoriented();
    let mut walk = start.iter_rotation_order();
    assert_eq!(walk, RotationFirstOrientationIterator::new());
    for place in 0usize..192 {
        assert_eq!(walk.remaining(), 192 - place);
        let expected = Orientation::new(
            Rotation::from_u8((place % 24) as u8).unwrap(),
            Flip::from_u8((place / 24) as u8).unwrap(),
        );
        assert_eq!(walk.current(), Some(expected));
        assert_eq!(walk.next(), Some(expected));
    }
    assert_eq!(walk.remaining(), 0);
    assert_eq!(walk.current(), None);
    assert_eq!(walk.next(), None);
    assert_eq!(walk.next(), None);
    let last = Orientation::new(Rotation::max_value(), Flip::XYZ);
    let mut late = RotationFirstOrientationIterator::start_at(last);
    assert_eq!(late.remaining(), 1);
    assert_eq!(late.next(), Some(last));
    assert_eq!(late.next(), None);
    let mut middle = RotationFirstOrientationIterator::start_at(Orientation::from_u8(45).unwrap());
    assert_eq!(middle.remaining(), 192 - (5 * 24 + 5));
    assert_eq!(middle.next(), Orientation::from_u8(45));
    assert_eq!(middle.next(), Orientation::from_u8(45 + 8));
}
