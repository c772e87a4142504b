use mfgeometry::{Direction, Flip};

#[test]
fn flip_group_laws() {
    for a in Flip::iter() {
        assert_eq!(a.flip(a), Flip::NONE);
        assert_eq!(a.flip(Flip::NONE), a);
        assert_eq!(Flip::NONE.flip(a), a);
        for b in Flip::iter() {
            assert_eq!(a.flip(b), b.flip(a));
            assert_eq!(a.flip(b).to_u8(), a.to_u8() ^ b.to_u8());
            assert_eq!(a.flip(b).flip(b), a);
            for c in Flip::iter() {
                assert_eq!(a.flip(b).flip(c), a.flip(b.flip(c)));
            }
        }
    }
    assert_eq!(Flip::X.flip(Flip::XY), Flip::Y);
    assert_eq!(Flip::XZ.flip(Flip::YZ), Flip::XY);
}

#[test]
fn flip_bit_layout() {
    assert_eq!(Flip::NONE.to_u8(), 0b000);
    assert_eq!(Flip::X.to_u8(), 0b001);
    assert_eq!(Flip::Y.to_u8(), 0b010);
    assert_eq!(Flip::XY.to_u8(), 0b011);
    assert_eq!(Flip::Z.to_u8(), 0b100);
    assert_eq!(Flip::XZ.to_u8(), 0b101);
    assert_eq!(Flip::YZ.to_u8(), 0b110);
    assert_eq!(Flip::XYZ.to_u8(), 0b111);
    assert_eq!(Flip::ALL, Flip::XYZ);
    assert_eq!(Flip::default(), Flip::NONE);
    for bits in 0u8..8 {
        let flip = Flip::from_u8(bits).unwrap();
        assert_eq!(flip.to_u8(), bits);
        assert_eq!(Flip::from_u8_unchecked(bits), flip);
        assert_eq!(flip.x(), bits & 1 != 0);
        assert_eq!(flip.y(), bits & 2 != 0);
        assert_eq!(flip.z(), bits & 4 != 0);
        assert_eq!(Flip::new(flip.x(), flip.y(), flip.z()), flip);
    }
    for bits in 8u8..=255 {
        assert_eq!(Flip::from_u8(bits), None);
        assert_eq!(Flip::from_u8_wrapping(bits).to_u8(), bits & 7);
    }
    assert_eq!(Flip::iter().map(Flip::to_u8), [0, 1, 2, 3, 4, 5, 6, 7]);
    assert_eq!(Flip::new(true, false, true), Flip::XZ);
}

#[test]
fn flip_axis_sets() {
    for flip in Flip::iter() {
        assert_eq!(flip.xy(), flip.x() && flip.y());
        assert_eq!(flip.xz(), flip.x() && flip.z());
        assert_eq!(flip.yz(), flip.y() && flip.z());
        assert_eq!(flip.xyz(), flip == Flip::XYZ);
        assert_eq!(flip.contains(Flip::NONE), true);
        assert_eq!(flip.flip_x().to_u8(), flip.to_u8() ^ 1);
        assert_eq!(flip.flip_y().to_u8(), flip.to_u8() ^ 2);
        assert_eq!(flip.flip_z().to_u8(), flip.to_u8() ^ 4);
        assert_eq!(flip.flip_xy().to_u8(), flip.to_u8() ^ 3);
        assert_eq!(flip.flip_xz().to_u8(), flip.to_u8() ^ 5);
        assert_eq!(flip.flip_yz().to_u8(), flip.to_u8() ^ 6);
        assert_eq!(flip.flip_xyz().to_u8(), flip.to_u8() ^ 7);
        assert_eq!(flip.flip_xyz(), flip.invert());
        assert_eq!(flip.invert().invert(), flip);
        assert_eq!(flip.with_x(true).to_u8(), flip.to_u8() | 1);
        assert_eq!(flip.with_x(false).to_u8(), flip.to_u8() & 6);
        assert_eq!(flip.with_yz(true).to_u8(), flip.to_u8() | 6);
        assert_eq!(flip.with_yz(false).to_u8(), flip.to_u8() & 1);
        assert_eq!(flip.with_xy(false).to_u8(), flip.to_u8() & 4);
        assert_eq!(flip.with_xz(true).to_u8(), flip.to_u8() | 5);
        assert_eq!(flip.with_y(true).to_u8(), flip.to_u8() | 2);
        assert_eq!(flip.with_z(false).to_u8(), flip.to_u8() & 3);
        assert_eq!(flip.with_xyz(true), Flip::XYZ);
        assert_eq!(flip.with_xyz(false), Flip::NONE);
        assert_eq!(flip.with(Flip::NONE, true), flip);
        assert_eq!(flip.bits_xor(), flip.to_u8().count_ones() % 2 == 1);
    }
    assert!(Flip::XYZ.xy() && !Flip::XZ.xy() && !Flip::Y.xy());
}

#[test]
fn flip_setters_return_the_old_state() {
    let mut flip = Flip::Y;
    assert_eq!(flip.set_x(true), false);
    assert_eq!(flip, Flip::XY);
    assert_eq!(flip.set_xy(false), true);
    assert_eq!(flip, Flip::NONE);
    assert_eq!(flip.set_z(true), false);
    assert_eq!(flip.set_xz(true), false);
    assert_eq!(flip, Flip::XZ);
    assert_eq!(flip.set_y(true), false);
    assert_eq!(flip.set_xyz(true), true);
    assert_eq!(flip, Flip::XYZ);
    assert_eq!(flip.set_yz(false), true);
    assert_eq!(flip, Flip::X);
    assert_eq!(flip.set_yz(false), false);
    assert_eq!(flip.set_x(false), true);
    assert_eq!(flip, Flip::NONE);
}

#[test]
fn flip_operators() {
    for a in Flip::iter() {
        assert_eq!((!a).to_u8(), a.to_u8() ^ 7);
        for b in Flip::iter() {
            assert_eq!((a | b).to_u8(), a.to_u8() | b.to_u8());
            assert_eq!((a & b).to_u8(), a.to_u8() & b.to_u8());
            assert_eq!((a + b).to_u8(), a.to_u8() | b.to_u8());
            assert_eq!((a - b).to_u8(), a.to_u8() & !b.to_u8());
            assert_eq!(a.or(b), a | b);
            assert_eq!(a.and(b), a & b);
            assert_eq!(a.contains(b), a.to_u8() & b.to_u8() == b.to_u8());
        }
    }
    assert_eq!(Flip::X | Flip::Z, Flip::XZ);
    assert_eq!(Flip::XYZ - Flip::Y, Flip::XZ);
}

#[test]
fn flip_coord_negates_the_flipped_axes() {
    let point = (3i32, -5i32, 7i32);
    assert_eq!(Flip::NONE.flip_coord(point), (3, -5, 7));
    assert_eq!(Flip::X.flip_coord(point), (-3, -5, 7));
    assert_eq!(Flip::Y.flip_coord(point), (3, 5, 7));
    assert_eq!(Flip::XY.flip_coord(point), (-3, 5, 7));
    assert_eq!(Flip::Z.flip_coord(point), (3, -5, -7));
    assert_eq!(Flip::XZ.flip_coord(point), (-3, -5, -7));
    assert_eq!(Flip::YZ.flip_coord(point), (3, 5, -7));
    assert_eq!(Flip::XYZ.flip_coord(point), (-3, 5, -7));
    assert_eq!(Flip::XZ.flip_coord((1i8, i8::MIN, 1i8)), (-1, i8::MIN, -1));
    assert_eq!(Flip::XYZ.flip_coord((i64::MAX, 0i64, -1i64)), (-i64::MAX, 0, 1));
    assert_eq!(Flip::Y.flip_coord((1i128, 2i128, 3i128)), (1, -2, 3));
    assert_eq!(Flip::Z.flip_coord((1i16, 2i16, 3i16)), (1, 2, -3));
    for flip in Flip::iter() {
        for face in Direction::iter() {
            assert_eq!(flip.flip_coord(face.to_ituple()), face.flip(flip).to_ituple());
            assert_eq!(flip.is_flipped(face), face.flip(flip) != face);
        }
        assert_eq!(flip.flip_coord(flip.flip_coord(point)), point);
    }
}

#[test]
fn flip_text() {
    assert_eq!(Flip::NONE.to_text(), "Flip()");
    assert_eq!(Flip::X.to_text(), "Flip(X)");
    assert_eq!(Flip::Y.to_text(), "Flip(Y)");
    assert_eq!(Flip::XY.to_text(), "Flip(X|Y)");
    assert_eq!(Flip::Z.to_text(), "Flip(Z)");
    assert_eq!(Flip::XZ.to_text(), "Flip(X|Z)");
    assert_eq!(Flip::YZ.to_text(), "Flip(YZ)");
    assert_eq!(Flip::XYZ.to_text(), "Flip(X|Y|Z)");
}
