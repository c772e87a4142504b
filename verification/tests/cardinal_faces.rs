use mfgeometry::{wrap_angle, Cardinal, Direction, Faces};

#[test]
fn wrap_angle_is_the_remainder_by_four() {
    for angle in -20i32..21 {
        assert_eq!(wrap_angle(angle), angle.rem_euclid(4));
    }
    assert_eq!(wrap_angle(-1), 3);
    assert_eq!(wrap_angle(4), 0);
    assert_eq!(wrap_angle(i32::MIN), 0);
    assert_eq!(wrap_angle(i32::MAX), 3);
}

#[test]
fn cardinal_angles() {
    assert_eq!(Cardinal::iter(), Cardinal::ALL);
    assert_eq!(Cardinal::ALL, [Cardinal::North, Cardinal::West, Cardinal::South, Cardinal::East]);
    assert_eq!(Cardinal::iter_ne(), Cardinal::FLOOD_NORTH_EAST);
    assert_eq!(Cardinal::iter_nw(), Cardinal::FLOOD_NORTH_WEST);
    assert_eq!(Cardinal::iter_se(), Cardinal::FLOOD_SOUTH_EAST);
    assert_eq!(Cardinal::iter_sw(), Cardinal::FLOOD_SOUTH_WEST);
    assert_eq!(
        Cardinal::iter_ne(),
        [Cardinal::North, Cardinal::South, Cardinal::East, Cardinal::West]
    );
    assert_eq!(
        Cardinal::iter_sw(),
        [Cardinal::South, Cardinal::North, Cardinal::West, Cardinal::East]
    );
    assert_eq!(Cardinal::FORWARD, Cardinal::North);
    assert_eq!(Cardinal::LEFT, Cardinal::West);
    assert_eq!(Cardinal::BACKWARD, Cardinal::South);
    assert_eq!(Cardinal::RIGHT, Cardinal::East);
    for (index, c) in Cardinal::iter().into_iter().enumerate() {
        assert_eq!(c.angle() as usize, index);
        assert_eq!(c.discriminant() as usize, index);
        assert_eq!(c.bit(), 1u8 << index);
        assert_eq!(Cardinal::at_angle(index as i32), c);
        assert_eq!(c.invert(), c.rotate(2));
        assert_eq!(c.invert().invert(), c);
        for turns in -9i32..10 {
            assert_eq!(c.rotate(turns), Cardinal::at_angle(c.angle() + turns));
            assert_eq!(c.rotate(turns).rotate(-turns), c);
        }
        let (x, z) = c.to_ituple2();
        assert_eq!(c.to_ituple3(), (x, 0, z));
        assert_eq!(c.invert().to_ituple2(), (-x, -z));
    }
    assert_eq!(Cardinal::at_angle(-1), Cardinal::East);
    assert_eq!(Cardinal::North.rotate(1), Cardinal::West);
    assert_eq!(Cardinal::East.rotate(i32::MAX), Cardinal::South);
    assert_eq!(Cardinal::North.rotate(i32::MIN), Cardinal::North);
    assert_eq!(Cardinal::North.to_ituple2(), (0, -1));
    assert_eq!(Cardinal::West.to_ituple2(), (-1, 0));
    assert_eq!(Cardinal::South.to_ituple3(), (0, 0, 1));
    assert_eq!(Cardinal::East.to_ituple3(), (1, 0, 0));
    assert_eq!(Cardinal::East.bit(), 8);
}

#[test]
fn faces_need_three_axes() {
    let mut made = 0;
    for up in Direction::iter() {
        for right in Direction::iter() {
            for forward in Direction::iter() {
                let orthogonal = up.axis() != right.axis()
                    && right.axis() != forward.axis()
                    && forward.axis() != up.axis();
                match Faces::new(up, right, forward) {
                    Some(faces) => {
                        made += 1;
                        assert!(orthogonal);
                        assert_eq!(faces.up(), up);
                        assert_eq!(faces.right(), right);
                        assert_eq!(faces.forward(), forward);
                        assert_eq!(faces.down(), up.invert());
                        assert_eq!(faces.left(), right.invert());
                        assert_eq!(faces.backward(), forward.invert());
                    }
                    None => assert!(!orthogonal),
                }
            }
        }
    }
    assert_eq!(made, 48);
    assert_eq!(Faces::new(Direction::PosY, Direction::PosY, Direction::NegZ), None);
    assert_eq!(Faces::new(Direction::PosY, Direction::PosX, Direction::NegX), None);
    assert_eq!(
        Faces::new(Direction::PosY, Direction::PosX, Direction::NegZ),
        Some(Faces::unoriented())
    );
    assert_eq!(Faces::unoriented().left(), Direction::NegX);
}
