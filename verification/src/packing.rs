use vstd::prelude::*;

use crate::flip::Flip;
use crate::rotation::Rotation;

verus! {

/// Wrap the angle of a cube face into the range from 0 to 3: the number of
/// quarter turns that `angle` amounts to, also where `angle` is negative.
#[inline(always)]
pub fn wrap_angle(angle: i32) -> (res: i32)
    ensures
        res == (angle as int) % 4,
        0 <= res < 4,
{
    assert(angle & 3 == angle % 4) by (bit_vector);
    angle & 3
}

/// Pack a flip and a rotation into one byte: the flip in bits 0 to 2 (X, Y,
/// Z), the rotation in bits 3 to 7 (the angle in bits 3 and 4, the up
/// direction above). This layout is permanent.
#[inline(always)]
pub fn pack_flip_and_rotation(flip: Flip, rotation: Rotation) -> (res: u8)
    ensures
        res as int == flip.spec_bits() + 8 * rotation.spec_index(),
        res < 192,
{
    let f = flip.to_u8();
    let r = rotation.to_u8();
    assert(f <= 7 && r <= 23 ==> (f | (r << 3)) == f + 8 * r) by (bit_vector);
    f | (r << 3)
}

/// Take a packed byte apart. The three low bits are the flip; the five
/// bits above them, reduced modulo 24, are the rotation.
#[inline(always)]
pub fn unpack_flip_and_rotation(packed: u8) -> (res: (Flip, Rotation))
    ensures
        res.0.spec_bits() == packed % 8,
        res.1.spec_index() == (packed / 8) % 24,
        res.1.wf(),
        packed < 192 ==> packed as int == res.0.spec_bits() + 8 * res.1.spec_index(),
{
    let flip = Flip::from_u8_wrapping(packed);
    assert(packed >> 3 == packed / 8) by (bit_vector);
    let rotation = Rotation::from_u8_unchecked((packed >> 3) % 24);
    (flip, rotation)
}

} // verus!
