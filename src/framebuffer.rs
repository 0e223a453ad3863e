use vstd::prelude::*;

use crate::ppm::Rgb8;

verus! {

/// Byte `k` (0 to 3) of a pixel in RGBA order, fully opaque.
pub open spec fn rgba_byte(c: Rgb8, k: int) -> u8 {
    if k == 0 {
        c.r
    } else if k == 1 {
        c.g
    } else if k == 2 {
        c.b
    } else {
        255u8
    }
}

/// Fills an RGBA frame buffer, four bytes per pixel, from `pixels` in order;
/// bytes after the last whole pixel are left as they were.
pub fn frame_copy(pixels: &Vec<Rgb8>, frame_mut: &mut [u8])
    requires
        old(frame_mut)@.len() / 4 <= pixels@.len(),
    ensures
        final(frame_mut)@.len() == old(frame_mut)@.len(),
        forall|k: int|
            0 <= k < old(frame_mut)@.len() / 4 * 4 ==> #[trigger] final(frame_mut)@[k] == rgba_byte(
                pixels@[k / 4],
                k % 4,
            ),
        forall|k: int|
            old(frame_mut)@.len() / 4 * 4 <= k < old(frame_mut)@.len()
                ==> #[trigger] final(frame_mut)@[k] == old(frame_mut)@[k],
{
    let n = frame_mut.len() / 4;
    let mut i: usize = 0;
    while i < n
        invariant
            n == old(frame_mut)@.len() / 4,
            n <= pixels@.len(),
            i <= n,
            frame_mut@.len() == old(frame_mut)@.len(),
            forall|k: int| 0 <= k < i * 4 ==> #[trigger] frame_mut@[k] == rgba_byte(pixels@[k / 4], k % 4),
            forall|k: int| i * 4 <= k < frame_mut@.len() ==> #[trigger] frame_mut@[k] == old(frame_mut)@[k],
        decreases n - i,
    {
        let c = pixels[i];
        let len = frame_mut.len();
        assert(4 * i + 3 < len) by (nonlinear_arith)
            requires
                i < n,
                n == len / 4,
        ;
        let base = 4 * i;
        frame_mut[base] = c.r;
        frame_mut[base + 1] = c.g;
        frame_mut[base + 2] = c.b;
        frame_mut[base + 3] = 255u8;
        i = i + 1;
        assert forall|k: int| 0 <= k < i * 4 implies #[trigger] frame_mut@[k] == rgba_byte(pixels@[k / 4], k % 4) by {
            if k >= base {
                assert(k / 4 == i - 1);
                assert(k % 4 == k - base);
            }
        }
    }
}

} // verus!
