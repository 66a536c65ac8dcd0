//! Packing rendered RGBA pixel bytes into the `0xAARRGGBB` words a
//! window surface buffer expects, four bytes at a time.

use vstd::prelude::*;

verus! {

/// The surface word for one pixel's four bytes: alpha in the top byte,
/// then red, green, blue.
pub open spec fn pixel_word(b0: u8, b1: u8, b2: u8, b3: u8) -> u32 {
    ((b3 as u32) << 24) | ((b2 as u32) << 16) | ((b1 as u32) << 8) | (b0 as u32)
}

/// Packs RGBA pixel data into surface words, one word for each whole
/// group of four bytes, in order.  A trailing incomplete group is
/// dropped.
pub fn pack_pixels(data: &[u8]) -> (r: Vec<u32>)
    ensures
        r@.len() == data@.len() / 4,
        forall|k: int|
            0 <= k < r@.len() ==> r@[k] == pixel_word(
                data@[4 * k],
                data@[4 * k + 1],
                data@[4 * k + 2],
                data@[4 * k + 3],
            ),
{
    let dlen = data.len();
    let n = dlen / 4;
    let mut r: Vec<u32> = Vec::new();
    let mut i: usize = 0;
    while i < n
        invariant
            0 <= i <= n,
            n == dlen / 4,
            dlen == data@.len(),
            r@.len() == i,
            forall|k: int|
                0 <= k < i ==> r@[k] == pixel_word(
                    data@[4 * k],
                    data@[4 * k + 1],
                    data@[4 * k + 2],
                    data@[4 * k + 3],
                ),
        decreases n - i,
    {
        proof {
            assert(4 * (i as int) + 3 < dlen);
        }
        let word = ((data[4 * i + 3] as u32) << 24) | ((data[4 * i + 2] as u32) << 16) | ((data[4
            * i + 1] as u32) << 8) | (data[4 * i] as u32);
        r.push(word);
        i += 1;
    }
    r
}

} // verus!
