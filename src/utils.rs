//! Pixel conversion for the sprite sheet.
use vstd::prelude::*;

verus! {

/// Byte `i` of the packed pixels converted from `rgba`: in each group of four,
/// blue, green, red, then a zero where alpha stood.
pub open spec fn bgra_byte(rgba: Seq<u8>, i: int) -> u8 {
    if i % 4 == 0 {
        rgba[i + 2]
    } else if i % 4 == 1 {
        rgba[i]
    } else if i % 4 == 2 {
        rgba[i - 2]
    } else {
        0
    }
}

/// Converts red-green-blue-alpha pixels to blue-green-red with a zero fourth byte.
pub fn rgba_to_bgra(rgba: &[u8]) -> (r: Vec<u8>)
    requires
        rgba@.len() % 4 == 0,
    ensures
        r@.len() == rgba@.len(),
        forall|i: int| 0 <= i < rgba@.len() ==> #[trigger] r@[i] == bgra_byte(rgba@, i),
{
    let mut bgra: Vec<u8> = Vec::with_capacity(rgba.len());
    let mut p: usize = 0;
    while p < rgba.len()
        invariant
            rgba@.len() % 4 == 0,
            p % 4 == 0,
            p <= rgba@.len(),
            bgra@.len() == p,
            forall|i: int| 0 <= i < p ==> #[trigger] bgra@[i] == bgra_byte(rgba@, i),
        decreases rgba@.len() - p,
    {
        let r = rgba[p];
        let g = rgba[p + 1];
        let b = rgba[p + 2];
        bgra.push(b);
        bgra.push(g);
        bgra.push(r);
        bgra.push(0u8);
        p = p + 4;
    }
    bgra
}

} // verus!
