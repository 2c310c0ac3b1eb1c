//! The CPU-bound filler task whose time the benchmark excludes.

use vstd::prelude::*;

verus! {

/// The pixel buffer the filler task works on: a million pixels, all
/// black, except the middle one, set to red.
pub fn filler_pixels() -> (r: Vec<(u8, u8, u8)>)
    ensures
        r@.len() == 1_000_000,
        r@[500_000] == (255u8, 0u8, 0u8),
        forall|j: int| 0 <= j < 1_000_000 && j != 500_000 ==> r@[j] == (0u8, 0u8, 0u8),
{
    let mut pixels: Vec<(u8, u8, u8)> = Vec::new();
    let mut i: usize = 0;
    while i < 1_000_000
        invariant
            i <= 1_000_000,
            pixels@.len() == i,
            forall|j: int| 0 <= j < i ==> pixels@[j] == (0u8, 0u8, 0u8),
        decreases 1_000_000 - i,
    {
        pixels.push((0u8, 0u8, 0u8));
        i = i + 1;
    }
    pixels[500_000] = (255u8, 0u8, 0u8);
    pixels
}

/// Allocates and marks the pixel buffer, then drops it: work with no
/// observable result, done only to spend time outside the measured
/// intervals.
pub fn unrelated_operation() {
    let _pixels = filler_pixels();
}

} // verus!
