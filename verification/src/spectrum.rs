//! The display slice of a spectrum.
//!
//! For a real-valued input the upper half of the transform output
//! mirrors the lower half in magnitude, so only the first half of the
//! bins is meaningful for display; this module cuts that half out.

use vstd::prelude::*;

verus! {

/// The first half of the frequency bins: the Nyquist-symmetric slice
/// shown by the magnitude plot.
pub fn half_spectrum<T: Copy>(bins: &Vec<T>) -> (half: Vec<T>)
    ensures
        half@ == bins@.subrange(0, bins@.len() as int / 2),
        half.len() == bins.len() / 2,
{
    let target: usize = bins.len() / 2;
    let mut half: Vec<T> = Vec::new();
    let mut i: usize = 0;
    while i < target
        invariant
            target == bins@.len() / 2,
            i <= target,
            half@ == bins@.subrange(0, i as int),
        decreases target - i,
    {
        half.push(bins[i]);
        proof {
            assert(half@ == bins@.subrange(0, i + 1));
        }
        i = i + 1;
    }
    half
}

} // verus!
