//! The ring of samples from which the frame rate is averaged.
use vstd::prelude::*;

verus! {

/// The number of samples that the ring holds.
pub const MAX_FRAMES_SAMPLES: usize = 200;

/// The place of the sample after the one at `index`. The places run from 0
/// up to the end of the ring and then start again; an index at or beyond the
/// last place is followed by 0.
pub fn next_sample(index: usize) -> (r: usize)
    ensures
        r == (if index >= MAX_FRAMES_SAMPLES - 1 {
            0
        } else {
            index + 1
        }),
        r < MAX_FRAMES_SAMPLES,
{
    if index >= MAX_FRAMES_SAMPLES - 1 {
        0
    } else {
        index + 1
    }
}

} // verus!
