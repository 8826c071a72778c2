//! Layout of the output buffer of a multi-frame sound.
//!
//! A sound is one contiguous buffer, the concatenation of one range per
//! frame; each frame's range holds `duration * sample_rate` samples, and
//! the buffer length — not the frame durations seen one at a time —
//! decides how many samples are generated.

use vstd::arithmetic::mul::lemma_mul_nonnegative;
use vstd::prelude::*;

verus! {

/// Total number of samples of a sound built from frames with the given
/// durations in seconds: the sum of `duration * sample_rate` over the
/// frames.
pub open spec fn spec_total_length(durations: Seq<usize>, sample_rate: usize) -> int
    decreases durations.len(),
{
    if durations.len() == 0 {
        0
    } else {
        spec_total_length(durations.drop_last(), sample_rate) + durations.last() * sample_rate
    }
}

/// The sample count of a prefix of the frames never exceeds the sample
/// count of the whole sound.
pub proof fn lemma_prefix_length_le(durations: Seq<usize>, i: int, sample_rate: usize)
    requires
        0 <= i <= durations.len(),
    ensures
        spec_total_length(durations.take(i), sample_rate) <= spec_total_length(
            durations,
            sample_rate,
        ),
    decreases durations.len() - i,
{
    if i == durations.len() {
        assert(durations.take(i) =~= durations);
    } else {
        lemma_prefix_length_le(durations, i + 1, sample_rate);
        assert(durations.take(i + 1).drop_last() =~= durations.take(i));
        lemma_mul_nonnegative(durations[i] as int, sample_rate as int);
    }
}

/// Number of samples of one frame: its duration in seconds times the
/// sample rate.
pub fn frame_length(duration: usize, sample_rate: usize) -> (r: usize)
    requires
        duration * sample_rate <= usize::MAX,
    ensures
        r == duration * sample_rate,
{
    duration * sample_rate
}

/// Total number of samples of a sound with the given frame durations;
/// the output buffer is allocated with exactly this length before the
/// frames are generated into its consecutive ranges.
pub fn total_sound_length(durations: &Vec<usize>, sample_rate: usize) -> (r: usize)
    requires
        spec_total_length(durations@, sample_rate) <= usize::MAX,
    ensures
        r == spec_total_length(durations@, sample_rate),
{
    let mut total: usize = 0;
    let mut i: usize = 0;
    while i < durations.len()
        invariant
            i <= durations@.len(),
            total == spec_total_length(durations@.take(i as int), sample_rate),
            spec_total_length(durations@, sample_rate) <= usize::MAX,
        decreases durations@.len() - i,
    {
        proof {
            assert(durations@.take(i + 1).drop_last() =~= durations@.take(i as int));
            assert(durations@.take(i + 1).last() == durations@[i as int]);
            lemma_prefix_length_le(durations@, i + 1, sample_rate);
        }
        let d = durations[i];
        total = total + d * sample_rate;
        i = i + 1;
    }
    proof {
        assert(durations@.take(durations@.len() as int) =~= durations@);
    }
    total
}

} // verus!
