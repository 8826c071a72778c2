//! Run-level parameters of the synthesizer.

use vstd::prelude::*;

verus! {

/// The glottal excitation model driving the synthesizer.
#[derive(Clone, Copy, Debug, PartialEq, Eq, Structural)]
pub enum GlottalSourceType {
    /// A pulse train filtered through a resonator.
    Impulsive,
    /// The KLGLOTT88 polynomial flow derivative.
    Natural,
    /// Plain white noise.
    Noise,
}

/// Upper bound for the number of oral formants; formant-indexed arrays
/// beyond this length are never read.
pub const MAX_ORAL_FORMANTS: usize = 6;

/// Parameters that hold for a whole synthesis run.
#[derive(Clone, Copy, Debug, PartialEq, Eq, Structural)]
pub struct MainParms {
    /// Sample rate in Hz.
    pub sample_rate: usize,
    /// Which glottal excitation model the run uses.
    pub glottal_source_type: GlottalSourceType,
}

impl MainParms {
    /// A usable run configuration has a positive sample rate.
    pub open spec fn valid(&self) -> bool {
        self.sample_rate > 0
    }
}

/// Reads the formant-indexed entry `i` of a per-formant parameter
/// array, handing back `missing` where the array holds no such entry.
/// A missing entry stands for an unset parameter and disables the
/// formant downstream.
pub fn formant_entry<T: Copy>(arr: &Vec<T>, i: usize, missing: T) -> (r: T)
    ensures
        i < arr@.len() ==> r == arr@[i as int],
        i >= arr@.len() ==> r == missing,
{
    if i < arr.len() {
        arr[i]
    } else {
        missing
    }
}

/// The canonical run configuration: 44.1 kHz with the impulsive glottal
/// source.
pub fn get_m_parms() -> (r: MainParms)
    ensures
        r.sample_rate == 44100,
        r.glottal_source_type is Impulsive,
        r.valid(),
{
    MainParms { sample_rate: 44100, glottal_source_type: GlottalSourceType::Impulsive }
}

} // verus!
