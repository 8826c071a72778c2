//! Core of a Klatt cascade/parallel formant synthesizer.
//!
//! The sample-by-sample signal arithmetic is carried out by an unverified
//! front end; this crate holds the parts of the synthesizer that can be
//! stated and proved over plain values: the run parameters, the filter
//! mode routing, the F0-period timing state machine, and the layout of
//! the output buffer.

mod filter;
mod layout;
mod params;
mod timing;

pub use filter::{Filter, FilterMode, select_output};
pub use layout::{frame_length, lemma_prefix_length_le, spec_total_length, total_sound_length};
pub use params::{GlottalSourceType, MainParms, MAX_ORAL_FORMANTS, formant_entry, get_m_parms};
pub use timing::{
    NaturalTimer, PeriodTiming, PulseTimer, alternating_sign, flutter_time, parallel_formant_uses_difference,
    pulse_amplitude,
};
