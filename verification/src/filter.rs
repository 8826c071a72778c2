//! Filter modes and the routing of samples through them.
//!
//! Every filter of the synthesizer (first-order low-pass, resonator,
//! anti-resonator) carries, besides its coefficients and delay line, an
//! operating mode: it can forward its input unchanged, be silenced, or
//! actively filter. Disabled formants are represented by the passthrough
//! and muted modes instead of branching logic elsewhere.

use vstd::prelude::*;

verus! {

/// Control interface shared by the filter types: every filter can be
/// switched into passthrough mode or muted.
pub trait Filter {
    fn set_passthrough(&mut self);

    fn set_mute(&mut self);
}

/// Operating mode of a filter. The three modes are mutually exclusive;
/// representing them as one enum makes an invalid combination (a filter
/// both passing through and muted) unrepresentable.
#[derive(Clone, Copy, Debug, PartialEq, Eq, Structural)]
pub enum FilterMode {
    /// The filter forwards its input unchanged.
    Passthrough,
    /// The filter outputs the zero sample, whatever its input.
    Muted,
    /// The filter applies its coefficients to input and delay line.
    Active,
}

/// Routes one sample through a filter according to its mode: a filter in
/// passthrough mode hands back its input unchanged, a muted filter hands
/// back the zero sample, and only an active filter hands back the value
/// computed from its coefficients. The delay line plays no part in the
/// passthrough and muted modes.
pub fn select_output<T>(mode: &FilterMode, input: T, zero: T, filtered: T) -> (r: T)
    ensures
        mode is Passthrough ==> r == input,
        mode is Muted ==> r == zero,
        mode is Active ==> r == filtered,
{
    match mode {
        FilterMode::Passthrough => input,
        FilterMode::Muted => zero,
        FilterMode::Active => filtered,
    }
}

} // verus!
