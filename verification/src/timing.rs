//! The F0-period timing state machine.
//!
//! The generator advances sample by sample. All of its sample-level
//! decisions — when a new F0 period (and with it a pending frame
//! parameter set) takes effect, whether the glottis is open, whether
//! aspiration and frication are amplitude-modulated, which pulse the
//! impulsive source emits, and with which sign a parallel formant is
//! summed — are decided here, over plain sample counts.

use vstd::prelude::*;

verus! {

/// Timing state of the current F0 period: the period and open-phase
/// lengths in samples, and the position of the next sample within the
/// period. `started` is false until the first period of a run begins.
pub struct PeriodTiming {
    /// Whether any period has begun yet.
    pub started: bool,
    /// Period length in samples.
    pub period_length: usize,
    /// Open glottis phase length in samples.
    pub open_phase_length: usize,
    /// Current sample position within the period.
    pub position_in_period: usize,
}

impl PeriodTiming {
    /// Invariant of the period timing: a degenerate period — one sample
    /// or none — never has an open glottal phase, so neither
    /// breathiness nor a glottal pulse can fall into such a period.
    pub open spec fn wf(&self) -> bool {
        self.period_length <= 1 ==> self.open_phase_length == 0
    }

    /// Timing state before the first period of a run.
    pub fn new() -> (r: PeriodTiming)
        ensures
            !r.started,
            r.period_length == 0,
            r.open_phase_length == 0,
            r.position_in_period == 0,
            r.wf(),
    {
        PeriodTiming {
            started: false,
            period_length: 0,
            open_phase_length: 0,
            position_in_period: 0,
        }
    }

    /// A new F0 period must begin before the next sample exactly when no
    /// period is active yet or the position has reached the end of the
    /// current period. New frame parameters take effect only at such a
    /// boundary, to avoid glitches.
    pub fn needs_new_period(&self) -> (r: bool)
        ensures
            r == (!self.started || self.position_in_period >= self.period_length),
    {
        !self.started || self.position_in_period >= self.period_length
    }

    /// Enters a new period of `period_length` samples, resetting the
    /// position. An open phase is only kept for periods of more than one
    /// sample; degenerate periods get none.
    pub fn begin_period(&mut self, period_length: usize, open_phase_length: usize)
        ensures
            final(self).started,
            final(self).period_length == period_length,
            final(self).open_phase_length == if period_length > 1 {
                open_phase_length as int
            } else {
                0
            },
            final(self).position_in_period == 0,
            final(self).wf(),
    {
        self.started = true;
        self.period_length = period_length;
        self.open_phase_length = if period_length > 1 {
            open_phase_length
        } else {
            0
        };
        self.position_in_period = 0;
    }

    /// Moves the position to the next sample of the period.
    pub fn advance(&mut self)
        requires
            old(self).position_in_period < usize::MAX,
        ensures
            final(self).position_in_period == old(self).position_in_period + 1,
            final(self).started == old(self).started,
            final(self).period_length == old(self).period_length,
            final(self).open_phase_length == old(self).open_phase_length,
            old(self).wf() ==> final(self).wf(),
    {
        self.position_in_period = self.position_in_period + 1;
    }

    /// Whether the current sample falls into the open glottal phase,
    /// during which breathiness noise is added to the voicing signal.
    pub fn in_open_phase(&self) -> (r: bool)
        ensures
            r == (self.position_in_period < self.open_phase_length),
    {
        self.position_in_period < self.open_phase_length
    }

    /// Whether the current sample falls into the second half of the
    /// period, during which aspiration and frication noise are
    /// amplitude-modulated.
    pub fn in_second_half(&self) -> (r: bool)
        ensures
            r == (self.position_in_period >= self.period_length / 2),
    {
        self.position_in_period >= self.period_length / 2
    }
}

/// The coarse time, in whole seconds, that drives the flutter of F0: the
/// absolute sample position converted to seconds, shifted by the per-run
/// random offset that decorrelates independent runs.
pub fn flutter_time(abs_position: usize, sample_rate: usize, flutter_time_offset: usize) -> (r: usize)
    requires
        sample_rate > 0,
        abs_position / sample_rate + flutter_time_offset <= usize::MAX,
    ensures
        r == abs_position / sample_rate + flutter_time_offset,
{
    abs_position / sample_rate + flutter_time_offset
}

/// Pulse pattern of the impulsive glottal source: a unit pulse at the
/// second sample of the period, its negation at the third, silence
/// elsewhere.
pub open spec fn pulse_amplitude(position: nat) -> int {
    if position == 1 {
        1
    } else if position == 2 {
        -1
    } else {
        0
    }
}

/// State machine of the impulsive glottal source: idle or periodic. In
/// the periodic state a position counter runs independently of the
/// period timing; it is reset at the start of each period and advances
/// with every sample drawn from the source. An idle source emits
/// silence and its counter stands still.
pub struct PulseTimer {
    /// False in the idle state, in which the source emits silence.
    pub active: bool,
    /// Current sample position within the F0 period.
    pub position_in_period: usize,
}

impl PulseTimer {
    /// An impulsive source starts out idle.
    pub fn new() -> (r: PulseTimer)
        ensures
            !r.active,
            r.position_in_period == 0,
    {
        PulseTimer { active: false, position_in_period: 0 }
    }

    /// Start of an F0 period with the given open-phase length: a period
    /// without an open phase sends the source idle, any other period
    /// makes it periodic with the counter reset.
    pub fn start_period(&mut self, open_phase_length: usize)
        ensures
            final(self).active == (open_phase_length > 0),
            open_phase_length > 0 ==> final(self).position_in_period == 0,
            open_phase_length == 0 ==> final(self).position_in_period == old(
                self,
            ).position_in_period,
    {
        if open_phase_length > 0 {
            self.active = true;
            self.position_in_period = 0;
        } else {
            self.active = false;
        }
    }

    /// Emits the pulse amplitude at the current position and advances
    /// the counter; an idle source emits silence and does not advance.
    /// The pulse train this produces is the input of the source's
    /// low-pass resonator.
    pub fn next_amplitude(&mut self) -> (r: i32)
        requires
            old(self).active ==> old(self).position_in_period < usize::MAX,
        ensures
            final(self).active == old(self).active,
            !old(self).active ==> r == 0 && final(self).position_in_period == old(
                self,
            ).position_in_period,
            old(self).active ==> r == pulse_amplitude(old(self).position_in_period as nat)
                && final(self).position_in_period == old(self).position_in_period + 1,
    {
        if !self.active {
            return 0;
        }
        let r: i32 = if self.position_in_period == 1 {
            1
        } else if self.position_in_period == 2 {
            -1
        } else {
            0
        };
        self.position_in_period = self.position_in_period + 1;
        r
    }
}

/// Position counter of the natural (KLGLOTT88) glottal source. The
/// quadratic flow-derivative ramp runs while the position lies inside
/// the open phase; at its end the signal snaps to zero for the rest of
/// the period — the sharp discontinuity of the classic model.
pub struct NaturalTimer {
    /// Open glottis phase length in samples.
    pub open_phase_length: usize,
    /// Current sample position within the F0 period.
    pub position_in_period: usize,
}

impl NaturalTimer {
    pub fn new() -> (r: NaturalTimer)
        ensures
            r.open_phase_length == 0,
            r.position_in_period == 0,
    {
        NaturalTimer { open_phase_length: 0, position_in_period: 0 }
    }

    /// Start of an F0 period: keeps the period's open-phase length and
    /// resets the position.
    pub fn start_period(&mut self, open_phase_length: usize)
        ensures
            final(self).open_phase_length == open_phase_length,
            final(self).position_in_period == 0,
    {
        self.open_phase_length = open_phase_length;
        self.position_in_period = 0;
    }

    /// Advances to the next sample and says whether the open phase has
    /// ended there, in which case the source's signal snaps to zero
    /// instead of integrating the ramp further.
    pub fn advance(&mut self) -> (ended: bool)
        requires
            old(self).position_in_period < usize::MAX,
        ensures
            final(self).position_in_period == old(self).position_in_period + 1,
            final(self).open_phase_length == old(self).open_phase_length,
            ended == (final(self).position_in_period >= final(self).open_phase_length),
    {
        self.position_in_period = self.position_in_period + 1;
        self.position_in_period >= self.open_phase_length
    }
}

/// Sign with which the output of the parallel oral formant resonator at
/// index `i` (0-based) is summed into the parallel branch: the signs
/// alternate from formant to formant (Klatt 1980, Fig. 13).
pub fn alternating_sign(i: usize) -> (r: i32)
    ensures
        r == if i % 2 == 0 {
            1int
        } else {
            -1int
        },
{
    if i % 2 == 0 {
        1
    } else {
        -1
    }
}

/// Whether the parallel oral formant resonator at index `i` (0-based)
/// reads the differentiated source with frication added, rather than the
/// plain source. Only the first oral formant reads the plain source; the
/// same predicate decides which formants get their peak gain compensated
/// for the differencing filter's gain.
pub fn parallel_formant_uses_difference(i: usize) -> (r: bool)
    ensures
        r == (i >= 1),
{
    i >= 1
}

} // verus!
