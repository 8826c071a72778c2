use klatt::{
    FilterMode, GlottalSourceType, MAX_ORAL_FORMANTS, NaturalTimer, PeriodTiming, PulseTimer,
    alternating_sign, flutter_time, formant_entry, frame_length, get_m_parms,
    parallel_formant_uses_difference, select_output, total_sound_length,
};

#[test]
fn missing_formant_entries_disable_the_formant() {
    let freqs = vec![520.0f64, 1006.0, 2831.0];
    assert_eq!(formant_entry(&freqs, 1, f64::NAN), 1006.0);
    assert!(formant_entry(&freqs, 3, f64::NAN).is_nan());
    assert!(formant_entry(&Vec::<f64>::new(), 0, f64::NAN).is_nan());
}

#[test]
fn get_m_parms_works() {
    let m = get_m_parms();
    assert_eq!(m.sample_rate, 44100);
    assert_eq!(m.glottal_source_type, GlottalSourceType::Impulsive);
}

#[test]
fn max_oral_formants_is_six() {
    assert_eq!(MAX_ORAL_FORMANTS, 6);
}

#[test]
fn fresh_timing_needs_a_period() {
    let t = PeriodTiming::new();
    assert!(t.needs_new_period());
}

#[test]
fn period_boundary_for_canonical_vowel() {
    // f0 = 247 Hz at 44100 Hz: period of round(44100 / 247) samples,
    // open phase of round(179 * 0.7) samples for ratio 0.7.
    let period = (44100.0f64 / 247.0).round() as usize;
    assert_eq!(period, 179);
    let open = (period as f64 * 0.7).round() as usize;
    assert_eq!(open, 125);

    let mut t = PeriodTiming::new();
    t.begin_period(period, open);
    assert_eq!(t.period_length, 179);
    assert_eq!(t.open_phase_length, 125);
    assert_eq!(t.position_in_period, 0);

    for _ in 0..178 {
        assert!(!t.needs_new_period());
        t.advance();
    }
    assert!(!t.needs_new_period());
    t.advance();
    assert_eq!(t.position_in_period, 179);
    assert!(t.needs_new_period());
}

#[test]
fn degenerate_periods_have_no_open_phase() {
    let mut t = PeriodTiming::new();
    t.begin_period(1, 10);
    assert_eq!(t.open_phase_length, 0);
    t.begin_period(0, 5);
    assert_eq!(t.open_phase_length, 0);
    t.begin_period(2, 5);
    assert_eq!(t.open_phase_length, 5);
}

#[test]
fn open_phase_and_second_half_gates() {
    let mut t = PeriodTiming::new();
    t.begin_period(179, 125);
    assert!(t.in_open_phase());
    assert!(!t.in_second_half());
    for _ in 0..88 {
        t.advance();
    }
    // position 88: still in the first half (179 / 2 = 89)
    assert!(!t.in_second_half());
    t.advance();
    assert!(t.in_second_half());
    for _ in 0..35 {
        t.advance();
    }
    // position 124: last sample of the open phase
    assert!(t.in_open_phase());
    t.advance();
    assert!(!t.in_open_phase());
}

#[test]
fn pulse_timer_emits_the_pulse_pattern() {
    let mut p = PulseTimer::new();
    p.start_period(125);
    assert!(p.active);
    let first: Vec<i32> = (0..6).map(|_| p.next_amplitude()).collect();
    assert_eq!(first, vec![0, 1, -1, 0, 0, 0]);
    p.start_period(125);
    assert_eq!(p.next_amplitude(), 0);
    assert_eq!(p.next_amplitude(), 1);
}

#[test]
fn pulse_timer_goes_idle_without_open_phase() {
    let mut p = PulseTimer::new();
    p.start_period(0);
    assert!(!p.active);
    for _ in 0..4 {
        assert_eq!(p.next_amplitude(), 0);
    }
    assert_eq!(p.position_in_period, 0);
}

#[test]
fn natural_timer_snaps_at_end_of_open_phase() {
    let mut n = NaturalTimer::new();
    n.start_period(3);
    assert!(!n.advance());
    assert!(!n.advance());
    assert!(n.advance());
    assert!(n.advance());
    n.start_period(0);
    assert!(n.advance());
}

#[test]
fn parallel_formant_signs_alternate() {
    let signs: Vec<i32> = (0..MAX_ORAL_FORMANTS).map(alternating_sign).collect();
    assert_eq!(signs, vec![1, -1, 1, -1, 1, -1]);
}

#[test]
fn only_the_first_parallel_formant_reads_the_plain_source() {
    assert!(!parallel_formant_uses_difference(0));
    for i in 1..MAX_ORAL_FORMANTS {
        assert!(parallel_formant_uses_difference(i));
    }
}

#[test]
fn flutter_time_counts_whole_seconds_plus_offset() {
    assert_eq!(flutter_time(88200, 44100, 5), 7);
    assert_eq!(flutter_time(44099, 44100, 0), 0);
    assert_eq!(flutter_time(0, 44100, 1000), 1000);
}

#[test]
fn frame_length_is_duration_times_rate() {
    assert_eq!(frame_length(1, 44100), 44100);
    assert_eq!(frame_length(2, 22050), 44100);
    assert_eq!(frame_length(0, 44100), 0);
}

#[test]
fn one_second_sound_has_sample_rate_many_samples() {
    assert_eq!(total_sound_length(&vec![1], 44100), 44100);
}

#[test]
fn total_sound_length_sums_the_frames() {
    assert_eq!(total_sound_length(&vec![1, 2], 8000), 24000);
    assert_eq!(total_sound_length(&vec![], 44100), 0);
    assert_eq!(total_sound_length(&vec![3, 0, 2], 100), 500);
}

#[test]
fn passthrough_filters_return_their_input_unchanged() {
    let x = 0.375f64;
    let y = select_output(&FilterMode::Passthrough, x, 0.0, 9.25);
    assert_eq!(y, x);
    let z = select_output(&FilterMode::Passthrough, -1.5f64, 0.0, 9.25);
    assert_eq!(z, -1.5);
}

#[test]
fn passthrough_holds_for_any_sample_type() {
    let s = select_output(
        &FilterMode::Passthrough,
        String::from("signal"),
        String::new(),
        String::from("other"),
    );
    assert_eq!(s, "signal");
}

#[test]
fn muted_filters_return_zero() {
    let y = select_output(&FilterMode::Muted, 0.375f64, 0.0, 9.25);
    assert_eq!(y, 0.0);
}

#[test]
fn active_filters_return_the_filtered_value() {
    let y = select_output(&FilterMode::Active, 0.375f64, 0.0, 9.25);
    assert_eq!(y, 9.25);
    assert_ne!(FilterMode::Active, FilterMode::Passthrough);
}
