use xsynth_core::envelope::{EnvelopeDescriptor, EnvelopeGenerator};
use xsynth_core::fixed::{fixed_mul, mix_add};
use xsynth_core::pitch::{amp_for_vel, key_ratio};

fn square_descriptor() -> EnvelopeDescriptor {
    EnvelopeDescriptor {
        start_percent: 0,
        delay: 0,
        attack: 0,
        hold: 0,
        decay: 100_000,
        sustain_percent: 700_000,
        release: 200_000,
    }
}

#[test]
fn envelope_trajectory_at_48k() {
    let params = square_descriptor().to_envelope_params(48_000);
    assert_eq!(params.decay_samples, 4_800);
    assert_eq!(params.release_samples, 9_600);

    let mut gen = EnvelopeGenerator::new(params);
    // At the very first sample the envelope sits at its start level.
    assert_eq!(gen.value(), 0);

    // Half way through the decay the level is half way to the sustain level.
    for _ in 0..2_400 {
        gen.step();
    }
    assert_eq!(gen.value(), 850_000);

    // At the end of the decay (t = 0.1 s) the level is the sustain level.
    for _ in 0..2_400 {
        gen.step();
    }
    assert_eq!(gen.value(), 700_000);

    // Sustain holds indefinitely until release.
    for _ in 0..10_000 {
        gen.step();
    }
    assert_eq!(gen.value(), 700_000);
    assert!(!gen.is_releasing());
    assert!(!gen.is_ended());
}

#[test]
fn release_takes_exactly_its_duration() {
    let params = square_descriptor().to_envelope_params(48_000);
    let mut gen = EnvelopeGenerator::new(params);
    for _ in 0..4_800 {
        gen.step();
    }
    assert_eq!(gen.value(), 700_000);

    gen.signal_release();
    assert!(gen.is_releasing());
    assert_eq!(gen.value(), 700_000);

    // One sample before the release duration has elapsed the envelope is
    // still audible; one sample later it is silent and ended.
    for _ in 0..9_599 {
        gen.step();
    }
    assert!(gen.value() > 0);
    assert!(!gen.is_ended());
    gen.step();
    assert_eq!(gen.value(), 0);
    assert!(gen.is_ended());
}

#[test]
fn release_duration_independent_of_when_signaled() {
    let params = square_descriptor().to_envelope_params(48_000);

    // Signal release early, during the decay.
    let mut early = EnvelopeGenerator::new(params);
    for _ in 0..100 {
        early.step();
    }
    early.signal_release();
    for _ in 0..9_599 {
        early.step();
    }
    assert!(!early.is_ended());
    early.step();
    assert!(early.is_ended());

    // Signal release late, deep into sustain: same post-release length.
    let mut late = EnvelopeGenerator::new(params);
    for _ in 0..50_000 {
        late.step();
    }
    late.signal_release();
    for _ in 0..9_599 {
        late.step();
    }
    assert!(!late.is_ended());
    late.step();
    assert!(late.is_ended());
}

#[test]
fn signal_release_is_idempotent() {
    let params = square_descriptor().to_envelope_params(48_000);
    let mut once = EnvelopeGenerator::new(params);
    for _ in 0..4_800 {
        once.step();
    }
    once.signal_release();

    let mut twice = once;
    twice.signal_release();
    assert_eq!(once, twice);

    // The trajectories stay identical sample for sample.
    for _ in 0..10_000 {
        once.step();
        twice.step();
        assert_eq!(once.value(), twice.value());
        assert_eq!(once, twice);
    }
}

#[test]
fn velocity_amplitude_values() {
    assert_eq!(amp_for_vel(127), 1_000_000);
    assert_eq!(amp_for_vel(126), 961_538);
    assert_eq!(amp_for_vel(125), 924_555);
    // Lower velocities only ever attenuate.
    let mut prev = 1_000_001i64;
    for vel in (0..=127u8).rev() {
        let a = amp_for_vel(vel);
        assert!(a <= prev);
        assert!(a >= 0);
        prev = a;
    }
}

#[test]
fn key_ratio_reference_values() {
    // Inside the covered range the sample plays at unit ratio.
    assert_eq!(key_ratio(21), 1_000_000);
    assert_eq!(key_ratio(60), 1_000_000);
    assert_eq!(key_ratio(108), 1_000_000);
    // One semitone below and above the edges.
    assert_eq!(key_ratio(20), 943_874);
    assert_eq!(key_ratio(109), 1_059_463);
    // The extremes of the key space.
    assert_eq!(key_ratio(0), 297_302);
    assert_eq!(key_ratio(127), 2_996_614);
    // One octave above the top edge doubles the frequency.
    assert_eq!(key_ratio(120), 2_000_000);
}

#[test]
fn fixed_mul_truncates_toward_zero() {
    assert_eq!(fixed_mul(500_000, 500_000), 250_000);
    assert_eq!(fixed_mul(-500_000, 500_000), -250_000);
    assert_eq!(fixed_mul(1_000_000, -1_000_000), -1_000_000);
    // Products below one unit truncate to silence, from both sides.
    assert_eq!(fixed_mul(-1, 999_999), 0);
    assert_eq!(fixed_mul(1, 999_999), 0);
}

#[test]
fn mix_add_wraps_and_commutes() {
    assert_eq!(mix_add(3, 4), 7);
    assert_eq!(mix_add(i64::MAX, 1), i64::MIN);
    let vals = [i64::MAX - 2, -5, 1_000_000, i64::MIN + 7];
    for &a in &vals {
        for &b in &vals {
            assert_eq!(mix_add(a, b), mix_add(b, a));
        }
    }
}
