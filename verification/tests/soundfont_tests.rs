use xsynth_core::control::VoiceControlData;
use xsynth_core::soundfont::{
    KeySample, SoundfontBase, SoundfontError, SquareSoundfont, VoiceSpawner,
};

fn flat_samples(value: i64, len: usize) -> Vec<KeySample> {
    let mut samples = Vec::new();
    for _ in 0..88 {
        let left = vec![value; len];
        let right = vec![-value; len];
        samples.push(KeySample { left, right });
    }
    samples
}

#[test]
fn construction_checks_stream_params() {
    let r = SquareSoundfont::new(4_000, 2, flat_samples(100_000, 4));
    assert!(matches!(r, Err(SoundfontError::UnsupportedStreamParams)));
    let r = SquareSoundfont::new(48_000, 1, flat_samples(100_000, 4));
    assert!(matches!(r, Err(SoundfontError::UnsupportedStreamParams)));
    let r = SquareSoundfont::new(500_000, 2, flat_samples(100_000, 4));
    assert!(matches!(r, Err(SoundfontError::UnsupportedStreamParams)));
}

#[test]
fn construction_checks_sample_table() {
    let mut short = flat_samples(100_000, 4);
    short.pop();
    let r = SquareSoundfont::new(48_000, 2, short);
    assert!(matches!(r, Err(SoundfontError::WrongSampleCount)));

    let mut bad = flat_samples(100_000, 4);
    bad[40].left[2] = 2_000_000;
    let r = SquareSoundfont::new(48_000, 2, bad);
    assert!(matches!(r, Err(SoundfontError::SampleOutOfRange)));
}

#[test]
fn construction_derives_envelope_once() {
    let sf = SquareSoundfont::new(48_000, 2, flat_samples(100_000, 4)).unwrap();
    assert_eq!(sf.volume_envelope_params.start_level, 0);
    assert_eq!(sf.volume_envelope_params.delay_samples, 0);
    assert_eq!(sf.volume_envelope_params.attack_samples, 0);
    assert_eq!(sf.volume_envelope_params.hold_samples, 0);
    assert_eq!(sf.volume_envelope_params.decay_samples, 4_800);
    assert_eq!(sf.volume_envelope_params.sustain_level, 700_000);
    assert_eq!(sf.volume_envelope_params.release_samples, 9_600);
    assert_eq!(sf.stream_params().sample_rate, 48_000);
    assert_eq!(sf.stream_params().channels, 2);
}

#[test]
fn spawner_pitch_inside_and_outside_range() {
    // At 48 kHz the rate conversion factor is 96000/48000 = 2 units.
    let sf = SquareSoundfont::new(48_000, 2, flat_samples(100_000, 4)).unwrap();

    let sp = &sf.get_attack_voice_spawners_at(60, 127)[0];
    assert_eq!(sp.base_freq, 2_000_000);

    // One semitone above the top edge: 2^(1/12) times the factor.
    let sp = &sf.get_attack_voice_spawners_at(109, 127)[0];
    assert_eq!(sp.base_freq, 2_118_926);

    // One semitone below the bottom edge.
    let sp = &sf.get_attack_voice_spawners_at(20, 127)[0];
    assert_eq!(sp.base_freq, 1_887_748);

    // At 96 kHz output the factor is one unit.
    let sf = SquareSoundfont::new(96_000, 2, flat_samples(100_000, 4)).unwrap();
    let sp = &sf.get_attack_voice_spawners_at(109, 127)[0];
    assert_eq!(sp.base_freq, 1_059_463);
}

#[test]
fn spawner_captures_velocity_amplitude() {
    let sf = SquareSoundfont::new(48_000, 2, flat_samples(100_000, 4)).unwrap();
    let sp = &sf.get_attack_voice_spawners_at(60, 126)[0];
    assert_eq!(sp.amp, 961_538);
    assert_eq!(sp.key, 60);
    assert_eq!(sp.vel, 126);
}

#[test]
fn no_release_layer_spawners() {
    let sf = SquareSoundfont::new(48_000, 2, flat_samples(100_000, 4)).unwrap();
    assert_eq!(sf.get_release_voice_spawners_at(60, 0).len(), 0);
}

#[test]
fn edge_keys_borrow_edge_samples() {
    // Give the two edge keys distinctive sample data.
    let mut samples = flat_samples(0, 4);
    samples[0].left = vec![111_111; 4];
    samples[87].left = vec![222_222; 4];
    let sf = SquareSoundfont::new(48_000, 2, samples).unwrap();

    let below = &sf.get_attack_voice_spawners_at(5, 127)[0];
    assert_eq!(below.samples.left[0], 111_111);
    let above = &sf.get_attack_voice_spawners_at(120, 127)[0];
    assert_eq!(above.samples.left[0], 222_222);
}

#[test]
fn spawned_voice_is_fresh() {
    let sf = SquareSoundfont::new(48_000, 2, flat_samples(100_000, 4)).unwrap();
    let control = VoiceControlData::new();
    let sp = &sf.get_attack_voice_spawners_at(60, 127)[0];
    let v = sp.spawn_voice(&control);
    assert!(!v.is_releasing());
    assert!(!v.is_ended());
}

#[test]
fn duplicate_preserves_behavior() {
    let sf = SquareSoundfont::new(48_000, 2, flat_samples(123_456, 4)).unwrap();
    let copy = sf.duplicate();
    assert_eq!(copy.stream_params(), sf.stream_params());
    let a = &sf.get_attack_voice_spawners_at(97, 64)[0];
    let b = &copy.get_attack_voice_spawners_at(97, 64)[0];
    assert_eq!(a.base_freq, b.base_freq);
    assert_eq!(a.amp, b.amp);
    assert_eq!(a.samples.left, b.samples.left);
    assert_eq!(a.samples.right, b.samples.right);
}
