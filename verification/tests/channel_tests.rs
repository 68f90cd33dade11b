use xsynth_core::channel::{ChannelEvent, VoiceChannel};
use xsynth_core::control::{ControlEvent, VoiceControlData};
use xsynth_core::soundfont::{KeySample, SoundfontBase, SquareSoundfont, VoiceSpawner};
use xsynth_core::synth::{RealtimeSynth, SynthEvent};
use xsynth_core::AudioStreamParams;

fn ramp_samples(len: usize) -> Vec<KeySample> {
    let mut samples = Vec::new();
    for k in 0..88i64 {
        let mut left = Vec::new();
        let mut right = Vec::new();
        for i in 0..len as i64 {
            left.push((k * 1_000 + i * 10).min(1_000_000));
            right.push((-(k * 1_000) - i * 10).max(-1_000_000));
        }
        samples.push(KeySample { left, right });
    }
    samples
}

fn new_soundfont() -> SquareSoundfont {
    SquareSoundfont::new(48_000, 2, ramp_samples(64)).unwrap()
}

#[test]
fn note_on_spawns_one_voice_per_soundfont() {
    let mut ch: VoiceChannel<SquareSoundfont> = VoiceChannel::new();
    ch.set_soundfonts(vec![new_soundfont(), new_soundfont()]);
    ch.note_on(60, 100);
    assert_eq!(ch.voice_count(), 2);
    // A second note-on stacks more voices polyphonically.
    ch.note_on(60, 100);
    assert_eq!(ch.voice_count(), 4);
}

#[test]
fn out_of_range_events_are_absorbed() {
    let mut ch: VoiceChannel<SquareSoundfont> = VoiceChannel::new();
    ch.set_soundfonts(vec![new_soundfont()]);
    ch.note_on(200, 100);
    assert_eq!(ch.voice_count(), 0);
    ch.note_on(60, 200);
    assert_eq!(ch.voice_count(), 0);
    ch.note_on(60, 100);
    ch.note_off(200);
    // The out-of-range note-off released nothing.
    let mut out = vec![0i64; 8];
    ch.render_block(&mut out);
    assert_eq!(ch.voice_count(), 1);
}

#[test]
fn mixing_is_commutative_across_voice_order() {
    let control = VoiceControlData::new();
    let sf = new_soundfont();
    let spawn = |key: u8| sf.get_attack_voice_spawners_at(key, 127)[0].spawn_voice(&control);

    let frames = 32usize;
    let mut buf_ab = vec![0i64; frames * 2];
    let mut a1 = spawn(40);
    let mut b1 = spawn(75);
    a1.render_to(&control, &mut buf_ab);
    b1.render_to(&control, &mut buf_ab);

    let mut buf_ba = vec![0i64; frames * 2];
    let mut a2 = spawn(40);
    let mut b2 = spawn(75);
    b2.render_to(&control, &mut buf_ba);
    a2.render_to(&control, &mut buf_ba);

    assert_eq!(buf_ab, buf_ba);
    // And something was actually rendered.
    assert!(buf_ab.iter().any(|&s| s != 0));
}

#[test]
fn render_mixes_additively_into_existing_buffer() {
    let mut ch: VoiceChannel<SquareSoundfont> = VoiceChannel::new();
    ch.set_soundfonts(vec![new_soundfont()]);

    // With no voices the buffer is untouched.
    let mut out = vec![7i64; 16];
    ch.render_block(&mut out);
    assert_eq!(out, vec![7i64; 16]);

    // With one voice the buffer holds 7 plus the voice's own rendering.
    ch.note_on(60, 127);
    let mut out_voice = vec![7i64; 16];
    ch.render_block(&mut out_voice);

    let control = VoiceControlData::new();
    let sf = new_soundfont();
    let mut lone = sf.get_attack_voice_spawners_at(60, 127)[0].spawn_voice(&control);
    let mut lone_buf = vec![0i64; 16];
    lone.render_to(&control, &mut lone_buf);
    for i in 0..16 {
        assert_eq!(out_voice[i], 7 + lone_buf[i]);
    }
}

#[test]
fn note_round_trip_leaves_no_voice() {
    let mut ch: VoiceChannel<SquareSoundfont> = VoiceChannel::new();
    ch.set_soundfonts(vec![new_soundfont()]);
    ch.note_on(60, 100);
    assert_eq!(ch.voice_count(), 1);
    ch.note_off(60);
    // No release-layer spawners: the pool still holds the releasing voice.
    assert_eq!(ch.voice_count(), 1);

    // The release tail is 0.2 s = 9600 frames at 48 kHz; render blocks of
    // 512 frames until it must have ended.
    let blocks = 9_600 / 512 + 1;
    for _ in 0..blocks {
        let mut out = vec![0i64; 1024];
        ch.render_block(&mut out);
    }
    assert_eq!(ch.voice_count(), 0);
}

#[test]
fn note_off_affects_only_its_key() {
    let mut ch: VoiceChannel<SquareSoundfont> = VoiceChannel::new();
    ch.set_soundfonts(vec![new_soundfont()]);
    ch.note_on(60, 100);
    ch.note_on(64, 100);
    ch.note_off(60);
    let blocks = 9_600 / 512 + 1;
    for _ in 0..blocks {
        let mut out = vec![0i64; 1024];
        ch.render_block(&mut out);
    }
    // Only the released key's voice ended.
    assert_eq!(ch.voice_count(), 1);
}

#[test]
fn pitch_bend_rewrites_control_state() {
    let mut ch: VoiceChannel<SquareSoundfont> = VoiceChannel::new();
    ch.control_event(ControlEvent::PitchBendValue(250_000));
    assert_eq!(ch.control.voice_pitch_multiplier, 1_250_000);
    // Bends are clamped to one unit either way.
    ch.control_event(ControlEvent::PitchBendValue(-9_000_000));
    assert_eq!(ch.control.voice_pitch_multiplier, 0);
    // Unrecognized raw controllers are absorbed.
    ch.control_event(ControlEvent::Raw(11, 64));
    assert_eq!(ch.control.voice_pitch_multiplier, 0);
}

#[test]
fn voice_ends_after_release_for_covered_keys() {
    let control = VoiceControlData::new();
    let sf = new_soundfont();
    for key in [21u8, 60, 108] {
        let mut v = sf.get_attack_voice_spawners_at(key, 127)[0].spawn_voice(&control);
        v.signal_release();
        // 9601 frames is more than the whole envelope tail.
        let mut out = vec![0i64; 2 * 9_601];
        v.render_to(&control, &mut out);
        assert!(v.is_ended());
    }
}

#[test]
fn signal_release_twice_same_rendering() {
    let control = VoiceControlData::new();
    let sf = new_soundfont();
    let mut once = sf.get_attack_voice_spawners_at(60, 127)[0].spawn_voice(&control);
    let mut twice = sf.get_attack_voice_spawners_at(60, 127)[0].spawn_voice(&control);
    once.signal_release();
    twice.signal_release();
    twice.signal_release();
    let mut buf_once = vec![0i64; 512];
    let mut buf_twice = vec![0i64; 512];
    once.render_to(&control, &mut buf_once);
    twice.render_to(&control, &mut buf_twice);
    assert_eq!(buf_once, buf_twice);
}

#[test]
fn synth_dispatches_events_and_counts_voices() {
    let mut synth: RealtimeSynth<SquareSoundfont> =
        RealtimeSynth::open(16, AudioStreamParams::new(48_000, 2));
    synth.send_event(SynthEvent::AllChannels(ChannelEvent::SetSoundfonts(vec![
        new_soundfont(),
    ])));
    synth.send_event(SynthEvent::Channel(0, ChannelEvent::NoteOn { key: 60, vel: 100 }));
    synth.send_event(SynthEvent::Channel(3, ChannelEvent::NoteOn { key: 72, vel: 100 }));
    // A channel index past the last channel is absorbed.
    synth.send_event(SynthEvent::Channel(99, ChannelEvent::NoteOn { key: 72, vel: 100 }));
    assert_eq!(synth.voice_count(), 2);

    let mut out = vec![0i64; 256];
    synth.render(&mut out);
    assert!(out.iter().any(|&s| s != 0));

    synth.send_event(SynthEvent::AllChannels(ChannelEvent::NoteOff { key: 60 }));
    synth.send_event(SynthEvent::AllChannels(ChannelEvent::NoteOff { key: 72 }));
    let blocks = 9_600 / 128 + 1;
    for _ in 0..blocks {
        let mut out = vec![0i64; 256];
        synth.render(&mut out);
    }
    assert_eq!(synth.voice_count(), 0);
}

#[test]
fn synth_stats_snapshot() {
    let mut synth: RealtimeSynth<SquareSoundfont> =
        RealtimeSynth::open(2, AudioStreamParams::new(48_000, 2));
    synth.send_event(SynthEvent::AllChannels(ChannelEvent::SetSoundfonts(vec![
        new_soundfont(),
    ])));
    synth.send_event(SynthEvent::Channel(1, ChannelEvent::NoteOn { key: 50, vel: 90 }));
    synth.record_samples_after_read(480);
    // Rendering 500 us of work per 1000 us buffer is a load of half a
    // unit; the average folds in one eighth of it.
    synth.record_render_time(500, 1_000);
    let stats = synth.stats();
    assert_eq!(stats.voice_count, 1);
    assert_eq!(stats.last_samples_after_read, 480);
    assert_eq!(stats.average_renderer_load, 62_500);
}
