pub mod channel;
pub mod control;
pub mod envelope;
pub mod fixed;
pub mod pitch;
pub mod sample;
pub mod scheduler;
pub mod soundfont;
pub mod synth;
pub mod voice;

use vstd::prelude::*;

verus! {

/// Fixed-point scale: one unit of level, amplitude or pitch ratio is
/// `1/SCALE`. Envelope levels and velocity amplitudes lie in `[0, SCALE]`,
/// audio samples in `[-SCALE, SCALE]`.
pub const SCALE: i64 = 1_000_000;

/// Fixed audio stream parameters shared by a soundfont and the engine
/// rendering from it.
#[derive(Clone, Copy, PartialEq, Eq, Structural, Debug)]
pub struct AudioStreamParams {
    pub sample_rate: u32,
    pub channels: u16,
}

impl AudioStreamParams {
    pub fn new(sample_rate: u32, channels: u16) -> (r: AudioStreamParams)
        ensures
            r.sample_rate == sample_rate,
            r.channels == channels,
    {
        AudioStreamParams { sample_rate, channels }
    }
}

} // verus!
