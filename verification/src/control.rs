use vstd::prelude::*;

verus! {

/// Largest accepted pitch multiplier: sixteen times the unit ratio.
pub const PITCH_MULT_MAX: u64 = 16_000_000;

/// Continuously mutable per-channel control state, read live by every
/// voice of the channel on each render step. Values are scaled by `SCALE`.
#[derive(Clone, Copy, PartialEq, Eq, Structural, Debug)]
pub struct VoiceControlData {
    /// Multiplier applied to every voice's base pitch, scaled by `SCALE`;
    /// the unit ratio leaves pitch unchanged, zero freezes playback.
    pub voice_pitch_multiplier: u64,
}

/// A control-plane command scoped to one channel's control state.
#[derive(Clone, Copy, PartialEq, Eq, Structural, Debug)]
pub enum ControlEvent {
    /// A raw controller-id/value pair; controllers this engine does not
    /// recognize are absorbed without effect.
    Raw(u8, u8),
    /// A pitch-bend value normalized to `[-SCALE, SCALE]`, offsetting the
    /// pitch multiplier linearly around the unit ratio.
    PitchBendValue(i64),
}

/// The pitch multiplier a normalized bend value sets: the unit ratio
/// offset by the bend, with the bend clamped to one unit either way.
pub open spec fn spec_bend_multiplier(bend: i64) -> int {
    if bend < -1_000_000 {
        0
    } else if bend > 1_000_000 {
        2_000_000
    } else {
        1_000_000 + bend
    }
}

impl VoiceControlData {
    pub open spec fn wf(&self) -> bool {
        self.voice_pitch_multiplier <= PITCH_MULT_MAX
    }

    /// Fresh control state: unit pitch multiplier.
    pub fn new() -> (r: VoiceControlData)
        ensures
            r.voice_pitch_multiplier == 1_000_000,
            r.wf(),
    {
        VoiceControlData { voice_pitch_multiplier: 1_000_000 }
    }

    /// The control state after one control event is applied:
    /// a pitch bend replaces the pitch multiplier, a raw controller pair
    /// is absorbed without effect.
    pub open spec fn spec_apply(&self, ev: ControlEvent) -> VoiceControlData {
        match ev {
            ControlEvent::Raw(_, _) => *self,
            ControlEvent::PitchBendValue(bend) => VoiceControlData {
                voice_pitch_multiplier: spec_bend_multiplier(bend) as u64,
            },
        }
    }

    /// Apply one control event to this channel's control state.
    pub fn apply(&mut self, ev: ControlEvent)
        requires
            old(self).wf(),
        ensures
            *final(self) == old(self).spec_apply(ev),
            final(self).wf(),
    {
        match ev {
            ControlEvent::Raw(_, _) => {},
            ControlEvent::PitchBendValue(bend) => {
                let clamped: i64 = if bend < -1_000_000 {
                    -1_000_000
                } else if bend > 1_000_000 {
                    1_000_000
                } else {
                    bend
                };
                self.voice_pitch_multiplier = (1_000_000 + clamped) as u64;
            },
        }
    }
}

} // verus!
