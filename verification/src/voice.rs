use vstd::prelude::*;
use vstd::arithmetic::div_mod::{lemma_div_is_ordered, lemma_fundamental_div_mod};
use crate::control::VoiceControlData;
use crate::envelope::{spec_step_n, EnvelopeGenerator, EnvelopeParameters};
use crate::fixed::{fixed_mul, lemma_fixed_mul_bound, lemma_wadd_exchange, mix_add, spec_fixed_mul, wadd};
use crate::sample::{spec_read_at, StereoVoiceSampler};

verus! {

/// Largest accepted base pitch factor, scaled by `SCALE`.
pub const BASE_PITCH_MAX: u64 = 100_000_000;

/// One currently-sounding note: per-note amplitude and base pitch, a
/// stereo sampler over the note's sample data, and a volume envelope.
/// Rendering mixes the voice's output additively into a caller buffer.
pub struct VoiceBase {
    pub key: u8,
    pub vel: u8,
    /// Velocity-derived amplitude, scaled by `SCALE`.
    pub amp: i64,
    /// Base sample-playback rate ratio, scaled by `SCALE`.
    pub base_freq: u64,
    pub sampler: StereoVoiceSampler,
    pub envelope: EnvelopeGenerator,
}

/// The per-frame pitch factor: the voice's base pitch scaled live by the
/// channel's pitch multiplier.
pub open spec fn spec_pitch(v: VoiceBase, c: VoiceControlData) -> int {
    v.base_freq * c.voice_pitch_multiplier / 1_000_000
}

/// The left output of one frame: the nearest sample under the cursor,
/// scaled by the velocity amplitude and the current envelope level.
pub open spec fn spec_frame_l(v: VoiceBase, c: VoiceControlData) -> int {
    spec_fixed_mul(
        spec_fixed_mul(
            spec_read_at(v.sampler.left.data@, v.sampler.left.cursor) as i64,
            v.amp,
        ) as i64,
        v.envelope.spec_value() as i64,
    )
}

/// The right output of one frame.
pub open spec fn spec_frame_r(v: VoiceBase, c: VoiceControlData) -> int {
    spec_fixed_mul(
        spec_fixed_mul(
            spec_read_at(v.sampler.right.data@, v.sampler.right.cursor) as i64,
            v.amp,
        ) as i64,
        v.envelope.spec_value() as i64,
    )
}

/// The mathematical content of a voice: its per-note parameters, the
/// sample data and cursors of both stereo channels, and its envelope
/// state.
pub struct VoiceView {
    pub key: u8,
    pub vel: u8,
    pub amp: i64,
    pub base_freq: u64,
    pub left_data: Seq<i64>,
    pub left_cursor: u64,
    pub right_data: Seq<i64>,
    pub right_cursor: u64,
    pub envelope: EnvelopeGenerator,
}

impl View for VoiceBase {
    type V = VoiceView;

    open spec fn view(&self) -> VoiceView {
        VoiceView {
            key: self.key,
            vel: self.vel,
            amp: self.amp,
            base_freq: self.base_freq,
            left_data: self.sampler.left.data@,
            left_cursor: self.sampler.left.cursor,
            right_data: self.sampler.right.data@,
            right_cursor: self.sampler.right.cursor,
            envelope: self.envelope,
        }
    }
}

/// The view of a voice just spawned: cursors at the buffer starts and a
/// fresh envelope.
pub open spec fn spec_fresh_voice_view(
    key: u8,
    vel: u8,
    amp: i64,
    base_freq: u64,
    left_data: Seq<i64>,
    right_data: Seq<i64>,
    params: EnvelopeParameters,
) -> VoiceView {
    VoiceView {
        key,
        vel,
        amp,
        base_freq,
        left_data,
        left_cursor: 0,
        right_data,
        right_cursor: 0,
        envelope: EnvelopeGenerator {
            params,
            elapsed: 0,
            releasing: false,
            release_level: 0,
            release_elapsed: 0,
        },
    }
}

impl VoiceBase {
    pub open spec fn wf(&self) -> bool {
        &&& 0 <= self.amp <= 1_000_000
        &&& self.base_freq <= BASE_PITCH_MAX
        &&& self.sampler.wf()
        &&& self.envelope.wf()
    }

    /// The voice one frame later: both sampler channels advanced by the
    /// current pitch factor, the envelope advanced by one sample.
    pub open spec fn spec_step_voice(&self, c: VoiceControlData) -> VoiceBase {
        VoiceBase {
            sampler: self.sampler.spec_advanced(spec_pitch(*self, c) as u64),
            envelope: self.envelope.spec_step(),
            ..*self
        }
    }

    /// The voice after release has been signaled: a no-op if already
    /// releasing.
    pub open spec fn spec_signal_release(&self) -> VoiceBase {
        VoiceBase { envelope: self.envelope.spec_signal_release(), ..*self }
    }

    pub fn new(
        key: u8,
        vel: u8,
        amp: i64,
        base_freq: u64,
        sampler: StereoVoiceSampler,
        envelope_params: EnvelopeParameters,
    ) -> (r: VoiceBase)
        requires
            0 <= amp <= 1_000_000,
            base_freq <= BASE_PITCH_MAX,
            sampler.wf(),
            envelope_params.wf(),
        ensures
            r == (VoiceBase {
                key,
                vel,
                amp,
                base_freq,
                sampler,
                envelope: EnvelopeGenerator {
                    params: envelope_params,
                    elapsed: 0,
                    releasing: false,
                    release_level: 0,
                    release_elapsed: 0,
                },
            }),
            r.wf(),
    {
        VoiceBase {
            key,
            vel,
            amp,
            base_freq,
            sampler,
            envelope: EnvelopeGenerator::new(envelope_params),
        }
    }

    /// True once the envelope can no longer produce nonzero output.
    pub fn is_ended(&self) -> (r: bool)
        ensures
            r == self.envelope.spec_ended(),
    {
        self.envelope.is_ended()
    }

    /// True once release has been signaled.
    pub fn is_releasing(&self) -> (r: bool)
        ensures
            r == self.envelope.releasing,
    {
        self.envelope.is_releasing()
    }

    /// Signal the irreversible transition into release; a second call is
    /// a no-op.
    pub fn signal_release(&mut self)
        requires
            old(self).wf(),
        ensures
            *final(self) == old(self).spec_signal_release(),
            final(self).wf(),
            final(self).envelope.releasing,
    {
        self.envelope.signal_release();
    }

    /// Produce one frame of output and advance the voice by one frame.
    pub fn render_frame(&mut self, control: &VoiceControlData) -> (lr: (i64, i64))
        requires
            old(self).wf(),
            control.wf(),
        ensures
            lr.0 == spec_frame_l(*old(self), *control),
            lr.1 == spec_frame_r(*old(self), *control),
            -1_000_000 <= lr.0 <= 1_000_000,
            -1_000_000 <= lr.1 <= 1_000_000,
            *final(self) == old(self).spec_step_voice(*control),
            final(self).wf(),
    {
        proof {
            lemma_pitch_bound(self.base_freq, control.voice_pitch_multiplier);
        }
        let pitch: u64 = self.base_freq * control.voice_pitch_multiplier / 1_000_000;
        let env_val: u64 = self.envelope.value();
        let ls: i64 = self.sampler.left.read();
        let rs: i64 = self.sampler.right.read();
        proof {
            lemma_fixed_mul_bound(ls, self.amp, 1_000_000);
            lemma_fixed_mul_bound(rs, self.amp, 1_000_000);
        }
        let lm: i64 = fixed_mul(ls, self.amp);
        let rm: i64 = fixed_mul(rs, self.amp);
        proof {
            lemma_fixed_mul_bound(lm, env_val as i64, 1_000_000);
            lemma_fixed_mul_bound(rm, env_val as i64, 1_000_000);
        }
        let l: i64 = fixed_mul(lm, env_val as i64);
        let r: i64 = fixed_mul(rm, env_val as i64);
        self.sampler.advance(pitch);
        self.envelope.step();
        (l, r)
    }

    /// Render one frame per stereo pair of the buffer, mixing additively
    /// into what the buffer already holds, and advance the voice by the
    /// number of frames rendered.
    pub fn render_to(&mut self, control: &VoiceControlData, out: &mut Vec<i64>)
        requires
            old(self).wf(),
            control.wf(),
        ensures
            final(out)@ == spec_mix(old(out)@, *old(self), *control),
            *final(self) == spec_voice_n(*old(self), *control, (old(out)@.len() / 2) as nat),
            final(self).wf(),
    {
        let ghost v0 = *self;
        let ghost buf0 = out@;
        let frames: usize = out.len() / 2;
        proof {
            lemma_fundamental_div_mod(buf0.len() as int, 2);
        }
        let mut f: usize = 0;
        while f < frames
            invariant
                control.wf(),
                v0.wf(),
                self.wf(),
                *self == spec_voice_n(v0, *control, f as nat),
                out@.len() == buf0.len(),
                frames == buf0.len() / 2,
                2 * frames <= buf0.len(),
                buf0.len() <= usize::MAX,
                f <= frames,
                forall|i: int| 0 <= i < 2 * (f as int) ==> out@[i] == spec_mix(buf0, v0, *control)[i],
                forall|i: int| 2 * (f as int) <= i < buf0.len() ==> out@[i] == buf0[i],
            decreases frames - f,
        {
            proof {
                lemma_contrib_range(v0, *control, f as nat);
            }
            let lr = self.render_frame(control);
            let idx: usize = 2 * f;
            let a: i64 = out[idx];
            out.set(idx, mix_add(a, lr.0));
            let b: i64 = out[idx + 1];
            out.set(idx + 1, mix_add(b, lr.1));
            f = f + 1;
        }
        proof {
            assert(out@ =~= spec_mix(buf0, v0, *control));
        }
    }
}

/// The voice after `n` frames rendered under fixed control state.
pub open spec fn spec_voice_n(v: VoiceBase, c: VoiceControlData, n: nat) -> VoiceBase
    decreases n,
{
    if n == 0 {
        v
    } else {
        spec_voice_n(v, c, (n - 1) as nat).spec_step_voice(c)
    }
}

/// The left contribution of the voice's `f`-th rendered frame.
pub open spec fn spec_contrib_l(v: VoiceBase, c: VoiceControlData, f: nat) -> int {
    spec_frame_l(spec_voice_n(v, c, f), c)
}

/// The right contribution of the voice's `f`-th rendered frame.
pub open spec fn spec_contrib_r(v: VoiceBase, c: VoiceControlData, f: nat) -> int {
    spec_frame_r(spec_voice_n(v, c, f), c)
}

/// A buffer after one voice has been rendered into it additively: each
/// complete stereo pair receives the voice's frame contribution on top of
/// what it held; a trailing odd element is untouched.
pub open spec fn spec_mix(buf: Seq<i64>, v: VoiceBase, c: VoiceControlData) -> Seq<i64> {
    Seq::new(
        buf.len(),
        |i: int|
            if i < 2 * ((buf.len() / 2) as int) {
                if i % 2 == 0 {
                    wadd(buf[i], spec_contrib_l(v, c, (i / 2) as nat) as i64)
                } else {
                    wadd(buf[i], spec_contrib_r(v, c, (i / 2) as nat) as i64)
                }
            } else {
                buf[i]
            },
    )
}

/// The product of a base pitch and a pitch multiplier stays within the
/// per-frame advance cap.
proof fn lemma_pitch_bound(b: u64, m: u64)
    requires
        b <= BASE_PITCH_MAX,
        m <= crate::control::PITCH_MULT_MAX,
    ensures
        b * m <= 1_600_000_000_000_000,
        b * m / 1_000_000 <= crate::sample::PITCH_STEP_MAX,
{
    assert(b * m <= 1_600_000_000_000_000) by (nonlinear_arith)
        requires
            b <= 100_000_000,
            m <= 16_000_000,
    ;
    lemma_div_is_ordered((b * m) as int, 1_600_000_000_000_000, 1_000_000);
}

/// Rendering preserves well-formedness and the per-note parameters, and
/// advances the envelope by exactly one step per frame.
pub proof fn lemma_voice_n_wf(v: VoiceBase, c: VoiceControlData, n: nat)
    requires
        v.wf(),
        c.wf(),
    ensures
        spec_voice_n(v, c, n).wf(),
        spec_voice_n(v, c, n).key == v.key,
        spec_voice_n(v, c, n).vel == v.vel,
        spec_voice_n(v, c, n).amp == v.amp,
        spec_voice_n(v, c, n).base_freq == v.base_freq,
        spec_voice_n(v, c, n).envelope == spec_step_n(v.envelope, n),
    decreases n,
{
    if n > 0 {
        lemma_voice_n_wf(v, c, (n - 1) as nat);
    }
}

/// Frame contributions stay within one full-scale unit.
pub proof fn lemma_contrib_range(v: VoiceBase, c: VoiceControlData, f: nat)
    requires
        v.wf(),
        c.wf(),
    ensures
        -1_000_000 <= spec_contrib_l(v, c, f) <= 1_000_000,
        -1_000_000 <= spec_contrib_r(v, c, f) <= 1_000_000,
{
    lemma_voice_n_wf(v, c, f);
    let vf = spec_voice_n(v, c, f);
    crate::envelope::lemma_level_range(vf.envelope.params, vf.envelope.elapsed as int);
    crate::envelope::lemma_release_level_range(
        vf.envelope.release_level as int,
        vf.envelope.params.release_samples as int,
        vf.envelope.release_elapsed as int,
    );
    let ls = spec_read_at(vf.sampler.left.data@, vf.sampler.left.cursor) as i64;
    let rs = spec_read_at(vf.sampler.right.data@, vf.sampler.right.cursor) as i64;
    lemma_fixed_mul_bound(ls, vf.amp, 1_000_000);
    lemma_fixed_mul_bound(rs, vf.amp, 1_000_000);
    lemma_fixed_mul_bound(
        spec_fixed_mul(ls, vf.amp) as i64,
        vf.envelope.spec_value() as i64,
        1_000_000,
    );
    lemma_fixed_mul_bound(
        spec_fixed_mul(rs, vf.amp) as i64,
        vf.envelope.spec_value() as i64,
        1_000_000,
    );
}

/// Additive mixing is order-independent: rendering two voices into a
/// buffer in either order produces the same final buffer, exactly.
pub proof fn lemma_mix_exchange(
    buf: Seq<i64>,
    v1: VoiceBase,
    c1: VoiceControlData,
    v2: VoiceBase,
    c2: VoiceControlData,
)
    ensures
        spec_mix(spec_mix(buf, v1, c1), v2, c2) == spec_mix(spec_mix(buf, v2, c2), v1, c1),
{
    let a = spec_mix(spec_mix(buf, v1, c1), v2, c2);
    let b = spec_mix(spec_mix(buf, v2, c2), v1, c1);
    assert forall|i: int| 0 <= i < buf.len() implies a[i] == b[i] by {
        if i < 2 * ((buf.len() / 2) as int) {
            if i % 2 == 0 {
                lemma_wadd_exchange(
                    buf[i],
                    spec_contrib_l(v1, c1, (i / 2) as nat) as i64,
                    spec_contrib_l(v2, c2, (i / 2) as nat) as i64,
                );
            } else {
                lemma_wadd_exchange(
                    buf[i],
                    spec_contrib_r(v1, c1, (i / 2) as nat) as i64,
                    spec_contrib_r(v2, c2, (i / 2) as nat) as i64,
                );
            }
        }
    }
    assert(a =~= b);
}

/// Signaling release on a voice twice leaves exactly the state one signal
/// leaves: the trajectory rendered afterward is the same.
pub proof fn lemma_voice_signal_release_idempotent(v: VoiceBase)
    ensures
        v.spec_signal_release().spec_signal_release() == v.spec_signal_release(),
{
}

/// A freshly spawned voice, signaled to release and rendered for at least
/// the full release duration, reaches its end: no voice sounds forever
/// once released.
pub proof fn lemma_spawned_voice_ends(v: VoiceBase, c: VoiceControlData, n: nat)
    requires
        v.wf(),
        c.wf(),
        n >= v.envelope.params.release_samples,
    ensures
        spec_voice_n(v.spec_signal_release(), c, n).envelope.spec_ended(),
{
    crate::envelope::lemma_level_range(v.envelope.params, v.envelope.elapsed as int);
    lemma_released_voice_ends(v.spec_signal_release(), c, n);
}

/// A releasing voice ends after at most the remainder of its release
/// segment: rendering that many frames (or more) ends it.
pub proof fn lemma_released_voice_ends(v: VoiceBase, c: VoiceControlData, n: nat)
    requires
        v.wf(),
        c.wf(),
        v.envelope.releasing,
        n >= v.envelope.params.release_samples - v.envelope.release_elapsed,
    ensures
        spec_voice_n(v, c, n).envelope.spec_ended(),
{
    lemma_voice_n_wf(v, c, n);
    crate::envelope::lemma_release_terminates(v.envelope, n);
}

} // verus!
