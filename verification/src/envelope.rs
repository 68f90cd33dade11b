use vstd::prelude::*;
use vstd::arithmetic::div_mod::{
    lemma_div_is_ordered, lemma_div_multiples_vanish, lemma_div_pos_is_pos,
};
use vstd::arithmetic::mul::lemma_mul_inequality;

verus! {

/// Longest accepted duration of one envelope segment, in microseconds.
pub const MAX_SEGMENT_MICROS: u64 = 1_000_000_000_000;

/// Longest representable duration of one envelope segment, in samples.
pub const MAX_SEGMENT_SAMPLES: u64 = 1_000_000_000_000;

/// Highest supported output sample rate.
pub const MAX_SAMPLE_RATE: u32 = 384_000;

/// Declarative envelope description: levels are scaled by `SCALE`,
/// durations are in microseconds.
#[derive(Clone, Copy, PartialEq, Eq, Structural, Debug)]
pub struct EnvelopeDescriptor {
    /// Level at the very start of the envelope, in `[0, SCALE]`.
    pub start_percent: u64,
    /// Duration spent at the start level before the attack, in microseconds.
    pub delay: u64,
    /// Duration of the climb from the start level to full scale, in microseconds.
    pub attack: u64,
    /// Duration spent at full scale, in microseconds.
    pub hold: u64,
    /// Duration of the fall from full scale to the sustain level, in microseconds.
    pub decay: u64,
    /// Level held after the decay until release, in `[0, SCALE]`.
    pub sustain_percent: u64,
    /// Duration of the fall from the level at release to silence, in microseconds.
    pub release: u64,
}

impl EnvelopeDescriptor {
    pub open spec fn wf(&self) -> bool {
        &&& self.start_percent <= 1_000_000
        &&& self.sustain_percent <= 1_000_000
        &&& self.delay <= MAX_SEGMENT_MICROS
        &&& self.attack <= MAX_SEGMENT_MICROS
        &&& self.hold <= MAX_SEGMENT_MICROS
        &&& self.decay <= MAX_SEGMENT_MICROS
        &&& self.release <= MAX_SEGMENT_MICROS
    }

    /// The sample-count form of this descriptor at a given output sample
    /// rate: each duration becomes `micros * rate / 1_000_000` samples.
    pub open spec fn spec_to_params(&self, sample_rate: u32) -> EnvelopeParameters {
        EnvelopeParameters {
            start_level: self.start_percent,
            delay_samples: spec_samples_for(self.delay, sample_rate),
            attack_samples: spec_samples_for(self.attack, sample_rate),
            hold_samples: spec_samples_for(self.hold, sample_rate),
            decay_samples: spec_samples_for(self.decay, sample_rate),
            sustain_level: self.sustain_percent,
            release_samples: spec_samples_for(self.release, sample_rate),
        }
    }

    /// Derive the per-sample envelope parameters once for a stream's rate.
    pub fn to_envelope_params(&self, sample_rate: u32) -> (p: EnvelopeParameters)
        requires
            self.wf(),
            1 <= sample_rate <= MAX_SAMPLE_RATE,
        ensures
            p == self.spec_to_params(sample_rate),
            p.wf(),
    {
        EnvelopeParameters {
            start_level: self.start_percent,
            delay_samples: samples_for(self.delay, sample_rate),
            attack_samples: samples_for(self.attack, sample_rate),
            hold_samples: samples_for(self.hold, sample_rate),
            decay_samples: samples_for(self.decay, sample_rate),
            sustain_level: self.sustain_percent,
            release_samples: samples_for(self.release, sample_rate),
        }
    }
}

/// Duration in samples of a duration given in microseconds, at a sample
/// rate in Hz.
pub open spec fn spec_samples_for(micros: u64, sample_rate: u32) -> u64 {
    ((micros * sample_rate) / 1_000_000) as u64
}

pub fn samples_for(micros: u64, sample_rate: u32) -> (r: u64)
    requires
        micros <= MAX_SEGMENT_MICROS,
        sample_rate <= MAX_SAMPLE_RATE,
    ensures
        r == spec_samples_for(micros, sample_rate),
        r <= MAX_SEGMENT_SAMPLES,
{
    proof {
        lemma_mul_inequality(micros as int, MAX_SEGMENT_MICROS as int, sample_rate as int);
        lemma_div_is_ordered(
            (micros * sample_rate) as int,
            (MAX_SEGMENT_MICROS as int) * (MAX_SAMPLE_RATE as int),
            1_000_000,
        );
    }
    micros * (sample_rate as u64) / 1_000_000
}

/// Envelope segment durations in samples and levels scaled by `SCALE`,
/// derived once from a descriptor and shared by every voice of a soundfont.
#[derive(Clone, Copy, PartialEq, Eq, Structural, Debug)]
pub struct EnvelopeParameters {
    pub start_level: u64,
    pub delay_samples: u64,
    pub attack_samples: u64,
    pub hold_samples: u64,
    pub decay_samples: u64,
    pub sustain_level: u64,
    pub release_samples: u64,
}

impl EnvelopeParameters {
    pub open spec fn wf(&self) -> bool {
        &&& self.start_level <= 1_000_000
        &&& self.sustain_level <= 1_000_000
        &&& self.delay_samples <= MAX_SEGMENT_SAMPLES
        &&& self.attack_samples <= MAX_SEGMENT_SAMPLES
        &&& self.hold_samples <= MAX_SEGMENT_SAMPLES
        &&& self.decay_samples <= MAX_SEGMENT_SAMPLES
        &&& self.release_samples <= MAX_SEGMENT_SAMPLES
    }

    /// Total sample count of the segments before sustain.
    pub open spec fn spec_pre_total(&self) -> int {
        self.delay_samples + self.attack_samples + self.hold_samples + self.decay_samples
    }
}

/// Envelope level before release, `e` samples after the envelope started:
/// the start level through the delay (and at the very first sample), a
/// linear climb to full scale through the attack, full scale through the
/// hold, a linear fall to the sustain level through the decay, then the
/// sustain level held until release is signaled.
pub open spec fn spec_level_at(p: EnvelopeParameters, e: int) -> int {
    if e == 0 || e < p.delay_samples {
        p.start_level as int
    } else if e < p.delay_samples + p.attack_samples {
        p.start_level + (1_000_000 - p.start_level) * (e - p.delay_samples) / (
        p.attack_samples as int)
    } else if e < p.delay_samples + p.attack_samples + p.hold_samples {
        1_000_000
    } else if e < p.spec_pre_total() {
        1_000_000 - (1_000_000 - p.sustain_level) * (e - p.delay_samples - p.attack_samples
            - p.hold_samples) / (p.decay_samples as int)
    } else {
        p.sustain_level as int
    }
}

/// Envelope level during release: a linear fall from the level `start` the
/// release began at down to zero, reached exactly `release_samples` samples
/// after release was signaled.
pub open spec fn spec_release_level_at(start: int, release_samples: int, re: int) -> int {
    if re >= release_samples {
        0
    } else {
        start - start * re / release_samples
    }
}

/// The product of a level by a segment length fits a 64-bit word.
proof fn lemma_prod_bound(a: u64, b: u64)
    requires
        a <= 1_000_000,
        b <= MAX_SEGMENT_SAMPLES,
    ensures
        a * b <= 1_000_000_000_000_000_000,
{
    assert(a * b <= 1_000_000_000_000_000_000) by (nonlinear_arith)
        requires
            a <= 1_000_000,
            b <= 1_000_000_000_000,
    ;
}

/// Scaling a value by a proper fraction keeps it between zero and itself.
proof fn lemma_scale_le(a: int, b: int, c: int)
    requires
        0 <= a,
        0 <= b < c,
    ensures
        0 <= a * b / c <= a,
{
    lemma_mul_inequality(b, c, a);
    assert(a * b == b * a) by (nonlinear_arith);
    assert(a * c == c * a) by (nonlinear_arith);
    lemma_div_is_ordered(a * b, a * c, c);
    lemma_div_multiples_vanish(a, c);
    assert(a * b >= 0) by (nonlinear_arith)
        requires
            0 <= a,
            0 <= b,
    ;
    lemma_div_pos_is_pos(a * b, c);
}

/// Pre-release envelope levels stay within `[0, SCALE]`.
pub proof fn lemma_level_range(p: EnvelopeParameters, e: int)
    requires
        p.wf(),
        0 <= e,
    ensures
        0 <= spec_level_at(p, e) <= 1_000_000,
{
    if e == 0 || e < p.delay_samples {
    } else if e < p.delay_samples + p.attack_samples {
        lemma_scale_le(1_000_000 - p.start_level, e - p.delay_samples, p.attack_samples as int);
    } else if e < p.delay_samples + p.attack_samples + p.hold_samples {
    } else if e < p.spec_pre_total() {
        lemma_scale_le(
            1_000_000 - p.sustain_level,
            e - p.delay_samples - p.attack_samples - p.hold_samples,
            p.decay_samples as int,
        );
    }
}

/// Release levels stay within `[0, start]`.
pub proof fn lemma_release_level_range(start: int, release_samples: int, re: int)
    requires
        0 <= start,
        0 <= re,
    ensures
        0 <= spec_release_level_at(start, release_samples, re) <= start,
{
    if re < release_samples {
        lemma_scale_le(start, re, release_samples);
    }
}

/// Before the release duration has fully elapsed, a release that began at
/// a nonzero level is still audible: the envelope reaches silence exactly
/// at the end of the release segment, not before.
pub proof fn lemma_release_positive_before_end(start: int, release_samples: int, re: int)
    requires
        1 <= start,
        0 <= re < release_samples,
    ensures
        spec_release_level_at(start, release_samples, re) >= 1,
{
    assert(start * re < release_samples * start) by (nonlinear_arith)
        requires
            1 <= start,
            0 <= re < release_samples,
    ;
    vstd::arithmetic::div_mod::lemma_multiply_divide_lt(start * re, release_samples, start);
}

/// The running envelope of one voice: a counter-driven state machine over
/// immutable parameters. Before release the level is a function of the
/// elapsed-sample counter (saturated at the start of sustain, where the
/// level no longer changes); after release it is a function of the level
/// release began from and the samples elapsed since.
#[derive(Clone, Copy, PartialEq, Eq, Structural, Debug)]
pub struct EnvelopeGenerator {
    pub params: EnvelopeParameters,
    /// Samples elapsed since the envelope started, saturated at the start
    /// of the sustain segment.
    pub elapsed: u64,
    /// Whether release has been signaled.
    pub releasing: bool,
    /// The level the envelope had when release was signaled.
    pub release_level: u64,
    /// Samples elapsed since release was signaled, saturated at the length
    /// of the release segment.
    pub release_elapsed: u64,
}

impl EnvelopeGenerator {
    pub open spec fn wf(&self) -> bool {
        &&& self.params.wf()
        &&& self.elapsed <= self.params.spec_pre_total()
        &&& self.release_level <= 1_000_000
        &&& self.release_elapsed <= self.params.release_samples
        &&& !self.releasing ==> self.release_elapsed == 0
    }

    /// The current output level of the envelope.
    pub open spec fn spec_value(&self) -> int {
        if self.releasing {
            spec_release_level_at(
                self.release_level as int,
                self.params.release_samples as int,
                self.release_elapsed as int,
            )
        } else {
            spec_level_at(self.params, self.elapsed as int)
        }
    }

    /// Whether the envelope can no longer produce a nonzero level: release
    /// has been signaled and its full duration has elapsed.
    pub open spec fn spec_ended(&self) -> bool {
        self.releasing && self.release_elapsed >= self.params.release_samples
    }

    /// The state one sample later.
    pub open spec fn spec_step(&self) -> EnvelopeGenerator {
        if self.releasing {
            if self.release_elapsed < self.params.release_samples {
                EnvelopeGenerator { release_elapsed: (self.release_elapsed + 1) as u64, ..*self }
            } else {
                *self
            }
        } else {
            if self.elapsed < self.params.spec_pre_total() {
                EnvelopeGenerator { elapsed: (self.elapsed + 1) as u64, ..*self }
            } else {
                *self
            }
        }
    }

    /// The state after release has been signaled: a no-op on an envelope
    /// already releasing, otherwise the start of the release segment from
    /// the current level.
    pub open spec fn spec_signal_release(&self) -> EnvelopeGenerator {
        if self.releasing {
            *self
        } else {
            EnvelopeGenerator {
                releasing: true,
                release_level: spec_level_at(self.params, self.elapsed as int) as u64,
                release_elapsed: 0,
                ..*self
            }
        }
    }

    /// A fresh envelope at elapsed time zero.
    pub fn new(params: EnvelopeParameters) -> (r: EnvelopeGenerator)
        requires
            params.wf(),
        ensures
            r == (EnvelopeGenerator {
                params,
                elapsed: 0,
                releasing: false,
                release_level: 0,
                release_elapsed: 0,
            }),
            r.wf(),
    {
        EnvelopeGenerator { params, elapsed: 0, releasing: false, release_level: 0, release_elapsed: 0 }
    }

    /// The current output level, in `[0, SCALE]`.
    pub fn value(&self) -> (r: u64)
        requires
            self.wf(),
        ensures
            r == self.spec_value(),
            r <= 1_000_000,
    {
        if self.releasing {
            if self.release_elapsed >= self.params.release_samples {
                0
            } else {
                let l: u64 = self.release_level;
                let re: u64 = self.release_elapsed;
                let rs: u64 = self.params.release_samples;
                proof {
                    lemma_prod_bound(l, re);
                    lemma_scale_le(l as int, re as int, rs as int);
                }
                l - l * re / rs
            }
        } else {
            let p = &self.params;
            let e = self.elapsed;
            if e == 0 || e < p.delay_samples {
                p.start_level
            } else if e < p.delay_samples + p.attack_samples {
                proof {
                    lemma_prod_bound((1_000_000 - p.start_level) as u64, (e
                        - p.delay_samples) as u64);
                    lemma_scale_le(
                        1_000_000 - p.start_level,
                        e - p.delay_samples,
                        p.attack_samples as int,
                    );
                }
                p.start_level + (1_000_000 - p.start_level) * (e - p.delay_samples)
                    / p.attack_samples
            } else if e < p.delay_samples + p.attack_samples + p.hold_samples {
                1_000_000
            } else if e < p.delay_samples + p.attack_samples + p.hold_samples + p.decay_samples {
                proof {
                    lemma_prod_bound((1_000_000 - p.sustain_level) as u64, (e - p.delay_samples
                        - p.attack_samples - p.hold_samples) as u64);
                    lemma_scale_le(
                        1_000_000 - p.sustain_level,
                        e - p.delay_samples - p.attack_samples - p.hold_samples,
                        p.decay_samples as int,
                    );
                }
                1_000_000 - (1_000_000 - p.sustain_level) * (e - p.delay_samples - p.attack_samples
                    - p.hold_samples) / p.decay_samples
            } else {
                p.sustain_level
            }
        }
    }

    /// Advance the envelope by one sample.
    pub fn step(&mut self)
        requires
            old(self).wf(),
        ensures
            *final(self) == old(self).spec_step(),
            final(self).wf(),
    {
        if self.releasing {
            if self.release_elapsed < self.params.release_samples {
                self.release_elapsed = self.release_elapsed + 1;
            }
        } else {
            let pre_total: u64 = self.params.delay_samples + self.params.attack_samples
                + self.params.hold_samples + self.params.decay_samples;
            if self.elapsed < pre_total {
                self.elapsed = self.elapsed + 1;
            }
        }
    }

    /// Signal the irreversible transition into the release segment. On an
    /// envelope already releasing this is a no-op.
    pub fn signal_release(&mut self)
        requires
            old(self).wf(),
        ensures
            *final(self) == old(self).spec_signal_release(),
            final(self).wf(),
    {
        proof {
            lemma_level_range(self.params, self.elapsed as int);
        }
        if !self.releasing {
            let level = self.value();
            self.releasing = true;
            self.release_level = level;
            self.release_elapsed = 0;
        }
    }

    pub fn is_releasing(&self) -> (r: bool)
        ensures
            r == self.releasing,
    {
        self.releasing
    }

    pub fn is_ended(&self) -> (r: bool)
        ensures
            r == self.spec_ended(),
    {
        self.releasing && self.release_elapsed >= self.params.release_samples
    }
}

/// The envelope state after `n` single-sample steps.
pub open spec fn spec_step_n(g: EnvelopeGenerator, n: nat) -> EnvelopeGenerator
    decreases n,
{
    if n == 0 {
        g
    } else {
        spec_step_n(g, (n - 1) as nat).spec_step()
    }
}

/// Stepping distributes over a sum of step counts.
pub proof fn lemma_step_n_add(g: EnvelopeGenerator, a: nat, b: nat)
    ensures
        spec_step_n(spec_step_n(g, a), b) == spec_step_n(g, a + b),
    decreases b,
{
    if b > 0 {
        lemma_step_n_add(g, a, (b - 1) as nat);
    }
}

/// Stepping preserves well-formedness and never clears the release flag.
pub proof fn lemma_step_n_wf(g: EnvelopeGenerator, n: nat)
    requires
        g.wf(),
    ensures
        spec_step_n(g, n).wf(),
        spec_step_n(g, n).releasing == g.releasing,
        spec_step_n(g, n).params == g.params,
        spec_step_n(g, n).release_level == g.release_level,
    decreases n,
{
    if n > 0 {
        lemma_step_n_wf(g, (n - 1) as nat);
    }
}

/// Signaling release twice leaves exactly the state that signaling it once
/// leaves: release is idempotent, so the envelope trajectory after a second
/// signal is the trajectory after the first.
pub proof fn lemma_signal_release_idempotent(g: EnvelopeGenerator)
    ensures
        g.spec_signal_release().spec_signal_release() == g.spec_signal_release(),
{
}

/// Once release has been signaled, the envelope reaches its end after at
/// most the release duration: stepping any envelope that is releasing by
/// the remainder of its release segment (or more) ends it.
pub proof fn lemma_release_terminates(g: EnvelopeGenerator, n: nat)
    requires
        g.wf(),
        g.releasing,
        n >= g.params.release_samples - g.release_elapsed,
    ensures
        spec_step_n(g, n).spec_ended(),
    decreases n,
{
    if g.release_elapsed >= g.params.release_samples {
        lemma_step_n_wf(g, n);
        lemma_release_stays_ended(g, n);
    } else {
        let g1 = g.spec_step();
        assert(spec_step_n(g, 0) == g);
        assert(spec_step_n(g, 1) == g1);
        lemma_step_n_add(g, 1, (n - 1) as nat);
        lemma_release_terminates(g1, (n - 1) as nat);
    }
}

/// Stepping a releasing envelope advances its release counter one sample
/// at a time, saturating at the release duration.
pub proof fn lemma_release_elapsed_tracks(g: EnvelopeGenerator, n: nat)
    requires
        g.wf(),
        g.releasing,
    ensures
        spec_step_n(g, n).release_elapsed == if g.release_elapsed + n
            <= g.params.release_samples {
            g.release_elapsed + n
        } else {
            g.params.release_samples as int
        },
    decreases n,
{
    if n > 0 {
        lemma_release_elapsed_tracks(g, (n - 1) as nat);
        lemma_step_n_wf(g, (n - 1) as nat);
    }
}

/// Release takes exactly its configured duration, from whatever level and
/// segment it was signaled: strictly before the release duration has
/// elapsed the envelope is neither ended nor silent (when release began
/// at an audible level), and at the duration it is ended — together with
/// `lemma_release_terminates`, the release tail's length is exact.
pub proof fn lemma_release_exact_duration(g: EnvelopeGenerator, n: nat)
    requires
        g.wf(),
        g.releasing,
        g.release_elapsed == 0,
        1 <= g.release_level,
        n < g.params.release_samples,
    ensures
        !spec_step_n(g, n).spec_ended(),
        spec_step_n(g, n).spec_value() >= 1,
{
    lemma_release_elapsed_tracks(g, n);
    lemma_step_n_wf(g, n);
    lemma_release_positive_before_end(
        g.release_level as int,
        g.params.release_samples as int,
        spec_step_n(g, n).release_elapsed as int,
    );
}

/// An ended envelope stays ended under stepping.
pub proof fn lemma_release_stays_ended(g: EnvelopeGenerator, n: nat)
    requires
        g.spec_ended(),
    ensures
        spec_step_n(g, n).spec_ended(),
    decreases n,
{
    if n > 0 {
        lemma_release_stays_ended(g, (n - 1) as nat);
    }
}

} // verus!
