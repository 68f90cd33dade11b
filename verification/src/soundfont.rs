use vstd::prelude::*;
use vstd::arithmetic::div_mod::lemma_div_is_ordered;
use vstd::arithmetic::mul::lemma_mul_inequality;
use crate::control::VoiceControlData;
use crate::envelope::{EnvelopeDescriptor, EnvelopeParameters};
use crate::pitch::{amp_for_vel, key_ratio, sample_index, spec_amp, spec_key_ratio, spec_sample_index};
use crate::sample::{NearestSampleGrabber, StereoVoiceSampler};
use crate::voice::{spec_fresh_voice_view, VoiceBase, VoiceView, BASE_PITCH_MAX};
use crate::AudioStreamParams;

verus! {

/// Number of keys covered by a sample table: one sample per key of the
/// covered range.
pub const COVERED_KEYS: usize = 88;

/// Largest accepted sample-rate conversion factor, scaled by `SCALE`.
pub const RATE_FAC_MAX: u64 = 32_000_000;

/// Lowest supported output sample rate.
pub const MIN_SAMPLE_RATE: u32 = 8_000;

/// All samples of a buffer lie within one full-scale unit.
pub open spec fn spec_in_range(s: Seq<i64>) -> bool {
    forall|i: int| 0 <= i < s.len() ==> -1_000_000 <= #[trigger] s[i] <= 1_000_000
}

/// The stereo sample data of one key: one buffer per channel, values
/// scaled by `SCALE`.
pub struct KeySample {
    pub left: Vec<i64>,
    pub right: Vec<i64>,
}

impl KeySample {
    pub open spec fn wf(&self) -> bool {
        spec_in_range(self.left@) && spec_in_range(self.right@)
    }
}

/// Why a soundfont could not be built.
#[derive(Clone, Copy, PartialEq, Eq, Structural, Debug)]
pub enum SoundfontError {
    /// The stream parameters are outside the supported range.
    UnsupportedStreamParams,
    /// The sample table does not hold one sample per covered key.
    WrongSampleCount,
    /// A sample value lies outside one full-scale unit.
    SampleOutOfRange,
}

/// A factory capturing all per-note parameters needed to build a voice on
/// demand.
pub trait VoiceSpawner: Sized {
    spec fn wf(&self) -> bool;

    /// The voice this spawner builds under a given control state.
    spec fn spec_voice(&self, control: VoiceControlData) -> VoiceView;

    fn spawn_voice(&self, control: &VoiceControlData) -> (v: VoiceBase)
        requires
            self.wf(),
            control.wf(),
        ensures
            v@ == self.spec_voice(*control),
            v.wf(),
    ;
}

/// An immutable, shareable catalog mapping a note-on or note-off to zero
/// or more voice factories.
pub trait SoundfontBase: Sized {
    type Spawner: VoiceSpawner;

    spec fn wf(&self) -> bool;

    spec fn spec_stream_params(&self) -> AudioStreamParams;

    /// How many attack-layer voices a note-on at this key and velocity
    /// spawns.
    spec fn spec_attack_len(&self, key: u8, vel: u8) -> nat;

    /// The view of the `i`-th attack-layer voice spawned at this key and
    /// velocity under a given control state.
    spec fn spec_attack_voice(&self, key: u8, vel: u8, i: int, c: VoiceControlData) -> VoiceView;

    /// How many release-layer voices a note-off at this key spawns.
    spec fn spec_release_len(&self, key: u8, vel: u8) -> nat;

    spec fn spec_release_voice(&self, key: u8, vel: u8, i: int, c: VoiceControlData) -> VoiceView;

    fn stream_params(&self) -> (r: &AudioStreamParams)
        ensures
            *r == self.spec_stream_params(),
    ;

    fn get_attack_voice_spawners_at(&self, key: u8, vel: u8) -> (r: Vec<Self::Spawner>)
        requires
            self.wf(),
            key <= 127,
            vel <= 127,
        ensures
            r@.len() == self.spec_attack_len(key, vel),
            forall|i: int| 0 <= i < r@.len() ==> (#[trigger] r@[i]).wf(),
            forall|i: int, c: VoiceControlData|
                0 <= i < r@.len() ==> (#[trigger] r@[i].spec_voice(c)) == self.spec_attack_voice(
                    key,
                    vel,
                    i,
                    c,
                ),
            forall|i: int, c: VoiceControlData|
                0 <= i < r@.len() ==> (#[trigger] self.spec_attack_voice(key, vel, i, c)).key
                    == key && !self.spec_attack_voice(key, vel, i, c).envelope.releasing,
    ;

    fn get_release_voice_spawners_at(&self, key: u8, vel: u8) -> (r: Vec<Self::Spawner>)
        requires
            self.wf(),
            key <= 127,
            vel <= 127,
        ensures
            r@.len() == self.spec_release_len(key, vel),
            forall|i: int| 0 <= i < r@.len() ==> (#[trigger] r@[i]).wf(),
            forall|i: int, c: VoiceControlData|
                0 <= i < r@.len() ==> (#[trigger] r@[i].spec_voice(c)) == self.spec_release_voice(
                    key,
                    vel,
                    i,
                    c,
                ),
    ;

    /// A behaviorally identical copy of this soundfont, for sharing one
    /// catalog across several channels.
    fn duplicate(&self) -> (r: Self)
        requires
            self.wf(),
        ensures
            r.wf(),
            r.spec_stream_params() == self.spec_stream_params(),
            forall|key: u8, vel: u8| #[trigger]
                r.spec_attack_len(key, vel) == self.spec_attack_len(key, vel),
            forall|key: u8, vel: u8, i: int, c: VoiceControlData| #[trigger]
                r.spec_attack_voice(key, vel, i, c) == self.spec_attack_voice(key, vel, i, c),
            forall|key: u8, vel: u8| #[trigger]
                r.spec_release_len(key, vel) == self.spec_release_len(key, vel),
            forall|key: u8, vel: u8, i: int, c: VoiceControlData| #[trigger]
                r.spec_release_voice(key, vel, i, c) == self.spec_release_voice(key, vel, i, c),
    ;
}

/// Behavioral equality of two soundfonts: the same stream parameters and
/// the same spawned voices at every key, velocity and control state. A
/// duplicate made for another channel is equal in this sense.
pub open spec fn spec_sf_equiv<SF: SoundfontBase>(a: SF, b: SF) -> bool {
    &&& a.spec_stream_params() == b.spec_stream_params()
    &&& forall|key: u8, vel: u8| #[trigger]
        a.spec_attack_len(key, vel) == b.spec_attack_len(key, vel)
    &&& forall|key: u8, vel: u8, i: int, c: VoiceControlData| #[trigger]
        a.spec_attack_voice(key, vel, i, c) == b.spec_attack_voice(key, vel, i, c)
    &&& forall|key: u8, vel: u8| #[trigger]
        a.spec_release_len(key, vel) == b.spec_release_len(key, vel)
    &&& forall|key: u8, vel: u8, i: int, c: VoiceControlData| #[trigger]
        a.spec_release_voice(key, vel, i, c) == b.spec_release_voice(key, vel, i, c)
}

/// Copy a sample buffer.
fn dup_buffer(v: &Vec<i64>) -> (r: Vec<i64>)
    ensures
        r@ == v@,
{
    let mut r: Vec<i64> = Vec::new();
    let mut i: usize = 0;
    while i < v.len()
        invariant
            i <= v@.len(),
            r@ == v@.take(i as int),
        decreases v@.len() - i,
    {
        r.push(v[i]);
        proof {
            assert(r@ =~= v@.take(i + 1));
        }
        i = i + 1;
    }
    proof {
        assert(r@ =~= v@);
    }
    r
}

/// Whether every sample of a buffer lies within one full-scale unit.
fn buffer_in_range(v: &Vec<i64>) -> (b: bool)
    ensures
        b == spec_in_range(v@),
{
    let mut i: usize = 0;
    while i < v.len()
        invariant
            i <= v@.len(),
            forall|j: int| 0 <= j < i ==> -1_000_000 <= #[trigger] v@[j] <= 1_000_000,
        decreases v@.len() - i,
    {
        if v[i] < -1_000_000 || v[i] > 1_000_000 {
            return false;
        }
        i = i + 1;
    }
    true
}

/// A spawner for one sampled note: the chosen key's sample data, the
/// velocity amplitude, the base pitch ratio and the shared envelope
/// parameters.
pub struct SampledVoiceSpawner {
    pub key: u8,
    pub vel: u8,
    /// Velocity-derived amplitude, scaled by `SCALE`.
    pub amp: i64,
    /// Base sample-playback rate ratio, scaled by `SCALE`.
    pub base_freq: u64,
    pub volume_envelope_params: EnvelopeParameters,
    pub samples: KeySample,
}

impl SampledVoiceSpawner {
    /// Capture the parameters of one note-on: the nearest covered key's
    /// samples, the frequency-ratio pitch shift toward the requested key
    /// times the stream's rate conversion factor, and the velocity
    /// amplitude.
    pub fn new(
        key: u8,
        vel: u8,
        sample_rate_fac: u64,
        volume_envelope_params: EnvelopeParameters,
        sf: &SquareSoundfont,
    ) -> (r: SampledVoiceSpawner)
        requires
            key <= 127,
            vel <= 127,
            sample_rate_fac <= RATE_FAC_MAX,
            volume_envelope_params.wf(),
            sf.wf(),
        ensures
            r.key == key,
            r.vel == vel,
            r.amp == spec_amp(vel),
            r.base_freq == spec_key_ratio(key) * sample_rate_fac / 1_000_000,
            r.volume_envelope_params == volume_envelope_params,
            r.samples.left@ == sf.samples@[spec_sample_index(key)].left@,
            r.samples.right@ == sf.samples@[spec_sample_index(key)].right@,
            r.wf(),
    {
        let amp: i64 = amp_for_vel(vel);
        let ratio: u64 = key_ratio(key);
        proof {
            lemma_mul_inequality(ratio as int, 2_996_614, sample_rate_fac as int);
            lemma_mul_inequality(
                sample_rate_fac as int,
                RATE_FAC_MAX as int,
                2_996_614,
            );
            lemma_div_is_ordered(
                (ratio * sample_rate_fac) as int,
                2_996_614 * (RATE_FAC_MAX as int),
                1_000_000,
            );
        }
        let base_freq: u64 = ratio * sample_rate_fac / 1_000_000;
        let idx: usize = sample_index(key);
        let ks: &KeySample = &sf.samples[idx];
        let samples = KeySample { left: dup_buffer(&ks.left), right: dup_buffer(&ks.right) };
        SampledVoiceSpawner { key, vel, amp, base_freq, volume_envelope_params, samples }
    }
}

impl VoiceSpawner for SampledVoiceSpawner {
    open spec fn wf(&self) -> bool {
        &&& 0 <= self.amp <= 1_000_000
        &&& self.base_freq <= BASE_PITCH_MAX
        &&& self.volume_envelope_params.wf()
        &&& self.samples.wf()
    }

    open spec fn spec_voice(&self, control: VoiceControlData) -> VoiceView {
        spec_fresh_voice_view(
            self.key,
            self.vel,
            self.amp,
            self.base_freq,
            self.samples.left@,
            self.samples.right@,
            self.volume_envelope_params,
        )
    }

    fn spawn_voice(&self, control: &VoiceControlData) -> (v: VoiceBase) {
        let left = NearestSampleGrabber::new(dup_buffer(&self.samples.left));
        let right = NearestSampleGrabber::new(dup_buffer(&self.samples.right));
        let sampler = StereoVoiceSampler::new(left, right);
        VoiceBase::new(
            self.key,
            self.vel,
            self.amp,
            self.base_freq,
            sampler,
            self.volume_envelope_params,
        )
    }
}

/// The fixed envelope every voice of a `SquareSoundfont` uses: no delay,
/// attack or hold, a tenth of a second of decay to seven tenths of full
/// scale, and a fifth of a second of release.
pub open spec fn spec_square_descriptor() -> EnvelopeDescriptor {
    EnvelopeDescriptor {
        start_percent: 0,
        delay: 0,
        attack: 0,
        hold: 0,
        decay: 100_000,
        sustain_percent: 700_000,
        release: 200_000,
    }
}

/// An immutable sampled soundfont: one stereo sample per covered key, a
/// shared envelope, and the stream parameters it was built for.
pub struct SquareSoundfont {
    pub samples: Vec<KeySample>,
    pub volume_envelope_params: EnvelopeParameters,
    pub stream_params: AudioStreamParams,
}

impl SquareSoundfont {
    pub open spec fn wf(&self) -> bool {
        &&& self.samples@.len() == COVERED_KEYS
        &&& forall|i: int| 0 <= i < self.samples@.len() ==> (#[trigger] self.samples@[i]).wf()
        &&& MIN_SAMPLE_RATE <= self.stream_params.sample_rate
            <= crate::envelope::MAX_SAMPLE_RATE
        &&& self.stream_params.channels == 2
        &&& self.volume_envelope_params == spec_square_descriptor().spec_to_params(
            self.stream_params.sample_rate,
        )
    }

    /// The rate conversion factor this soundfont applies to every base
    /// pitch: its samples' native rate over the output rate, scaled by
    /// `SCALE`.
    pub open spec fn spec_rate_fac(&self) -> int {
        96_000_000_000int / (self.stream_params.sample_rate as int)
    }

    /// Build a soundfont from one stereo sample per covered key. The
    /// stream parameters must be supported and every sample value within
    /// one full-scale unit; otherwise construction fails and no partial
    /// soundfont is produced.
    pub fn new(sample_rate: u32, channels: u16, samples: Vec<KeySample>) -> (r: Result<
        SquareSoundfont,
        SoundfontError,
    >)
        ensures
            match r {
                Ok(sf) => {
                    &&& MIN_SAMPLE_RATE <= sample_rate <= crate::envelope::MAX_SAMPLE_RATE
                    &&& channels == 2
                    &&& samples@.len() == COVERED_KEYS
                    &&& forall|i: int|
                        0 <= i < samples@.len() ==> (#[trigger] samples@[i]).wf()
                    &&& sf.samples == samples
                    &&& sf.stream_params == (AudioStreamParams { sample_rate, channels })
                    &&& sf.volume_envelope_params == spec_square_descriptor().spec_to_params(
                        sample_rate,
                    )
                    &&& sf.wf()
                },
                Err(e) => {
                    &&& (e == SoundfontError::UnsupportedStreamParams <==> !(MIN_SAMPLE_RATE
                        <= sample_rate <= crate::envelope::MAX_SAMPLE_RATE && channels == 2))
                    &&& (e == SoundfontError::WrongSampleCount <==> (MIN_SAMPLE_RATE
                        <= sample_rate <= crate::envelope::MAX_SAMPLE_RATE && channels == 2
                        && samples@.len() != COVERED_KEYS))
                    &&& (e == SoundfontError::SampleOutOfRange <==> (MIN_SAMPLE_RATE
                        <= sample_rate <= crate::envelope::MAX_SAMPLE_RATE && channels == 2
                        && samples@.len() == COVERED_KEYS && exists|i: int|
                        0 <= i < samples@.len() && !(#[trigger] samples@[i]).wf()))
                },
            },
            r is Ok <==> (MIN_SAMPLE_RATE <= sample_rate <= crate::envelope::MAX_SAMPLE_RATE
                && channels == 2 && samples@.len() == COVERED_KEYS && forall|i: int|
                0 <= i < samples@.len() ==> (#[trigger] samples@[i]).wf()),
    {
        if sample_rate < MIN_SAMPLE_RATE || sample_rate > crate::envelope::MAX_SAMPLE_RATE
            || channels != 2 {
            return Err(SoundfontError::UnsupportedStreamParams);
        }
        if samples.len() != COVERED_KEYS {
            return Err(SoundfontError::WrongSampleCount);
        }
        let mut i: usize = 0;
        while i < samples.len()
            invariant
                MIN_SAMPLE_RATE <= sample_rate <= crate::envelope::MAX_SAMPLE_RATE,
                channels == 2,
                samples@.len() == COVERED_KEYS,
                i <= samples@.len(),
                forall|j: int| 0 <= j < i ==> (#[trigger] samples@[j]).wf(),
            decreases samples@.len() - i,
        {
            let ok_l = buffer_in_range(&samples[i].left);
            let ok_r = buffer_in_range(&samples[i].right);
            if !ok_l || !ok_r {
                proof {
                    assert(!(samples@[i as int]).wf());
                }
                return Err(SoundfontError::SampleOutOfRange);
            }
            i = i + 1;
        }
        let envelope_descriptor = EnvelopeDescriptor {
            start_percent: 0,
            delay: 0,
            attack: 0,
            hold: 0,
            decay: 100_000,
            sustain_percent: 700_000,
            release: 200_000,
        };
        let volume_envelope_params = envelope_descriptor.to_envelope_params(sample_rate);
        Ok(
            SquareSoundfont {
                samples,
                volume_envelope_params,
                stream_params: AudioStreamParams::new(sample_rate, channels),
            },
        )
    }

    /// The rate conversion factor, executable form.
    fn rate_fac(&self) -> (r: u64)
        requires
            self.wf(),
        ensures
            r == self.spec_rate_fac(),
            r <= RATE_FAC_MAX,
    {
        proof {
            vstd::arithmetic::div_mod::lemma_div_is_ordered_by_denominator(
                96_000_000_000,
                MIN_SAMPLE_RATE as int,
                self.stream_params.sample_rate as int,
            );
        }
        96_000_000_000u64 / (self.stream_params.sample_rate as u64)
    }
}

impl SoundfontBase for SquareSoundfont {
    type Spawner = SampledVoiceSpawner;

    open spec fn wf(&self) -> bool {
        SquareSoundfont::wf(self)
    }

    open spec fn spec_stream_params(&self) -> AudioStreamParams {
        self.stream_params
    }

    open spec fn spec_attack_len(&self, key: u8, vel: u8) -> nat {
        1
    }

    open spec fn spec_attack_voice(&self, key: u8, vel: u8, i: int, c: VoiceControlData) -> VoiceView {
        spec_fresh_voice_view(
            key,
            vel,
            spec_amp(vel) as i64,
            (spec_key_ratio(key) * self.spec_rate_fac() / 1_000_000) as u64,
            self.samples@[spec_sample_index(key)].left@,
            self.samples@[spec_sample_index(key)].right@,
            self.volume_envelope_params,
        )
    }

    open spec fn spec_release_len(&self, key: u8, vel: u8) -> nat {
        0
    }

    open spec fn spec_release_voice(&self, key: u8, vel: u8, i: int, c: VoiceControlData) -> VoiceView {
        spec_fresh_voice_view(
            key,
            vel,
            0,
            0,
            Seq::empty(),
            Seq::empty(),
            self.volume_envelope_params,
        )
    }

    fn stream_params(&self) -> (r: &AudioStreamParams) {
        &self.stream_params
    }

    fn get_attack_voice_spawners_at(&self, key: u8, vel: u8) -> (r: Vec<SampledVoiceSpawner>) {
        let fac = self.rate_fac();
        let spawner = SampledVoiceSpawner::new(
            key,
            vel,
            fac,
            self.volume_envelope_params,
            self,
        );
        let mut r: Vec<SampledVoiceSpawner> = Vec::new();
        r.push(spawner);
        r
    }

    fn get_release_voice_spawners_at(&self, key: u8, vel: u8) -> (r: Vec<SampledVoiceSpawner>) {
        Vec::new()
    }

    fn duplicate(&self) -> (r: SquareSoundfont) {
        let mut samples: Vec<KeySample> = Vec::new();
        let mut i: usize = 0;
        while i < self.samples.len()
            invariant
                self.wf(),
                i <= self.samples@.len(),
                samples@.len() == i,
                forall|j: int|
                    0 <= j < i ==> (#[trigger] samples@[j]).left@ == self.samples@[j].left@
                        && samples@[j].right@ == self.samples@[j].right@,
            decreases self.samples@.len() - i,
        {
            let ks = &self.samples[i];
            samples.push(KeySample { left: dup_buffer(&ks.left), right: dup_buffer(&ks.right) });
            i = i + 1;
        }
        SquareSoundfont {
            samples,
            volume_envelope_params: self.volume_envelope_params,
            stream_params: self.stream_params,
        }
    }
}

} // verus!
