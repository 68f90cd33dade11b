use vstd::prelude::*;
use crate::control::{ControlEvent, VoiceControlData};
use crate::envelope::EnvelopeParameters;
use crate::sample::{NearestSampleGrabber, StereoVoiceSampler};
use crate::soundfont::{SoundfontBase, VoiceSpawner};
use crate::voice::{spec_mix, spec_voice_n, VoiceBase, VoiceView};

verus! {

/// A command message addressed to one channel: a new soundfont set, a
/// note-on, a note-off, or a control change. Consumed exactly once.
pub enum ChannelEvent<SF: SoundfontBase> {
    SetSoundfonts(Vec<SF>),
    NoteOn { key: u8, vel: u8 },
    NoteOff { key: u8 },
    Control(ControlEvent),
}

/// The views of a pool of voices.
pub open spec fn views_of(vs: Seq<VoiceBase>) -> Seq<VoiceView> {
    vs.map_values(|v: VoiceBase| v@)
}

/// The views of the attack-layer voices one soundfont spawns for a note.
pub open spec fn spec_attack_views<SF: SoundfontBase>(
    sf: SF,
    key: u8,
    vel: u8,
    c: VoiceControlData,
) -> Seq<VoiceView> {
    Seq::new(sf.spec_attack_len(key, vel) as nat, |i: int| sf.spec_attack_voice(key, vel, i, c))
}

/// The views of the release-layer voices one soundfont spawns for a note.
pub open spec fn spec_release_views<SF: SoundfontBase>(
    sf: SF,
    key: u8,
    vel: u8,
    c: VoiceControlData,
) -> Seq<VoiceView> {
    Seq::new(sf.spec_release_len(key, vel) as nat, |i: int| sf.spec_release_voice(key, vel, i, c))
}

/// The attack-layer voices of the first `s` soundfonts of a set, in set
/// order.
pub open spec fn spec_attack_views_upto<SF: SoundfontBase>(
    sfs: Seq<SF>,
    s: int,
    key: u8,
    vel: u8,
    c: VoiceControlData,
) -> Seq<VoiceView>
    decreases s,
{
    if s <= 0 {
        Seq::empty()
    } else {
        spec_attack_views_upto(sfs, s - 1, key, vel, c) + spec_attack_views(
            sfs[s - 1],
            key,
            vel,
            c,
        )
    }
}

/// The release-layer voices of the first `s` soundfonts of a set.
pub open spec fn spec_release_views_upto<SF: SoundfontBase>(
    sfs: Seq<SF>,
    s: int,
    key: u8,
    vel: u8,
    c: VoiceControlData,
) -> Seq<VoiceView>
    decreases s,
{
    if s <= 0 {
        Seq::empty()
    } else {
        spec_release_views_upto(sfs, s - 1, key, vel, c) + spec_release_views(
            sfs[s - 1],
            key,
            vel,
            c,
        )
    }
}

/// A voice view after release has been signaled.
pub open spec fn spec_signal_release_view(vv: VoiceView) -> VoiceView {
    VoiceView { envelope: vv.envelope.spec_signal_release(), ..vv }
}

/// A pool's views after a note-off at a key: every voice holding that key
/// is signaled to release, every other voice is untouched.
pub open spec fn spec_release_applied(vs: Seq<VoiceView>, key: u8) -> Seq<VoiceView> {
    vs.map_values(
        |vv: VoiceView| if vv.key == key {
            spec_signal_release_view(vv)
        } else {
            vv
        },
    )
}

/// A buffer after every voice of a pool has been rendered into it
/// additively, in pool order.
pub open spec fn spec_mix_all(buf: Seq<i64>, vs: Seq<VoiceBase>, c: VoiceControlData) -> Seq<i64>
    decreases vs.len(),
{
    if vs.len() == 0 {
        buf
    } else {
        spec_mix(spec_mix_all(buf, vs.drop_last(), c), vs.last(), c)
    }
}

/// The pool after one render pass of `n` frames: every voice advanced by
/// `n` frames, every voice that thereby ended removed, pool order kept.
pub open spec fn spec_survivors(vs: Seq<VoiceBase>, c: VoiceControlData, n: nat) -> Seq<VoiceBase>
    decreases vs.len(),
{
    if vs.len() == 0 {
        Seq::empty()
    } else {
        let stepped = spec_voice_n(vs.last(), c, n);
        if stepped.envelope.spec_ended() {
            spec_survivors(vs.drop_last(), c, n)
        } else {
            spec_survivors(vs.drop_last(), c, n).push(stepped)
        }
    }
}

/// What consuming one channel event leaves of a channel: a new soundfont
/// set replaces the old one and touches nothing else; a note-on appends
/// the attack-layer voices of every active soundfont; a note-off signals
/// release on every voice holding the key and appends the release-layer
/// voices; a control event rewrites the control state alone. A key or
/// velocity beyond the last valid value changes nothing.
pub open spec fn spec_event_post<SF: SoundfontBase>(
    pre: VoiceChannel<SF>,
    post: VoiceChannel<SF>,
    ev: ChannelEvent<SF>,
) -> bool {
    match ev {
        ChannelEvent::SetSoundfonts(sfs) => {
            &&& post.soundfonts == sfs
            &&& post.voices == pre.voices
            &&& post.control == pre.control
        },
        ChannelEvent::NoteOn { key, vel } => {
            &&& post.soundfonts == pre.soundfonts
            &&& post.control == pre.control
            &&& key <= 127 && vel <= 127 ==> views_of(post.voices@) == views_of(pre.voices@)
                + spec_attack_views_upto(
                pre.soundfonts@,
                pre.soundfonts@.len() as int,
                key,
                vel,
                pre.control,
            )
            &&& !(key <= 127 && vel <= 127) ==> post.voices == pre.voices
        },
        ChannelEvent::NoteOff { key } => {
            &&& post.soundfonts == pre.soundfonts
            &&& post.control == pre.control
            &&& key <= 127 ==> views_of(post.voices@) == spec_release_applied(
                views_of(pre.voices@),
                key,
            ) + spec_release_views_upto(
                pre.soundfonts@,
                pre.soundfonts@.len() as int,
                key,
                0,
                pre.control,
            )
            &&& key > 127 ==> post.voices == pre.voices
        },
        ChannelEvent::Control(cev) => {
            &&& post.control == pre.control.spec_apply(cev)
            &&& post.voices == pre.voices
            &&& post.soundfonts == pre.soundfonts
        },
    }
}

/// Exchanging two adjacent voices of a pool leaves the rendered buffer
/// unchanged; since every reordering is a chain of adjacent exchanges,
/// rendering order does not affect the mixed output.
pub proof fn lemma_mix_all_adjacent_swap(
    buf: Seq<i64>,
    vs: Seq<VoiceBase>,
    c: VoiceControlData,
    i: int,
)
    requires
        0 <= i,
        i + 1 < vs.len(),
    ensures
        spec_mix_all(buf, vs.update(i, vs[i + 1]).update(i + 1, vs[i]), c) == spec_mix_all(
            buf,
            vs,
            c,
        ),
    decreases vs.len(),
{
    let sw = vs.update(i, vs[i + 1]).update(i + 1, vs[i]);
    if i + 2 == vs.len() {
        let base = vs.drop_last().drop_last();
        assert(sw.drop_last().drop_last() =~= base);
        assert(sw.drop_last().drop_last() == base);
        assert(sw.last() == vs[i]);
        assert(sw.drop_last().last() == vs[i + 1]);
        assert(vs.last() == vs[i + 1]);
        assert(vs.drop_last().last() == vs[i]);
        crate::voice::lemma_mix_exchange(spec_mix_all(buf, base, c), vs[i], c, vs[i + 1], c);
        assert(spec_mix_all(buf, vs.drop_last(), c) == spec_mix(
            spec_mix_all(buf, base, c),
            vs[i],
            c,
        ));
        assert(spec_mix_all(buf, vs, c) == spec_mix(
            spec_mix_all(buf, vs.drop_last(), c),
            vs[i + 1],
            c,
        ));
        assert(spec_mix_all(buf, sw.drop_last(), c) == spec_mix(
            spec_mix_all(buf, base, c),
            vs[i + 1],
            c,
        ));
        assert(spec_mix_all(buf, sw, c) == spec_mix(
            spec_mix_all(buf, sw.drop_last(), c),
            vs[i],
            c,
        ));
    } else {
        let swd = vs.drop_last().update(i, vs.drop_last()[i + 1]).update(
            i + 1,
            vs.drop_last()[i],
        );
        assert(sw.last() == vs.last());
        assert(sw.drop_last() =~= swd);
        assert(sw.drop_last() == swd);
        lemma_mix_all_adjacent_swap(buf, vs.drop_last(), c, i);
        assert(spec_mix_all(buf, sw, c) == spec_mix(spec_mix_all(buf, swd, c), vs.last(), c));
        assert(spec_mix_all(buf, vs, c) == spec_mix(
            spec_mix_all(buf, vs.drop_last(), c),
            vs.last(),
            c,
        ));
    }
}

/// Rendering a pool into a buffer never changes the buffer's length.
pub proof fn lemma_mix_all_len(buf: Seq<i64>, vs: Seq<VoiceBase>, c: VoiceControlData)
    ensures
        spec_mix_all(buf, vs, c).len() == buf.len(),
    decreases vs.len(),
{
    if vs.len() > 0 {
        lemma_mix_all_len(buf, vs.drop_last(), c);
    }
}

/// Pushing a voice extends the pool's views by the voice's view.
pub proof fn lemma_views_push(vs: Seq<VoiceBase>, v: VoiceBase)
    ensures
        views_of(vs.push(v)) == views_of(vs).push(v@),
{
    assert(views_of(vs.push(v)) =~= views_of(vs).push(v@));
}

/// A placeholder voice holding no sample data; used to swap voices out of
/// the pool while they are mutated.
fn placeholder_voice() -> (r: VoiceBase)
    ensures
        r.wf(),
{
    let params = EnvelopeParameters {
        start_level: 0,
        delay_samples: 0,
        attack_samples: 0,
        hold_samples: 0,
        decay_samples: 0,
        sustain_level: 0,
        release_samples: 0,
    };
    let left = NearestSampleGrabber::new(Vec::new());
    let right = NearestSampleGrabber::new(Vec::new());
    let sampler = StereoVoiceSampler::new(left, right);
    VoiceBase::new(0, 0, 0, 0, sampler, params)
}

/// One logical channel: its active soundfont set, its pool of live
/// voices, and its continuously mutable control state.
pub struct VoiceChannel<SF: SoundfontBase> {
    pub soundfonts: Vec<SF>,
    pub voices: Vec<VoiceBase>,
    pub control: VoiceControlData,
}

impl<SF: SoundfontBase> VoiceChannel<SF> {
    pub open spec fn wf(&self) -> bool {
        &&& self.control.wf()
        &&& forall|i: int| 0 <= i < self.voices@.len() ==> (#[trigger] self.voices@[i]).wf()
        &&& forall|i: int|
            0 <= i < self.soundfonts@.len() ==> (#[trigger] self.soundfonts@[i]).wf()
    }

    /// A fresh channel: no soundfonts, no live voices, default control
    /// state.
    pub fn new() -> (r: VoiceChannel<SF>)
        ensures
            r.soundfonts@.len() == 0,
            r.voices@.len() == 0,
            r.control.voice_pitch_multiplier == 1_000_000,
            r.wf(),
    {
        VoiceChannel {
            soundfonts: Vec::new(),
            voices: Vec::new(),
            control: VoiceControlData::new(),
        }
    }

    /// Swap in a new active soundfont set; live voices play on unchanged.
    pub fn set_soundfonts(&mut self, sfs: Vec<SF>)
        requires
            old(self).wf(),
            forall|i: int| 0 <= i < sfs@.len() ==> (#[trigger] sfs@[i]).wf(),
        ensures
            final(self).soundfonts == sfs,
            final(self).voices == old(self).voices,
            final(self).control == old(self).control,
            final(self).wf(),
    {
        self.soundfonts = sfs;
    }

    /// A note-on: ask every active soundfont for its attack spawners at
    /// the key and velocity and add each spawned voice to the pool, in
    /// set order. A key or velocity beyond the last valid value spawns
    /// nothing rather than failing.
    pub fn note_on(&mut self, key: u8, vel: u8)
        requires
            old(self).wf(),
        ensures
            final(self).wf(),
            final(self).control == old(self).control,
            final(self).soundfonts == old(self).soundfonts,
            key <= 127 && vel <= 127 ==> views_of(final(self).voices@) == views_of(
                old(self).voices@,
            ) + spec_attack_views_upto(
                old(self).soundfonts@,
                old(self).soundfonts@.len() as int,
                key,
                vel,
                old(self).control,
            ),
            !(key <= 127 && vel <= 127) ==> final(self).voices == old(self).voices,
            forall|j: int|
                old(self).voices@.len() <= j < final(self).voices@.len() ==> (#[trigger] views_of(
                    final(self).voices@,
                )[j]).key == key && !views_of(final(self).voices@)[j].envelope.releasing,
    {
        let ghost pre = *self;
        if key > 127 || vel > 127 {
            return ;
        }
        let nsf: usize = self.soundfonts.len();
        let mut s: usize = 0;
        while s < nsf
            invariant
                pre.wf(),
                key <= 127,
                vel <= 127,
                s <= nsf,
                nsf == pre.soundfonts@.len(),
                self.control == pre.control,
                self.soundfonts == pre.soundfonts,
                forall|i: int| 0 <= i < self.voices@.len() ==> (#[trigger] self.voices@[i]).wf(),
                views_of(self.voices@) == views_of(pre.voices@) + spec_attack_views_upto(
                    pre.soundfonts@,
                    s as int,
                    key,
                    vel,
                    pre.control,
                ),
                forall|j: int|
                    pre.voices@.len() <= j < self.voices@.len() ==> (#[trigger] views_of(
                        self.voices@,
                    )[j]).key == key && !views_of(self.voices@)[j].envelope.releasing,
            decreases nsf - s,
        {
            let sf = &self.soundfonts[s];
            let spawners = sf.get_attack_voice_spawners_at(key, vel);
            let ghost sfv = pre.soundfonts@[s as int];
            let nspawn: usize = spawners.len();
            let mut j: usize = 0;
            while j < nspawn
                invariant
                    pre.wf(),
                    key <= 127,
                    vel <= 127,
                    s < nsf,
                    nsf == pre.soundfonts@.len(),
                    j <= nspawn,
                    self.control == pre.control,
                    self.soundfonts == pre.soundfonts,
                    sfv == pre.soundfonts@[s as int],
                    nspawn == spawners@.len(),
                    spawners@.len() == sfv.spec_attack_len(key, vel),
                    forall|i: int| 0 <= i < spawners@.len() ==> (#[trigger] spawners@[i]).wf(),
                    forall|i: int, c: VoiceControlData|
                        0 <= i < spawners@.len() ==> (#[trigger] spawners@[i].spec_voice(c))
                            == sfv.spec_attack_voice(key, vel, i, c),
                    forall|i: int, c: VoiceControlData|
                        0 <= i < spawners@.len() ==> (#[trigger] sfv.spec_attack_voice(
                            key,
                            vel,
                            i,
                            c,
                        )).key == key && !sfv.spec_attack_voice(key, vel, i, c).envelope.releasing,
                    forall|i: int|
                        0 <= i < self.voices@.len() ==> (#[trigger] self.voices@[i]).wf(),
                    views_of(self.voices@) == views_of(pre.voices@) + spec_attack_views_upto(
                        pre.soundfonts@,
                        s as int,
                        key,
                        vel,
                        pre.control,
                    ) + spec_attack_views(sfv, key, vel, pre.control).take(j as int),
                    forall|jj: int|
                        pre.voices@.len() <= jj < self.voices@.len() ==> (#[trigger] views_of(
                            self.voices@,
                        )[jj]).key == key && !views_of(self.voices@)[jj].envelope.releasing,
                decreases nspawn - j,
            {
                let ghost voices_before = self.voices@;
                let sp = &spawners[j];
                let v = sp.spawn_voice(&self.control);
                proof {
                    lemma_views_push(self.voices@, v);
                }
                self.voices.push(v);
                proof {
                    let a = views_of(pre.voices@) + spec_attack_views_upto(
                        pre.soundfonts@,
                        s as int,
                        key,
                        vel,
                        pre.control,
                    );
                    let b = spec_attack_views(sfv, key, vel, pre.control);
                    assert(v@ == b[j as int]);
                    assert(a + b.take(j as int + 1) =~= (a + b.take(j as int)).push(
                        b[j as int],
                    ));
                }
                j = j + 1;
            }
            proof {
                let b = spec_attack_views(sfv, key, vel, pre.control);
                assert(b.take(nspawn as int) =~= b);
                assert(views_of(pre.voices@) + spec_attack_views_upto(
                    pre.soundfonts@,
                    s as int + 1,
                    key,
                    vel,
                    pre.control,
                ) =~= views_of(pre.voices@) + spec_attack_views_upto(
                    pre.soundfonts@,
                    s as int,
                    key,
                    vel,
                    pre.control,
                ) + b);
            }
            s = s + 1;
        }
    }

    /// A note-off: signal release on every pool voice holding the key,
    /// then add the release-layer voices every active soundfont spawns at
    /// that key, in set order. A key beyond the last valid value changes
    /// nothing.
    pub fn note_off(&mut self, key: u8)
        requires
            old(self).wf(),
        ensures
            final(self).wf(),
            final(self).control == old(self).control,
            final(self).soundfonts == old(self).soundfonts,
            key <= 127 ==> views_of(final(self).voices@) == spec_release_applied(
                views_of(old(self).voices@),
                key,
            ) + spec_release_views_upto(
                old(self).soundfonts@,
                old(self).soundfonts@.len() as int,
                key,
                0,
                old(self).control,
            ),
            key > 127 ==> final(self).voices == old(self).voices,
    {
        let ghost pre = *self;
        if key > 127 {
            return ;
        }
        let nv: usize = self.voices.len();
        let mut i: usize = 0;
        while i < nv
            invariant
                pre.wf(),
                key <= 127,
                i <= nv,
                nv == pre.voices@.len(),
                self.control == pre.control,
                self.soundfonts == pre.soundfonts,
                self.voices@.len() == nv,
                forall|k: int| 0 <= k < self.voices@.len() ==> (#[trigger] self.voices@[k]).wf(),
                forall|k: int|
                    0 <= k < i ==> (#[trigger] self.voices@[k])@ == spec_release_applied(
                        views_of(pre.voices@),
                        key,
                    )[k],
                forall|k: int| i <= k < nv ==> #[trigger] self.voices@[k] == pre.voices@[k],
            decreases nv - i,
        {
            let needs_release: bool = self.voices[i].key == key;
            if needs_release {
                let mut tmp = placeholder_voice();
                self.voices.set_and_swap(i, &mut tmp);
                tmp.signal_release();
                self.voices.set_and_swap(i, &mut tmp);
            }
            i = i + 1;
        }
        proof {
            assert(views_of(self.voices@) =~= spec_release_applied(views_of(pre.voices@), key));
        }
        let ghost released = views_of(self.voices@);
        let nsf: usize = self.soundfonts.len();
        let mut s: usize = 0;
        while s < nsf
            invariant
                pre.wf(),
                key <= 127,
                s <= nsf,
                nsf == pre.soundfonts@.len(),
                self.control == pre.control,
                self.soundfonts == pre.soundfonts,
                forall|k: int| 0 <= k < self.voices@.len() ==> (#[trigger] self.voices@[k]).wf(),
                views_of(self.voices@) == released + spec_release_views_upto(
                    pre.soundfonts@,
                    s as int,
                    key,
                    0,
                    pre.control,
                ),
            decreases nsf - s,
        {
            let sf = &self.soundfonts[s];
            let spawners = sf.get_release_voice_spawners_at(key, 0);
            let ghost sfv = pre.soundfonts@[s as int];
            let nspawn: usize = spawners.len();
            let mut j: usize = 0;
            while j < nspawn
                invariant
                    pre.wf(),
                    key <= 127,
                    s < nsf,
                    nsf == pre.soundfonts@.len(),
                    j <= nspawn,
                    self.control == pre.control,
                    self.soundfonts == pre.soundfonts,
                    sfv == pre.soundfonts@[s as int],
                    nspawn == spawners@.len(),
                    spawners@.len() == sfv.spec_release_len(key, 0),
                    forall|k: int| 0 <= k < spawners@.len() ==> (#[trigger] spawners@[k]).wf(),
                    forall|k: int, c: VoiceControlData|
                        0 <= k < spawners@.len() ==> (#[trigger] spawners@[k].spec_voice(c))
                            == sfv.spec_release_voice(key, 0, k, c),
                    forall|k: int|
                        0 <= k < self.voices@.len() ==> (#[trigger] self.voices@[k]).wf(),
                    views_of(self.voices@) == released + spec_release_views_upto(
                        pre.soundfonts@,
                        s as int,
                        key,
                        0,
                        pre.control,
                    ) + spec_release_views(sfv, key, 0, pre.control).take(j as int),
                decreases nspawn - j,
            {
                let sp = &spawners[j];
                let v = sp.spawn_voice(&self.control);
                proof {
                    lemma_views_push(self.voices@, v);
                }
                self.voices.push(v);
                proof {
                    let a = released + spec_release_views_upto(
                        pre.soundfonts@,
                        s as int,
                        key,
                        0,
                        pre.control,
                    );
                    let b = spec_release_views(sfv, key, 0, pre.control);
                    assert(v@ == b[j as int]);
                    assert(a + b.take(j as int + 1) =~= (a + b.take(j as int)).push(
                        b[j as int],
                    ));
                }
                j = j + 1;
            }
            proof {
                let b = spec_release_views(sfv, key, 0, pre.control);
                assert(b.take(nspawn as int) =~= b);
                assert(released + spec_release_views_upto(
                    pre.soundfonts@,
                    s as int + 1,
                    key,
                    0,
                    pre.control,
                ) =~= released + spec_release_views_upto(
                    pre.soundfonts@,
                    s as int,
                    key,
                    0,
                    pre.control,
                ) + b);
            }
            s = s + 1;
        }
    }

    /// Apply one control event to the channel's control state; live
    /// voices read the new state on their next render step.
    pub fn control_event(&mut self, ev: ControlEvent)
        requires
            old(self).wf(),
        ensures
            final(self).wf(),
            final(self).control == old(self).control.spec_apply(ev),
            final(self).voices == old(self).voices,
            final(self).soundfonts == old(self).soundfonts,
    {
        self.control.apply(ev);
    }

    /// Consume one channel event.
    pub fn process_event(&mut self, ev: ChannelEvent<SF>)
        requires
            old(self).wf(),
            ev matches ChannelEvent::SetSoundfonts(sfs) ==> forall|i: int|
                0 <= i < sfs@.len() ==> (#[trigger] sfs@[i]).wf(),
        ensures
            final(self).wf(),
            spec_event_post(*old(self), *final(self), ev),
    {
        match ev {
            ChannelEvent::SetSoundfonts(sfs) => self.set_soundfonts(sfs),
            ChannelEvent::NoteOn { key, vel } => self.note_on(key, vel),
            ChannelEvent::NoteOff { key } => self.note_off(key),
            ChannelEvent::Control(cev) => self.control_event(cev),
        }
    }

    /// One render tick: every live voice renders additively into the
    /// buffer, in pool order; afterwards every voice that ended is
    /// removed from the pool, keeping the order of the rest.
    pub fn render_block(&mut self, out: &mut Vec<i64>)
        requires
            old(self).wf(),
        ensures
            final(self).wf(),
            final(self).control == old(self).control,
            final(self).soundfonts == old(self).soundfonts,
            final(out)@ == spec_mix_all(old(out)@, old(self).voices@, old(self).control),
            final(self).voices@ == spec_survivors(
                old(self).voices@,
                old(self).control,
                (old(out)@.len() / 2) as nat,
            ),
    {
        let ghost pre = *self;
        let ghost buf0 = out@;
        let ghost n = (out@.len() / 2) as nat;
        let nv: usize = self.voices.len();
        let mut kept: Vec<VoiceBase> = Vec::new();
        let mut i: usize = 0;
        while i < nv
            invariant
                pre.wf(),
                i <= nv,
                nv == pre.voices@.len(),
                self.control == pre.control,
                self.soundfonts == pre.soundfonts,
                self.voices@.len() == nv,
                forall|k: int| i <= k < nv ==> #[trigger] self.voices@[k] == pre.voices@[k],
                out@.len() == buf0.len(),
                n == (buf0.len() / 2) as nat,
                out@ == spec_mix_all(buf0, pre.voices@.take(i as int), pre.control),
                kept@ == spec_survivors(pre.voices@.take(i as int), pre.control, n),
                forall|k: int| 0 <= k < kept@.len() ==> (#[trigger] kept@[k]).wf(),
            decreases nv - i,
        {
            let mut v = placeholder_voice();
            self.voices.set_and_swap(i, &mut v);
            v.render_to(&self.control, out);
            proof {
                assert(pre.voices@.take(i as int + 1).drop_last() =~= pre.voices@.take(i as int));
                assert(pre.voices@.take(i as int + 1).last() == pre.voices@[i as int]);
            }
            if !v.is_ended() {
                kept.push(v);
            }
            i = i + 1;
        }
        proof {
            assert(pre.voices@.take(nv as int) =~= pre.voices@);
        }
        self.voices = kept;
    }

    /// How many voices are live in this channel.
    pub fn voice_count(&self) -> (r: usize)
        ensures
            r == self.voices@.len(),
    {
        self.voices.len()
    }
}

/// A pool in which every voice is already releasing, rendered for at
/// least the longest remaining release duration, drains completely: no
/// voice leaks past its release tail.
pub proof fn lemma_releasing_pool_drains(vs: Seq<VoiceBase>, c: VoiceControlData, n: nat)
    requires
        c.wf(),
        forall|i: int| 0 <= i < vs.len() ==> (#[trigger] vs[i]).wf(),
        forall|i: int| 0 <= i < vs.len() ==> (#[trigger] vs[i]).envelope.releasing,
        forall|i: int|
            0 <= i < vs.len() ==> n >= (#[trigger] vs[i]).envelope.params.release_samples
                - vs[i].envelope.release_elapsed,
    ensures
        spec_survivors(vs, c, n).len() == 0,
    decreases vs.len(),
{
    if vs.len() > 0 {
        crate::voice::lemma_released_voice_ends(vs.last(), c, n);
        lemma_releasing_pool_drains(vs.drop_last(), c, n);
    }
}

/// The bridge of a note's round trip: if a pool held only voices of one
/// key and a note-off at that key rewrote its views, then every voice of
/// the resulting pool is releasing with its envelope parameters intact —
/// so by `lemma_releasing_pool_drains` the pool empties once the release
/// tails have been rendered, leaking no voice.
pub proof fn lemma_note_off_releases_pool(
    vs0: Seq<VoiceBase>,
    vs1: Seq<VoiceBase>,
    key: u8,
)
    requires
        views_of(vs1) == spec_release_applied(views_of(vs0), key),
        forall|i: int| 0 <= i < vs0.len() ==> (#[trigger] vs0[i]).key == key,
    ensures
        vs1.len() == vs0.len(),
        forall|i: int| 0 <= i < vs1.len() ==> (#[trigger] vs1[i]).envelope.releasing,
        forall|i: int|
            0 <= i < vs1.len() ==> (#[trigger] vs1[i]).envelope.params == vs0[i].envelope.params,
{
    assert(views_of(vs1).len() == vs1.len());
    assert forall|i: int| 0 <= i < vs1.len() implies (#[trigger] vs1[i]).envelope.releasing
        && vs1[i].envelope.params == vs0[i].envelope.params by {
        assert(views_of(vs1)[i] == vs1[i]@);
        assert(views_of(vs0)[i] == vs0[i]@);
        assert(views_of(vs1)[i] == spec_signal_release_view(vs0[i]@));
    }
}

/// After a note-off, every pool voice holding the key is releasing, and
/// no other voice changed.
pub proof fn lemma_release_applied_releases(vs: Seq<VoiceView>, key: u8)
    ensures
        spec_release_applied(vs, key).len() == vs.len(),
        forall|i: int|
            0 <= i < vs.len() && (#[trigger] vs[i]).key == key ==> spec_release_applied(vs, key)[i]
                .envelope.releasing,
        forall|i: int|
            0 <= i < vs.len() && (#[trigger] vs[i]).key != key ==> spec_release_applied(vs, key)[i]
                == vs[i],
{
}

} // verus!
