use vstd::prelude::*;
use crate::channel::{
    spec_event_post, spec_mix_all, spec_survivors, ChannelEvent, VoiceChannel,
};
use crate::soundfont::{spec_sf_equiv, SoundfontBase};
use crate::AudioStreamParams;

verus! {

/// Cap on the recorded render load: one million times the unit load.
pub const LOAD_CAP: u64 = 1_000_000_000_000;

/// A read-only snapshot of the engine's live statistics.
#[derive(Clone, Copy, PartialEq, Eq, Structural, Debug)]
pub struct SynthStats {
    /// Live voices over all channels, saturating at the top of the range.
    pub voice_count: u64,
    /// Samples left in the output buffer after the last read.
    pub last_samples_after_read: u64,
    /// Exponentially averaged render load, scaled by `SCALE`: one unit
    /// means rendering takes exactly one buffer period.
    pub average_renderer_load: u64,
}

/// A command for the engine: an event for one channel, or one broadcast
/// to every channel.
pub enum SynthEvent<SF: SoundfontBase> {
    Channel(u32, ChannelEvent<SF>),
    AllChannels(ChannelEvent<SF>),
}

/// The total live voice count of a channel set, saturating at the top of
/// the range.
pub open spec fn spec_voice_count<SF: SoundfontBase>(chs: Seq<VoiceChannel<SF>>) -> u64
    decreases chs.len(),
{
    if chs.len() == 0 {
        0
    } else {
        crate::scheduler::spec_push(
            spec_voice_count(chs.drop_last()),
            chs.last().voices@.len() as u64,
        )
    }
}

/// A buffer after every channel's pool has been rendered into it
/// additively, in channel order.
pub open spec fn spec_mix_channels<SF: SoundfontBase>(
    buf: Seq<i64>,
    chs: Seq<VoiceChannel<SF>>,
) -> Seq<i64>
    decreases chs.len(),
{
    if chs.len() == 0 {
        buf
    } else {
        spec_mix_all(
            spec_mix_channels(buf, chs.drop_last()),
            chs.last().voices@,
            chs.last().control,
        )
    }
}

/// One render tick's load: render time over buffer period, both in
/// microseconds, scaled by `SCALE` and capped.
pub open spec fn spec_load(render_micros: u64, block_micros: u64) -> int {
    let raw = render_micros * 1_000_000 / (block_micros as int);
    if raw <= LOAD_CAP {
        raw
    } else {
        LOAD_CAP as int
    }
}

/// The exponential average after folding in one tick's load: seven
/// eighths of the old average plus one eighth of the tick's load.
pub open spec fn spec_avg_load(avg: u64, render_micros: u64, block_micros: u64) -> int {
    (avg * 7 + spec_load(render_micros, block_micros)) / 8
}

/// The synthesis engine: one voice pool and control state per logical
/// channel, plus the statistics the render context publishes.
pub struct RealtimeSynth<SF: SoundfontBase> {
    pub channels: Vec<VoiceChannel<SF>>,
    pub stream_params: AudioStreamParams,
    pub last_samples_after_read: u64,
    pub average_renderer_load: u64,
}

impl<SF: SoundfontBase> RealtimeSynth<SF> {
    pub open spec fn wf(&self) -> bool {
        &&& forall|i: int|
            0 <= i < self.channels@.len() ==> (#[trigger] self.channels@[i]).wf()
        &&& self.average_renderer_load <= LOAD_CAP
    }

    /// An engine with the given number of fresh channels.
    pub fn open(channel_count: u32, stream_params: AudioStreamParams) -> (r: RealtimeSynth<SF>)
        ensures
            r.channels@.len() == channel_count,
            forall|i: int|
                0 <= i < r.channels@.len() ==> (#[trigger] r.channels@[i]).voices@.len() == 0,
            r.stream_params == stream_params,
            r.last_samples_after_read == 0,
            r.average_renderer_load == 0,
            r.wf(),
    {
        let mut channels: Vec<VoiceChannel<SF>> = Vec::new();
        let mut i: u32 = 0;
        while i < channel_count
            invariant
                i <= channel_count,
                channels@.len() == i,
                forall|j: int| 0 <= j < channels@.len() ==> (#[trigger] channels@[j]).wf(),
                forall|j: int|
                    0 <= j < channels@.len() ==> (#[trigger] channels@[j]).voices@.len() == 0,
            decreases channel_count - i,
        {
            channels.push(VoiceChannel::new());
            i = i + 1;
        }
        RealtimeSynth {
            channels,
            stream_params,
            last_samples_after_read: 0,
            average_renderer_load: 0,
        }
    }

    pub fn stream_params(&self) -> (r: &AudioStreamParams)
        ensures
            *r == self.stream_params,
    {
        &self.stream_params
    }

    /// Dispatch one event: to its channel, or to every channel in turn.
    /// A channel index past the last channel is absorbed without effect.
    /// A broadcast soundfont set reaches each channel as a behaviorally
    /// equal duplicate.
    pub fn send_event(&mut self, ev: SynthEvent<SF>)
        requires
            old(self).wf(),
            ev matches SynthEvent::Channel(_, ChannelEvent::SetSoundfonts(sfs)) ==> forall|i: int|
                0 <= i < sfs@.len() ==> (#[trigger] sfs@[i]).wf(),
            ev matches SynthEvent::AllChannels(ChannelEvent::SetSoundfonts(sfs)) ==> forall|i: int|
                0 <= i < sfs@.len() ==> (#[trigger] sfs@[i]).wf(),
        ensures
            final(self).wf(),
            final(self).channels@.len() == old(self).channels@.len(),
            final(self).stream_params == old(self).stream_params,
            ev matches SynthEvent::Channel(ci, cev) ==> {
                &&& ci < old(self).channels@.len() ==> spec_event_post(
                    old(self).channels@[ci as int],
                    final(self).channels@[ci as int],
                    cev,
                )
                &&& forall|j: int|
                    0 <= j < old(self).channels@.len() && j != ci ==> final(self).channels@[j]
                        == (#[trigger] old(self).channels@[j])
                &&& ci >= old(self).channels@.len() ==> final(self).channels
                    == old(self).channels
            },
            ev matches SynthEvent::AllChannels(ChannelEvent::NoteOn { key, vel }) ==> forall|
                j: int,
            |
                0 <= j < old(self).channels@.len() ==> spec_event_post(
                    (#[trigger] old(self).channels@[j]),
                    final(self).channels@[j],
                    ChannelEvent::NoteOn { key, vel },
                ),
            ev matches SynthEvent::AllChannels(ChannelEvent::NoteOff { key }) ==> forall|j: int|
                0 <= j < old(self).channels@.len() ==> spec_event_post(
                    (#[trigger] old(self).channels@[j]),
                    final(self).channels@[j],
                    ChannelEvent::NoteOff { key },
                ),
            ev matches SynthEvent::AllChannels(ChannelEvent::Control(cev)) ==> forall|j: int|
                0 <= j < old(self).channels@.len() ==> spec_event_post(
                    (#[trigger] old(self).channels@[j]),
                    final(self).channels@[j],
                    ChannelEvent::Control(cev),
                ),
            ev matches SynthEvent::AllChannels(ChannelEvent::SetSoundfonts(sfs)) ==> forall|
                j: int,
            |
                0 <= j < old(self).channels@.len() ==> {
                    &&& (#[trigger] final(self).channels@[j]).voices == old(
                        self,
                    ).channels@[j].voices
                    &&& final(self).channels@[j].control == old(self).channels@[j].control
                    &&& final(self).channels@[j].soundfonts@.len() == sfs@.len()
                    &&& forall|k: int|
                        0 <= k < sfs@.len() ==> spec_sf_equiv(
                            (#[trigger] final(self).channels@[j].soundfonts@[k]),
                            sfs@[k],
                        )
                },
    {
        let ghost pre = *self;
        match ev {
            SynthEvent::Channel(ci, cev) => {
                let idx = ci as usize;
                if idx < self.channels.len() {
                    let mut ch: VoiceChannel<SF> = VoiceChannel::new();
                    self.channels.set_and_swap(idx, &mut ch);
                    ch.process_event(cev);
                    self.channels.set_and_swap(idx, &mut ch);
                    proof {
                        assert(forall|j: int|
                            0 <= j < pre.channels@.len() && j != ci ==> self.channels@[j] == (
                            #[trigger] pre.channels@[j]));
                    }
                }
            },
            SynthEvent::AllChannels(cev) => {
                match cev {
                    ChannelEvent::SetSoundfonts(sfs) => {
                        let nch = self.channels.len();
                        let mut i: usize = 0;
                        while i < nch
                            invariant
                                pre.wf(),
                                i <= nch,
                                nch == pre.channels@.len(),
                                self.channels@.len() == nch,
                                self.stream_params == pre.stream_params,
                                self.last_samples_after_read == pre.last_samples_after_read,
                                self.average_renderer_load == pre.average_renderer_load,
                                forall|k: int|
                                    0 <= k < sfs@.len() ==> (#[trigger] sfs@[k]).wf(),
                                forall|j: int|
                                    i <= j < nch ==> self.channels@[j] == (
                                    #[trigger] pre.channels@[j]),
                                forall|j: int|
                                    0 <= j < i ==> (#[trigger] self.channels@[j]).wf(),
                                forall|j: int|
                                    0 <= j < i ==> {
                                        &&& (#[trigger] self.channels@[j]).voices
                                            == pre.channels@[j].voices
                                        &&& self.channels@[j].control == pre.channels@[j].control
                                        &&& self.channels@[j].soundfonts@.len() == sfs@.len()
                                        &&& forall|k: int|
                                            0 <= k < sfs@.len() ==> spec_sf_equiv(
                                                (#[trigger] self.channels@[j].soundfonts@[k]),
                                                sfs@[k],
                                            )
                                    },
                            decreases nch - i,
                        {
                            proof {
                                assert(self.channels@[i as int] == pre.channels@[i as int]);
                            }
                            let mut copies: Vec<SF> = Vec::new();
                            let nsf = sfs.len();
                            let mut k: usize = 0;
                            while k < nsf
                                invariant
                                    k <= nsf,
                                    nsf == sfs@.len(),
                                    copies@.len() == k,
                                    forall|m: int|
                                        0 <= m < sfs@.len() ==> (#[trigger] sfs@[m]).wf(),
                                    forall|m: int|
                                        0 <= m < k ==> (#[trigger] copies@[m]).wf(),
                                    forall|m: int|
                                        0 <= m < k ==> spec_sf_equiv(
                                            (#[trigger] copies@[m]),
                                            sfs@[m],
                                        ),
                                decreases nsf - k,
                            {
                                let c = sfs[k].duplicate();
                                copies.push(c);
                                k = k + 1;
                            }
                            let mut ch: VoiceChannel<SF> = VoiceChannel::new();
                            self.channels.set_and_swap(i, &mut ch);
                            ch.set_soundfonts(copies);
                            self.channels.set_and_swap(i, &mut ch);
                            i = i + 1;
                        }
                    },
                    ChannelEvent::NoteOn { key, vel } => {
                        let nch = self.channels.len();
                        let mut i: usize = 0;
                        while i < nch
                            invariant
                                pre.wf(),
                                i <= nch,
                                nch == pre.channels@.len(),
                                self.channels@.len() == nch,
                                self.stream_params == pre.stream_params,
                                self.last_samples_after_read == pre.last_samples_after_read,
                                self.average_renderer_load == pre.average_renderer_load,
                                forall|j: int|
                                    i <= j < nch ==> self.channels@[j] == (
                                    #[trigger] pre.channels@[j]),
                                forall|j: int|
                                    0 <= j < i ==> (#[trigger] self.channels@[j]).wf(),
                                forall|j: int|
                                    0 <= j < i ==> spec_event_post(
                                        (#[trigger] pre.channels@[j]),
                                        self.channels@[j],
                                        ChannelEvent::NoteOn { key, vel },
                                    ),
                            decreases nch - i,
                        {
                            proof {
                                assert(self.channels@[i as int] == pre.channels@[i as int]);
                            }
                            let mut ch: VoiceChannel<SF> = VoiceChannel::new();
                            self.channels.set_and_swap(i, &mut ch);
                            ch.note_on(key, vel);
                            self.channels.set_and_swap(i, &mut ch);
                            i = i + 1;
                        }
                    },
                    ChannelEvent::NoteOff { key } => {
                        let nch = self.channels.len();
                        let mut i: usize = 0;
                        while i < nch
                            invariant
                                pre.wf(),
                                i <= nch,
                                nch == pre.channels@.len(),
                                self.channels@.len() == nch,
                                self.stream_params == pre.stream_params,
                                self.last_samples_after_read == pre.last_samples_after_read,
                                self.average_renderer_load == pre.average_renderer_load,
                                forall|j: int|
                                    i <= j < nch ==> self.channels@[j] == (
                                    #[trigger] pre.channels@[j]),
                                forall|j: int|
                                    0 <= j < i ==> (#[trigger] self.channels@[j]).wf(),
                                forall|j: int|
                                    0 <= j < i ==> spec_event_post(
                                        (#[trigger] pre.channels@[j]),
                                        self.channels@[j],
                                        ChannelEvent::NoteOff { key },
                                    ),
                            decreases nch - i,
                        {
                            proof {
                                assert(self.channels@[i as int] == pre.channels@[i as int]);
                            }
                            let mut ch: VoiceChannel<SF> = VoiceChannel::new();
                            self.channels.set_and_swap(i, &mut ch);
                            ch.note_off(key);
                            self.channels.set_and_swap(i, &mut ch);
                            i = i + 1;
                        }
                    },
                    ChannelEvent::Control(c) => {
                        let nch = self.channels.len();
                        let mut i: usize = 0;
                        while i < nch
                            invariant
                                pre.wf(),
                                i <= nch,
                                nch == pre.channels@.len(),
                                self.channels@.len() == nch,
                                self.stream_params == pre.stream_params,
                                self.last_samples_after_read == pre.last_samples_after_read,
                                self.average_renderer_load == pre.average_renderer_load,
                                forall|j: int|
                                    i <= j < nch ==> self.channels@[j] == (
                                    #[trigger] pre.channels@[j]),
                                forall|j: int|
                                    0 <= j < i ==> (#[trigger] self.channels@[j]).wf(),
                                forall|j: int|
                                    0 <= j < i ==> spec_event_post(
                                        (#[trigger] pre.channels@[j]),
                                        self.channels@[j],
                                        ChannelEvent::Control(c),
                                    ),
                            decreases nch - i,
                        {
                            proof {
                                assert(self.channels@[i as int] == pre.channels@[i as int]);
                            }
                            let mut ch: VoiceChannel<SF> = VoiceChannel::new();
                            self.channels.set_and_swap(i, &mut ch);
                            ch.control_event(c);
                            self.channels.set_and_swap(i, &mut ch);
                            i = i + 1;
                        }
                    },
                }
            },
        }
    }

    /// One engine render tick: every channel renders additively into the
    /// shared buffer, in channel order, and retires its ended voices.
    pub fn render(&mut self, out: &mut Vec<i64>)
        requires
            old(self).wf(),
        ensures
            final(self).wf(),
            final(self).channels@.len() == old(self).channels@.len(),
            final(self).stream_params == old(self).stream_params,
            final(out)@ == spec_mix_channels(old(out)@, old(self).channels@),
            forall|j: int|
                0 <= j < old(self).channels@.len() ==> {
                    &&& (#[trigger] final(self).channels@[j]).voices@ == spec_survivors(
                        old(self).channels@[j].voices@,
                        old(self).channels@[j].control,
                        (old(out)@.len() / 2) as nat,
                    )
                    &&& final(self).channels@[j].control == old(self).channels@[j].control
                    &&& final(self).channels@[j].soundfonts == old(self).channels@[j].soundfonts
                },
    {
        let ghost pre = *self;
        let ghost buf0 = out@;
        let ghost n = (out@.len() / 2) as nat;
        let nch = self.channels.len();
        let mut i: usize = 0;
        while i < nch
            invariant
                pre.wf(),
                i <= nch,
                nch == pre.channels@.len(),
                self.channels@.len() == nch,
                self.stream_params == pre.stream_params,
                self.last_samples_after_read == pre.last_samples_after_read,
                self.average_renderer_load == pre.average_renderer_load,
                out@.len() == buf0.len(),
                n == (buf0.len() / 2) as nat,
                out@ == spec_mix_channels(buf0, pre.channels@.take(i as int)),
                forall|j: int|
                    i <= j < nch ==> self.channels@[j] == (#[trigger] pre.channels@[j]),
                forall|j: int| 0 <= j < i ==> (#[trigger] self.channels@[j]).wf(),
                forall|j: int|
                    0 <= j < i ==> {
                        &&& (#[trigger] self.channels@[j]).voices@ == spec_survivors(
                            pre.channels@[j].voices@,
                            pre.channels@[j].control,
                            n,
                        )
                        &&& self.channels@[j].control == pre.channels@[j].control
                        &&& self.channels@[j].soundfonts == pre.channels@[j].soundfonts
                    },
            decreases nch - i,
        {
            proof {
                assert(self.channels@[i as int] == pre.channels@[i as int]);
            }
            let mut ch: VoiceChannel<SF> = VoiceChannel::new();
            self.channels.set_and_swap(i, &mut ch);
            ch.render_block(out);
            proof {
                crate::channel::lemma_mix_all_len(
                    spec_mix_channels(buf0, pre.channels@.take(i as int)),
                    pre.channels@[i as int].voices@,
                    pre.channels@[i as int].control,
                );
            }
            self.channels.set_and_swap(i, &mut ch);
            proof {
                assert(pre.channels@.take(i as int + 1).drop_last() =~= pre.channels@.take(
                    i as int,
                ));
                assert(pre.channels@.take(i as int + 1).last() == pre.channels@[i as int]);
            }
            i = i + 1;
        }
        proof {
            assert(pre.channels@.take(nch as int) =~= pre.channels@);
        }
    }

    /// The total live voice count over all channels.
    pub fn voice_count(&self) -> (r: u64)
        ensures
            r == spec_voice_count(self.channels@),
    {
        let nch = self.channels.len();
        let mut acc: u64 = 0;
        let mut i: usize = 0;
        while i < nch
            invariant
                i <= nch,
                nch == self.channels@.len(),
                acc == spec_voice_count(self.channels@.take(i as int)),
            decreases nch - i,
        {
            let l: usize = self.channels[i].voice_count();
            if acc <= u64::MAX - (l as u64) {
                acc = acc + (l as u64);
            } else {
                acc = u64::MAX;
            }
            proof {
                assert(self.channels@.take(i as int + 1).drop_last() =~= self.channels@.take(
                    i as int,
                ));
                assert(self.channels@.take(i as int + 1).last() == self.channels@[i as int]);
            }
            i = i + 1;
        }
        proof {
            assert(self.channels@.take(nch as int) =~= self.channels@);
        }
        acc
    }

    /// Record how many samples the output buffer still held after the
    /// last read by the sink.
    pub fn record_samples_after_read(&mut self, samples: u64)
        requires
            old(self).wf(),
        ensures
            final(self).wf(),
            *final(self) == (RealtimeSynth { last_samples_after_read: samples, ..*old(self) }),
    {
        self.last_samples_after_read = samples;
    }

    /// Fold one render tick's measured load into the exponential average:
    /// the new average is seven eighths of the old plus one eighth of the
    /// tick's load, the tick's load being render time over buffer period
    /// (both in microseconds), capped.
    pub fn record_render_time(&mut self, render_micros: u64, block_micros: u64)
        requires
            old(self).wf(),
            1 <= block_micros,
            render_micros <= 1_000_000_000_000,
        ensures
            final(self).wf(),
            final(self).average_renderer_load == spec_avg_load(
                old(self).average_renderer_load,
                render_micros,
                block_micros,
            ),
            final(self).channels == old(self).channels,
            final(self).last_samples_after_read == old(self).last_samples_after_read,
            final(self).stream_params == old(self).stream_params,
    {
        let raw: u64 = render_micros * 1_000_000 / block_micros;
        let load: u64 = if raw <= LOAD_CAP {
            raw
        } else {
            LOAD_CAP
        };
        self.average_renderer_load = (self.average_renderer_load * 7 + load) / 8;
    }

    /// A snapshot of the live statistics for a concurrent read-only
    /// consumer.
    pub fn stats(&self) -> (r: SynthStats)
        ensures
            r.voice_count == spec_voice_count(self.channels@),
            r.last_samples_after_read == self.last_samples_after_read,
            r.average_renderer_load == self.average_renderer_load,
    {
        SynthStats {
            voice_count: self.voice_count(),
            last_samples_after_read: self.last_samples_after_read,
            average_renderer_load: self.average_renderer_load,
        }
    }
}

} // verus!
