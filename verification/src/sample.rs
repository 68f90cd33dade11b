use vstd::prelude::*;

verus! {

/// Saturation bound of a sample-read cursor, in `SCALE`-scaled sample
/// positions: far past the end of any sample buffer, where reads are
/// silent anyway.
pub const CURSOR_CAP: u64 = 0x4000_0000_0000_0000;

/// Largest accepted per-frame cursor advance.
pub const PITCH_STEP_MAX: u64 = 2_000_000_000;

/// The nearest whole sample index to a `SCALE`-scaled fractional cursor.
pub open spec fn spec_nearest_index(cursor: u64) -> int {
    (cursor + 500_000) / 1_000_000
}

/// Nearest-neighbor read from a sample buffer at a fractional cursor:
/// positions past the end of the buffer read as silence.
pub open spec fn spec_read_at(data: Seq<i64>, cursor: u64) -> int {
    if spec_nearest_index(cursor) < data.len() {
        data[spec_nearest_index(cursor)] as int
    } else {
        0
    }
}

/// A fractional read cursor over an immutable sample buffer, advanced by a
/// pitch factor each frame; reads take the nearest sample, out-of-range
/// reads are silent.
pub struct NearestSampleGrabber {
    pub data: Vec<i64>,
    /// Read position scaled by `SCALE`, saturated at `CURSOR_CAP`.
    pub cursor: u64,
}

impl NearestSampleGrabber {
    pub open spec fn wf(&self) -> bool {
        &&& self.cursor <= CURSOR_CAP
        &&& forall|i: int|
            0 <= i < self.data@.len() ==> -1_000_000 <= #[trigger] self.data@[i] <= 1_000_000
    }

    /// The grabber one frame later: cursor advanced by the pitch factor,
    /// saturating at the cap.
    pub open spec fn spec_advanced(&self, pitch: u64) -> NearestSampleGrabber {
        NearestSampleGrabber {
            data: self.data,
            cursor: if self.cursor + pitch <= CURSOR_CAP {
                (self.cursor + pitch) as u64
            } else {
                CURSOR_CAP
            },
        }
    }

    /// A fresh grabber at the start of a sample buffer.
    pub fn new(data: Vec<i64>) -> (r: NearestSampleGrabber)
        requires
            forall|i: int| 0 <= i < data@.len() ==> -1_000_000 <= #[trigger] data@[i] <= 1_000_000,
        ensures
            r.data == data,
            r.cursor == 0,
            r.wf(),
    {
        NearestSampleGrabber { data, cursor: 0 }
    }

    /// Read the sample nearest to the current cursor; silence past the end.
    pub fn read(&self) -> (r: i64)
        requires
            self.wf(),
        ensures
            r == spec_read_at(self.data@, self.cursor),
            -1_000_000 <= r <= 1_000_000,
    {
        let idx: u64 = (self.cursor + 500_000) / 1_000_000;
        if idx < self.data.len() as u64 {
            self.data[idx as usize]
        } else {
            0
        }
    }

    /// Advance the cursor by one pitch-factor step.
    pub fn advance(&mut self, pitch: u64)
        requires
            old(self).wf(),
            pitch <= PITCH_STEP_MAX,
        ensures
            *final(self) == old(self).spec_advanced(pitch),
            final(self).wf(),
    {
        if self.cursor <= CURSOR_CAP - pitch {
            self.cursor = self.cursor + pitch;
        } else {
            self.cursor = CURSOR_CAP;
        }
    }
}

/// Two nearest-neighbor grabbers over the left and right sample buffers,
/// driven by one shared pitch factor so that stereo phase stays locked.
pub struct StereoVoiceSampler {
    pub left: NearestSampleGrabber,
    pub right: NearestSampleGrabber,
}

impl StereoVoiceSampler {
    pub open spec fn wf(&self) -> bool {
        self.left.wf() && self.right.wf()
    }

    /// The sampler one frame later: both channels advanced by the same
    /// pitch factor.
    pub open spec fn spec_advanced(&self, pitch: u64) -> StereoVoiceSampler {
        StereoVoiceSampler {
            left: self.left.spec_advanced(pitch),
            right: self.right.spec_advanced(pitch),
        }
    }

    pub fn new(left: NearestSampleGrabber, right: NearestSampleGrabber) -> (r: StereoVoiceSampler)
        requires
            left.wf(),
            right.wf(),
        ensures
            r.left == left,
            r.right == right,
            r.wf(),
    {
        StereoVoiceSampler { left, right }
    }

    /// Advance both channels by one shared pitch-factor step.
    pub fn advance(&mut self, pitch: u64)
        requires
            old(self).wf(),
            pitch <= PITCH_STEP_MAX,
        ensures
            *final(self) == old(self).spec_advanced(pitch),
            final(self).wf(),
    {
        self.left.advance(pitch);
        self.right.advance(pitch);
    }
}

} // verus!
