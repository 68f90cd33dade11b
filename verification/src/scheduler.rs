use vstd::prelude::*;

verus! {

/// The scheduled target time after one more delta, saturating at the top
/// of the clock range.
pub open spec fn spec_push(t: u64, d: u64) -> u64 {
    if t + d <= u64::MAX {
        (t + d) as u64
    } else {
        u64::MAX
    }
}

/// The scheduled target time after a whole sequence of deltas.
pub open spec fn spec_push_all(t: u64, ds: Seq<u64>) -> u64
    decreases ds.len(),
{
    if ds.len() == 0 {
        t
    } else {
        spec_push(spec_push_all(t, ds.drop_last()), ds.last())
    }
}

/// The exact sum of a sequence of deltas.
pub open spec fn spec_sum(ds: Seq<u64>) -> int
    decreases ds.len(),
{
    if ds.len() == 0 {
        0
    } else {
        spec_sum(ds.drop_last()) + ds.last()
    }
}

/// Paces a pre-ordered, delta-timed event stream against a monotonic
/// clock: a cumulative target anchored once at stream start, never a
/// per-event sleep-from-now, so rounding and oversleep cannot compound.
pub struct EventScheduler {
    /// Cumulative scheduled time of the next event, in microseconds since
    /// the stream's start anchor.
    pub target_micros: u64,
}

impl EventScheduler {
    /// A scheduler anchored at its stream's start: nothing scheduled yet.
    pub fn new() -> (r: EventScheduler)
        ensures
            r.target_micros == 0,
    {
        EventScheduler { target_micros: 0 }
    }

    /// Account one event's delta: the event is due at the cumulative sum
    /// of all deltas so far, regardless of how late earlier events were
    /// dispatched.
    pub fn push_delta(&mut self, delta_micros: u64)
        ensures
            final(self).target_micros == spec_push(old(self).target_micros, delta_micros),
    {
        if self.target_micros <= u64::MAX - delta_micros {
            self.target_micros = self.target_micros + delta_micros;
        } else {
            self.target_micros = u64::MAX;
        }
    }

    /// How long dispatch must still be suspended, given the time actually
    /// elapsed since the anchor: the remainder to the cumulative target,
    /// zero once the target has passed (a late or zero-delta event
    /// dispatches immediately).
    pub fn wait_micros(&self, elapsed_micros: u64) -> (w: u64)
        ensures
            w == if self.target_micros > elapsed_micros {
                self.target_micros - elapsed_micros
            } else {
                0
            },
    {
        if self.target_micros > elapsed_micros {
            self.target_micros - elapsed_micros
        } else {
            0
        }
    }
}

/// Drift-freedom of cumulative pacing: after any sequence of deltas whose
/// exact sum fits the clock range, the scheduled target equals that exact
/// sum on top of the anchor — per-event rounding and oversleep never
/// accumulate into the target.
pub proof fn lemma_no_drift(t0: u64, ds: Seq<u64>)
    requires
        t0 + spec_sum(ds) <= u64::MAX,
    ensures
        spec_push_all(t0, ds) == t0 + spec_sum(ds),
    decreases ds.len(),
{
    if ds.len() > 0 {
        lemma_sum_nonneg(ds.drop_last());
        lemma_no_drift(t0, ds.drop_last());
    }
}

/// A sum of deltas is never negative.
pub proof fn lemma_sum_nonneg(ds: Seq<u64>)
    ensures
        spec_sum(ds) >= 0,
    decreases ds.len(),
{
    if ds.len() > 0 {
        lemma_sum_nonneg(ds.drop_last());
    }
}

} // verus!
