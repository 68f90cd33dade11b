use xsynth_core::sample::NearestSampleGrabber;
use xsynth_core::scheduler::EventScheduler;

#[test]
fn cumulative_target_is_exact_sum() {
    let mut sched = EventScheduler::new();
    for _ in 0..1_000 {
        sched.push_delta(1_000);
    }
    assert_eq!(sched.target_micros, 1_000_000);
}

#[test]
fn zero_and_late_events_dispatch_immediately() {
    let mut sched = EventScheduler::new();
    sched.push_delta(0);
    assert_eq!(sched.wait_micros(0), 0);
    sched.push_delta(500);
    assert_eq!(sched.wait_micros(200), 300);
    // Already past the target: no suspension.
    assert_eq!(sched.wait_micros(900), 0);
}

#[test]
fn cumulative_pacing_does_not_accumulate_jitter() {
    // 1000 events of 1 ms each, with 200 us of oversleep injected at
    // every suspension. Cumulative pacing absorbs the jitter; naive
    // sleep-from-now pacing accumulates it into 20% drift.
    let jitter: u64 = 200;

    let mut sched = EventScheduler::new();
    let mut elapsed: u64 = 0;
    for _ in 0..1_000 {
        sched.push_delta(1_000);
        let w = sched.wait_micros(elapsed);
        if w > 0 {
            elapsed += w + jitter;
        }
    }
    // Total dispatch time converges to 1.0 s within one jitter step.
    assert!(elapsed >= 1_000_000);
    assert!(elapsed <= 1_000_000 + 2 * jitter);

    let mut naive_elapsed: u64 = 0;
    for _ in 0..1_000 {
        naive_elapsed += 1_000 + jitter;
    }
    assert_eq!(naive_elapsed, 1_200_000);
}

#[test]
fn target_saturates_at_clock_top() {
    let mut sched = EventScheduler::new();
    sched.push_delta(u64::MAX - 5);
    sched.push_delta(100);
    assert_eq!(sched.target_micros, u64::MAX);
}

#[test]
fn nearest_sample_read_and_silence_past_end() {
    let mut g = NearestSampleGrabber::new(vec![10, 20, 30]);
    assert_eq!(g.read(), 10);
    // Cursor 1.5 rounds to the nearest index 2.
    g.advance(1_500_000);
    assert_eq!(g.read(), 30);
    // Past the end of the buffer reads are silent.
    g.advance(1_000_000);
    assert_eq!(g.read(), 0);
    // A zero pitch factor freezes playback.
    let mut frozen = NearestSampleGrabber::new(vec![10, 20, 30]);
    frozen.advance(0);
    assert_eq!(frozen.read(), 10);
}
