//! Histograms, streams and scopes of the frame timing recorder.

use multigpu::histogram::{Histogram, HistogramSummary};
use multigpu::names::{Counter, Stage};
use multigpu::timing::{
    count, drain, enabled, enter, enter_active, initially_enabled, observe, register_stream,
    set_enabled, time, time_active, State, StreamSnapshot, Timing, MAX_STREAMS,
};
use std::time::{Duration, Instant};

#[test]
fn histogram_quantiles_overflow_and_reset() {
    let mut h = Histogram::default();
    assert_eq!(h.summary().p99_ns, 0);
    for n in 1..=100 {
        h.record(Duration::from_micros(n * 100));
    }
    let summary = h.summary();
    assert_eq!(summary.count, 100);
    assert_eq!(summary.total_ns, 505_000_000);
    assert_eq!(summary.p50_ns, 5_000_000);
    assert_eq!(summary.p95_ns, 9_500_000);
    assert_eq!(summary.p99_ns, 10_000_000);
    h.record(Duration::from_millis(30));
    assert_eq!(h.bins[140], 1);
    assert_eq!(h.summary().max_ns, 30_000_000);
    assert_eq!(h.quantile(100), 30_000_000);
    let _ = std::mem::take(&mut h);
    assert_eq!(h.summary().count, 0);
    assert!(h.bins.iter().all(|n| *n == 0));
    h.record(Duration::ZERO);
    assert_eq!(h.summary().p50_ns, 0);
}

#[test]
fn exact_minimum_lower_tails_and_reset() {
    let mut h = Histogram::default();
    let empty = h.summary();
    assert_eq!((empty.min_ns, empty.p01_ns, empty.p05_ns), (0, 0, 0));
    // Descending insertion verifies minimum tracking is independent of order.
    for n in (1..=100).rev() {
        h.record(Duration::from_micros(n * 100));
    }
    let summary = h.summary();
    assert_eq!(
        (summary.min_ns, summary.p01_ns, summary.p05_ns),
        (100_000, 100_000, 500_000)
    );
    h.record(Duration::from_nanos(123));
    let summary = h.summary();
    assert_eq!(summary.min_ns, 123);
    assert_eq!(summary.p01_ns, 100_000); // ceil(101 * 1%) = second sample
    assert_eq!(summary.p05_ns, 500_000);
    h.record(Duration::ZERO);
    assert_eq!(h.summary().min_ns, 0);
    let _ = std::mem::take(&mut h);
    assert_eq!(h.summary().min_ns, 0);
    h.record(Duration::from_nanos(42));
    assert_eq!(
        (h.summary().min_ns, h.summary().p01_ns, h.summary().p05_ns),
        (42, 42, 42)
    );
    let _ = std::mem::take(&mut h);
    h.record(Duration::MAX);
    assert_eq!(h.summary().min_ns, u64::MAX);
}

#[test]
fn bucket_boundaries_and_saturation() {
    for (ns, bin) in [
        (0, 0),
        (25_000, 0),
        (25_001, 1),
        (1_000_000, 39),
        (1_000_001, 40),
        (5_000_000, 79),
        (5_000_001, 80),
        (20_000_000, 139),
        (20_000_001, 140),
    ] {
        let mut h = Histogram::default();
        h.record(Duration::from_nanos(ns));
        assert_eq!(h.bins[bin], 1);
        assert_eq!(h.summary().p99_ns, ns);
    }
    let mut h = Histogram::default();
    h.record(Duration::MAX);
    h.record(Duration::MAX);
    assert_eq!(h.summary().total_ns, u64::MAX);
    assert_eq!(h.summary().max_ns, u64::MAX);
}

#[test]
fn reregistration_resets_samples_and_labels() {
    let mut state = State::new();
    state.register((1, 2), "old");
    let initial = state.drain();
    assert_eq!(initial[0].counters, [(Counter::StreamRegistrations, 1)]);
    for label in ["new", "new"] {
        let stream = &mut state.streams[0];
        stream.metrics[Stage::NiriFrame.index()].record(Duration::from_nanos(42));
        stream.counters[Counter::FrameAttempts.index()] = 7;
        state.register((1, 2), label);
        let snapshots = state.drain();
        assert_eq!(snapshots.len(), 1);
        assert_eq!(snapshots[0].label, label);
        assert!(snapshots[0].metrics.is_empty());
        assert_eq!(snapshots[0].counters, [(Counter::StreamRegistrations, 1)]);
        assert!(state.drain().is_empty());
        let summary = state.streams[0].metrics[Stage::NiriFrame.index()].summary();
        assert_eq!((summary.count, summary.min_ns, summary.max_ns), (0, 0, 0));
    }
    assert_eq!(state.streams.len(), 1);
}

#[test]
fn public_recording_and_worker_isolation() {
    let mut timing = Timing::new(true);
    register_stream(&mut timing, (7, 8), "output");
    let scope = enter(&mut timing, (7, 8)).unwrap();
    observe(&mut timing, Stage::NiriFrame, Duration::from_nanos(123));
    count(&mut timing, Counter::FrameAttempts, u64::MAX);
    count(&mut timing, Counter::FrameAttempts, 1);
    {
        // A worker has a recorder of its own, without scopes.
        let mut worker = Timing::new(true);
        assert!(time(&worker, Stage::NiriFrame).is_none());
        observe(&mut worker, Stage::NiriFrame, Duration::from_secs(1));
        count(&mut worker, Counter::FrameAttempts, 1);
        assert!(worker.state().streams.is_empty());
        assert!(drain(&mut worker).is_empty());
    }
    let snapshots = drain(&mut timing);
    assert_eq!(snapshots.len(), 1);
    assert_eq!(snapshots[0].label, "output");
    assert_eq!(snapshots[0].metrics[0].1.summary().total_ns, 123);
    assert_eq!(
        snapshots[0].counters,
        [
            (Counter::FrameAttempts, u64::MAX),
            (Counter::StreamRegistrations, 1)
        ]
    );
    assert!(drain(&mut timing).is_empty());
    scope.exit(&mut timing);
}

#[test]
fn nested_context_inactive_and_bounded_slots() {
    let mut timing = Timing::new(true);
    assert!(time_active(&timing, Stage::NiriFrame).is_none());
    for i in 0..MAX_STREAMS + 1 {
        register_stream(&mut timing, (0, i as u32), "test");
    }
    assert_eq!(timing.state().streams.len(), MAX_STREAMS);
    // Discard topology markers before testing frame attribution.
    let registrations = drain(&mut timing);
    assert_eq!(registrations.len(), MAX_STREAMS);
    assert!(registrations
        .iter()
        .all(|s| s.counters == [(Counter::StreamRegistrations, 1)]));
    let outer = enter_active(&mut timing, (0, 0));
    let timer = time_active(&timing, Stage::NiriFrame).unwrap();
    {
        let inner = enter_active(&mut timing, (0, 1));
        assert_eq!(timing.state().current, Some(1));
        timer.finish(&mut timing); // attributes to creation stream, not current stream
        let unknown = enter_active(&mut timing, (0, 99));
        assert!(time_active(&timing, Stage::NiriFrame).is_none());
        unknown.exit(&mut timing);
        inner.exit(&mut timing);
    }
    assert_eq!(timing.state().current, Some(0));
    outer.exit(&mut timing);
    assert!(time_active(&timing, Stage::NiriFrame).is_none());
    let snapshots = drain(&mut timing);
    assert_eq!(snapshots.len(), 1);
    assert_eq!(snapshots[0].id, (0, 0));
    assert_eq!(snapshots[0].metrics[0].1.summary().count, 1);
    assert!(drain(&mut timing).is_empty());
    assert_eq!(timing.state().streams.len(), MAX_STREAMS);
}

#[test]
fn disabled_or_inactive_public_api_is_noop() {
    for on in [false, true] {
        let mut timing = Timing::new(on);
        assert!(time(&timing, Stage::NiriFrame).is_none());
        observe(&mut timing, Stage::NiriFrame, Duration::from_millis(1));
        count(&mut timing, Counter::FrameAttempts, 1);
        assert!(drain(&mut timing).is_empty());
        if !enabled(&timing) {
            register_stream(&mut timing, (1, 1), "disabled");
            assert!(enter(&mut timing, (1, 1)).is_none());
            assert!(timing.state().streams.is_empty());
        }
    }
    fn assert_send<T: Send>() {}
    assert_send::<StreamSnapshot>();
}

#[test]
fn toggling_keeps_registrations_and_pending_samples() {
    let mut timing = Timing::new(true);
    register_stream(&mut timing, (3, 4), "kept");
    let scope = enter(&mut timing, (3, 4)).unwrap();
    observe(&mut timing, Stage::VulkanCopy, Duration::from_micros(30));
    set_enabled(&mut timing, false);
    observe(&mut timing, Stage::VulkanCopy, Duration::from_micros(30));
    count(&mut timing, Counter::DirectCopies, 2);
    assert!(drain(&mut timing).is_empty());
    set_enabled(&mut timing, true);
    assert!(enabled(&timing));
    let snapshots = drain(&mut timing);
    assert_eq!(snapshots.len(), 1);
    assert_eq!(snapshots[0].metrics.len(), 1);
    assert_eq!(snapshots[0].metrics[0].0, Stage::VulkanCopy);
    let summary = snapshots[0].metrics[0].1.summary();
    assert_eq!((summary.count, summary.total_ns), (1, 30_000));
    assert_eq!((summary.p01_ns, summary.p99_ns), (30_000, 30_000));
    assert_eq!(snapshots[0].counters, [(Counter::StreamRegistrations, 1)]);
    scope.exit(&mut timing);
}

#[test]
fn timer_records_a_given_span_to_its_creation_stream() {
    let mut timing = Timing::new(true);
    register_stream(&mut timing, (1, 0), "a");
    register_stream(&mut timing, (2, 0), "b");
    let _ = drain(&mut timing);
    let outer = enter(&mut timing, (1, 0)).unwrap();
    let timer = time(&timing, Stage::GlesWait).unwrap();
    let inner = enter(&mut timing, (2, 0)).unwrap();
    timer.finish_after(&mut timing, Duration::from_nanos(77));
    inner.exit(&mut timing);
    outer.exit(&mut timing);
    let snapshots = drain(&mut timing);
    assert_eq!(snapshots.len(), 1);
    assert_eq!(snapshots[0].label, "a");
    assert_eq!(snapshots[0].metrics[0].1.summary().max_ns, 77);
}

#[test]
fn a_running_timer_measures_elapsed_time() {
    let mut timing = Timing::new(true);
    register_stream(&mut timing, (1, 0), "a");
    let scope = enter(&mut timing, (1, 0)).unwrap();
    let timer = time(&timing, Stage::GlesWait).unwrap();
    let started = Instant::now();
    while started.elapsed() < Duration::from_millis(2) {}
    timer.finish(&mut timing);
    scope.exit(&mut timing);
    let summary = drain(&mut timing)[0].metrics[0].1.summary();
    assert_eq!(summary.count, 1);
    assert!(summary.min_ns >= 2_000_000);
}

#[test]
fn only_the_exact_environment_value_enables_recording() {
    assert!(initially_enabled(Some("1")));
    for value in [None, Some(""), Some("0"), Some("11"), Some("true"), Some(" 1")] {
        assert!(!initially_enabled(value));
    }
}

#[test]
fn names_follow_declaration_order() {
    let stages = Stage::all();
    assert_eq!(stages[0], Stage::NiriFrame);
    assert_eq!(stages[48], Stage::NiriPresentRetire);
    for (i, stage) in stages.iter().enumerate() {
        assert_eq!(stage.index(), i);
        assert_eq!(stage.as_str(), format!("{stage:?}"));
    }
    let counters = Counter::all();
    assert_eq!(counters[24], Counter::StreamRegistrations);
    for (i, counter) in counters.iter().enumerate() {
        assert_eq!(counter.index(), i);
        assert_eq!(counter.as_str(), format!("{counter:?}"));
    }
}

#[test]
fn quantiles_bound_the_samples_they_stand_for() {
    let mut forward = Histogram::default();
    let mut backward = Histogram::default();
    let samples = [3_u128, 25_000, 25_001, 990_000, 4_900_001, 19_999_999, 21_000_000];
    for ns in samples {
        forward.record_nanos(ns);
    }
    for ns in samples.iter().rev() {
        backward.record_nanos(*ns);
    }
    assert_eq!(forward.summary(), backward.summary());
    assert_eq!(forward.bins, backward.bins);
    let expected = [
        (0, 25_000),
        (14, 25_000),
        (15, 25_000),
        (29, 50_000),
        (43, 1_000_000),
        (58, 5_000_000),
        (72, 20_000_000),
        (86, 21_000_000),
        (100, 21_000_000),
    ];
    for (percentile, bound) in expected {
        assert_eq!(forward.quantile(percentile), bound, "p{percentile}");
    }
    assert_eq!(Histogram::default().summary(), HistogramSummary::default());
    forward.record_nanos(u128::MAX);
    assert_eq!(forward.summary().max_ns, u64::MAX);
    assert_eq!(forward.quantile(100), u64::MAX);
    assert_eq!(forward.take().summary().count, 8);
    assert_eq!(forward.summary(), HistogramSummary::default());
}

#[test]
fn drained_histograms_are_the_default() {
    let mut state = State::new();
    state.register((1, 2), "first");
    state.register((3, 4), "second");
    let _ = state.select((3, 4));
    state.observe_nanos(1, Stage::VulkanCopy, 7);
    state.count(0, Counter::BatchesCreated, 5);
    assert_eq!(state.drain().len(), 2);
    for again in 0..2 {
        for stream in &state.streams {
            for histogram in &stream.metrics {
                assert_eq!((histogram.count, histogram.total_ns), (0, 0));
                assert_eq!((histogram.min_ns, histogram.max_ns), (u64::MAX, 0));
                assert!(histogram.bins.iter().all(|bin| *bin == 0));
            }
            assert!(stream.counters.iter().all(|counter| *counter == 0));
        }
        assert_eq!(state.streams[0].label, "first");
        assert_eq!(state.streams[1].id, (3, 4));
        assert_eq!(state.current, Some(1));
        assert!(state.drain().is_empty(), "drain {again}");
    }
}

#[test]
fn quantiles_are_rounded_samples() {
    let mut h = Histogram::default();
    for nanos in [10u128, 30_000, 60_000, 1_050_000] {
        h.record_nanos(nanos);
    }
    assert_eq!(h.quantile(25), 25_000);
    assert_eq!(h.quantile(50), 50_000);
    assert_eq!(h.quantile(75), 75_000);
    // The bound of the last bucket in use is above the maximum.
    assert_eq!(h.quantile(100), 1_050_000);
}
