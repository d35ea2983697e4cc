use metriki_tokio::{
    CollectError, Dur, GaugeValue, TaskIntervalCursor, TaskSnapshot, TokioTaskMetricsSetBuilder,
};
use tokio_metrics::TaskMonitor;

/// A synthetic snapshot whose counters carry `marker` so that each interval is
/// identifiable in the projected entries.
fn marked(marker: u64) -> TaskSnapshot {
    TaskSnapshot {
        first_poll_count: marker,
        instrumented_count: marker + 1,
        dropped_count: marker + 2,
        total_poll_count: marker + 3,
        total_idled_count: marker + 4,
        total_scheduled_count: marker + 5,
        total_slow_poll_count: marker + 6,
        total_fast_poll_count: marker + 7,
        mean_poll_duration: Dur { secs: 0, nanos: 1_500_000 },
        mean_first_poll_delay: Dur { secs: 2, nanos: 999_999_999 },
        mean_scheduled_duration: Dur { secs: 0, nanos: 999_999 },
    }
}

fn adapter_over(snaps: Vec<TaskSnapshot>) -> metriki_tokio::TokioTaskMetricsSet {
    let mut builder = TokioTaskMetricsSetBuilder::new();
    builder.name("t");
    builder.cursor(TaskIntervalCursor::from_snapshots(snaps));
    builder.build().expect("both fields were supplied")
}

#[test]
fn nth_collect_reflects_nth_snapshot() {
    let set = adapter_over(vec![marked(10), marked(20), marked(30)]);
    for expected in [10u64, 20, 30] {
        let entries = set.get_all().expect("stream still has elements");
        assert_eq!(entries[0].1, GaugeValue::Count(expected));
        assert_eq!(entries[7].1, GaugeValue::Count(expected + 7));
    }
}

#[test]
fn consecutive_collects_differ_on_distinct_snapshots() {
    let set = adapter_over(vec![marked(1), marked(2)]);
    let first = set.get_all().expect("first interval");
    let second = set.get_all().expect("second interval");
    assert_ne!(first, second);
}

#[test]
fn sequential_collects_consume_in_order_without_gap_or_repeat() {
    let set = adapter_over(vec![marked(0), marked(1), marked(2), marked(3), marked(4)]);
    let mut markers = Vec::new();
    for _ in 0..3 {
        let entries = set.get_all().expect("stream still has elements");
        match entries[0].1 {
            GaugeValue::Count(m) => markers.push(m),
            other => panic!("counter entry was {:?}", other),
        }
    }
    assert_eq!(markers, vec![0, 1, 2]);
}

#[test]
fn exhausted_stream_is_a_collect_fault() {
    let set = adapter_over(vec![]);
    let err = set.get_all().expect_err("the stub stream is empty");
    assert_eq!(err, CollectError::SourceExhausted);
}

#[test]
fn exhaustion_comes_only_after_every_snapshot() {
    let set = adapter_over(vec![marked(5)]);
    assert!(set.get_all().is_ok());
    assert_eq!(set.get_all().expect_err("drained"), CollectError::SourceExhausted);
}

#[test]
fn live_monitor_counts_instrumented_tasks() {
    let monitor = TaskMonitor::new();
    let mut builder = TokioTaskMetricsSetBuilder::new();
    builder.name("live");
    builder.monitor(&monitor);
    let set = builder.build().expect("both fields were supplied");

    let entries = set.get_all().expect("the live stream never ends");
    assert_eq!(entries.len(), 11);
    assert_eq!(entries[1].0, "live.instrumented_count");
    assert_eq!(entries[1].1, GaugeValue::Count(0));

    let _instrumented = monitor.instrument(std::future::ready(()));
    let entries = set.get_all().expect("the live stream never ends");
    assert_eq!(entries[1].1, GaugeValue::Count(1));
}
