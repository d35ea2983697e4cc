use metriki_tokio::runtime::project_runtime;
use metriki_tokio::task::project_task;
use metriki_tokio::{Dur, GaugeValue, RuntimeSnapshot, TaskSnapshot};

fn task_snap() -> TaskSnapshot {
    TaskSnapshot {
        first_poll_count: 1,
        instrumented_count: 2,
        dropped_count: 3,
        total_poll_count: 4,
        total_idled_count: 5,
        total_scheduled_count: 6,
        total_slow_poll_count: 7,
        total_fast_poll_count: 8,
        mean_poll_duration: Dur { secs: 0, nanos: 1_500_000 },
        mean_first_poll_delay: Dur { secs: 1, nanos: 0 },
        mean_scheduled_duration: Dur { secs: 2, nanos: 345_678_901 },
    }
}

#[test]
fn task_projection_has_exactly_the_eleven_keys_in_order() {
    let entries = project_task("tokio.tasks", &task_snap());
    let keys: Vec<&str> = entries.iter().map(|e| e.0.as_str()).collect();
    assert_eq!(
        keys,
        vec![
            "tokio.tasks.first_poll_count",
            "tokio.tasks.instrumented_count",
            "tokio.tasks.dropped_count",
            "tokio.tasks.total_poll_count",
            "tokio.tasks.total_idled_count",
            "tokio.tasks.total_scheduled_count",
            "tokio.tasks.total_slow_poll_count",
            "tokio.tasks.total_fast_poll_count",
            "tokio.tasks.mean_poll_duration",
            "tokio.tasks.mean_first_poll_delay",
            "tokio.tasks.mean_scheduled_duration",
        ]
    );
}

#[test]
fn task_projection_counts_pass_through() {
    let entries = project_task("t", &task_snap());
    for (i, expected) in (1u64..=8).enumerate() {
        assert_eq!(entries[i].1, GaugeValue::Count(expected));
    }
}

#[test]
fn task_mean_spans_truncate_to_whole_milliseconds() {
    let entries = project_task("t", &task_snap());
    // 1,500 microseconds project as 1 millisecond, not 1.5 or 2
    assert_eq!(entries[8].1, GaugeValue::Millis(1));
    assert_eq!(entries[9].1, GaugeValue::Millis(1000));
    assert_eq!(entries[10].1, GaugeValue::Millis(2345));
}

#[test]
fn span_millis_truncates() {
    assert_eq!(Dur { secs: 0, nanos: 1_500_000 }.as_millis(), 1);
    assert_eq!(Dur { secs: 0, nanos: 999_999 }.as_millis(), 0);
    assert_eq!(Dur { secs: 2, nanos: 999_999_999 }.as_millis(), 2999);
    assert_eq!(Dur { secs: u64::MAX, nanos: 999_999_999 }.as_millis(), u64::MAX as u128 * 1000 + 999);
}

#[test]
fn empty_prefix_still_joins_with_a_dot() {
    let entries = project_task("", &task_snap());
    assert_eq!(entries[0].0, ".first_poll_count");
    assert_eq!(entries.len(), 11);
}

fn runtime_snap() -> RuntimeSnapshot {
    RuntimeSnapshot {
        total_polls_count: 11,
        total_steal_count: 12,
        total_park_count: 13,
        num_remote_schedules: 14,
        total_local_schedule_count: 15,
        total_overflow_count: 16,
        total_noop_count: 17,
        total_busy_duration: Dur { secs: 0, nanos: 7_900_000 },
        busy_ratio_bits: 0.75f64.to_bits(),
    }
}

#[test]
fn runtime_projection_has_exactly_the_nine_keys_in_order() {
    let entries = project_runtime("tokio.runtime", &runtime_snap());
    let keys: Vec<&str> = entries.iter().map(|e| e.0.as_str()).collect();
    assert_eq!(
        keys,
        vec![
            "tokio.runtime.total_polls_count",
            "tokio.runtime.total_steal_count",
            "tokio.runtime.total_park_count",
            "tokio.runtime.num_remote_schedules",
            "tokio.runtime.total_local_schedule_count",
            "tokio.runtime.total_overflow_count",
            "tokio.runtime.total_noop_count",
            "tokio.runtime.total_busy_duration",
            "tokio.runtime.busy_ratio",
        ]
    );
}

#[test]
fn runtime_projection_values_pass_through() {
    let entries = project_runtime("r", &runtime_snap());
    for (i, expected) in (11u64..=17).enumerate() {
        assert_eq!(entries[i].1, GaugeValue::Count(expected));
    }
    assert_eq!(entries[7].1, GaugeValue::Millis(7));
    // the ratio is taken as-is, not rescaled
    assert_eq!(entries[8].1, GaugeValue::RatioBits(0.75f64.to_bits()));
}
