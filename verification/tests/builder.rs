use metriki_tokio::{
    BuildError, RuntimeIntervalCursor, RuntimeSnapshot, TaskIntervalCursor, TaskSnapshot,
    TokioRuntimeMetricsSetBuilder, TokioTaskMetricsSetBuilder,
};
use metriki_tokio::Dur;
use tokio_metrics::TaskMonitor;

fn task_snap() -> TaskSnapshot {
    TaskSnapshot {
        first_poll_count: 0,
        instrumented_count: 0,
        dropped_count: 0,
        total_poll_count: 0,
        total_idled_count: 0,
        total_scheduled_count: 0,
        total_slow_poll_count: 0,
        total_fast_poll_count: 0,
        mean_poll_duration: Dur { secs: 0, nanos: 0 },
        mean_first_poll_delay: Dur { secs: 0, nanos: 0 },
        mean_scheduled_duration: Dur { secs: 0, nanos: 0 },
    }
}

fn runtime_snap() -> RuntimeSnapshot {
    RuntimeSnapshot {
        total_polls_count: 0,
        total_steal_count: 0,
        total_park_count: 0,
        num_remote_schedules: 0,
        total_local_schedule_count: 0,
        total_overflow_count: 0,
        total_noop_count: 0,
        total_busy_duration: Dur { secs: 0, nanos: 0 },
        busy_ratio_bits: 0,
    }
}

#[test]
fn task_build_succeeds_and_keeps_name() {
    let monitor = TaskMonitor::new();
    let mut builder = TokioTaskMetricsSetBuilder::new();
    builder.name("tokio.tasks");
    builder.monitor(&monitor);
    let set = builder.build().expect("both fields were supplied");
    assert_eq!(set.name().as_str(), "tokio.tasks");
}

#[test]
fn task_build_from_cursor_succeeds_and_keeps_name() {
    let mut builder = TokioTaskMetricsSetBuilder::new();
    builder.name("stub");
    builder.cursor(TaskIntervalCursor::from_snapshots(vec![task_snap()]));
    let set = builder.build().expect("both fields were supplied");
    assert_eq!(set.name().as_str(), "stub");
}

#[test]
fn task_build_without_monitor_fails() {
    let mut builder = TokioTaskMetricsSetBuilder::new();
    builder.name("tokio.tasks");
    match builder.build() {
        Err(err) => assert_eq!(err, BuildError::MissingField("monitor".to_string())),
        Ok(_) => panic!("build succeeded without a monitor"),
    }
}

#[test]
fn task_build_without_name_fails() {
    let monitor = TaskMonitor::new();
    let mut builder = TokioTaskMetricsSetBuilder::new();
    builder.monitor(&monitor);
    match builder.build() {
        Err(err) => assert_eq!(err, BuildError::MissingField("name".to_string())),
        Ok(_) => panic!("build succeeded without a name"),
    }
}

#[test]
fn task_build_with_nothing_names_the_name_field() {
    let builder = TokioTaskMetricsSetBuilder::new();
    match builder.build() {
        Err(err) => assert_eq!(err, BuildError::MissingField("name".to_string())),
        Ok(_) => panic!("build succeeded with nothing supplied"),
    }
}

#[test]
fn runtime_build_succeeds_and_keeps_name() {
    let mut builder = TokioRuntimeMetricsSetBuilder::new();
    builder.name("tokio.runtime");
    builder.cursor(RuntimeIntervalCursor::from_snapshots(vec![runtime_snap()]));
    let set = builder.build().expect("both fields were supplied");
    assert_eq!(set.name().as_str(), "tokio.runtime");
}

#[test]
fn runtime_build_without_monitor_fails() {
    let mut builder = TokioRuntimeMetricsSetBuilder::new();
    builder.name("tokio.runtime");
    match builder.build() {
        Err(err) => assert_eq!(err, BuildError::MissingField("monitor".to_string())),
        Ok(_) => panic!("build succeeded without a monitor"),
    }
}

#[test]
fn runtime_build_without_name_fails() {
    let mut builder = TokioRuntimeMetricsSetBuilder::new();
    builder.cursor(RuntimeIntervalCursor::from_snapshots(vec![runtime_snap()]));
    match builder.build() {
        Err(err) => assert_eq!(err, BuildError::MissingField("name".to_string())),
        Ok(_) => panic!("build succeeded without a name"),
    }
}
