//! Bridges the interval snapshot streams of an asynchronous task scheduler
//! into pull-based metrics sets: each adapter owns a name and a lock-guarded
//! cursor over the stream, and every collection advances the cursor once and
//! projects that snapshot into a flat list of named gauge readings.

pub mod errors;
pub mod gauge;
pub mod key;
pub mod runtime;
pub mod task;
pub mod time;

pub use errors::{BuildError, CollectError};
pub use gauge::GaugeValue;
pub use runtime::{
    RuntimeIntervalCursor, RuntimeSnapshot, TokioRuntimeMetricsSet, TokioRuntimeMetricsSetBuilder,
};
pub use task::{TaskIntervalCursor, TaskSnapshot, TokioTaskMetricsSet, TokioTaskMetricsSetBuilder};
pub use time::Dur;
