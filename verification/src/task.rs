//! The task-domain family: the plain snapshot model, the projector that turns
//! one snapshot into the full list of named gauge readings, the lock-guarded
//! interval cursor, and the adapter with its builder.

use vstd::prelude::*;

use std::sync::{Arc, Mutex};
use tokio_metrics::{TaskMetrics, TaskMonitor};

use crate::errors::{BuildError, CollectError};
use crate::gauge::GaugeValue;
use crate::key::{lemma_prefix_cancel, prefixed};
use crate::time::{dur_of, Dur};

verus! {

/// How many entries a task projection holds: eight raw counters and three
/// derived mean spans.
pub const TASK_FIELDS: usize = 11;

/// One interval's aggregate task statistics, as plain values: counts of polls
/// in their several kinds, plus the interval's mean poll span, mean delay
/// before the first poll, and mean scheduled span.
#[derive(Clone, Copy, Debug, PartialEq, Eq, Structural)]
pub struct TaskSnapshot {
    pub first_poll_count: u64,
    pub instrumented_count: u64,
    pub dropped_count: u64,
    pub total_poll_count: u64,
    pub total_idled_count: u64,
    pub total_scheduled_count: u64,
    pub total_slow_poll_count: u64,
    pub total_fast_poll_count: u64,
    pub mean_poll_duration: Dur,
    pub mean_first_poll_delay: Dur,
    pub mean_scheduled_duration: Dur,
}

impl TaskSnapshot {
    /// All three spans are well-formed.
    pub open spec fn wf(self) -> bool {
        self.mean_poll_duration.wf() && self.mean_first_poll_delay.wf()
            && self.mean_scheduled_duration.wf()
    }
}

/// The field name of the i-th entry of a task projection.
pub open spec fn task_field_name(i: int) -> Seq<char> {
    if i == 0 {
        "first_poll_count"@
    } else if i == 1 {
        "instrumented_count"@
    } else if i == 2 {
        "dropped_count"@
    } else if i == 3 {
        "total_poll_count"@
    } else if i == 4 {
        "total_idled_count"@
    } else if i == 5 {
        "total_scheduled_count"@
    } else if i == 6 {
        "total_slow_poll_count"@
    } else if i == 7 {
        "total_fast_poll_count"@
    } else if i == 8 {
        "mean_poll_duration"@
    } else if i == 9 {
        "mean_first_poll_delay"@
    } else {
        "mean_scheduled_duration"@
    }
}

/// The value of the i-th entry of a task projection: counters pass through as
/// counts, the three mean spans are truncated to whole milliseconds.
pub open spec fn task_field_value(s: TaskSnapshot, i: int) -> GaugeValue {
    if i == 0 {
        GaugeValue::Count(s.first_poll_count)
    } else if i == 1 {
        GaugeValue::Count(s.instrumented_count)
    } else if i == 2 {
        GaugeValue::Count(s.dropped_count)
    } else if i == 3 {
        GaugeValue::Count(s.total_poll_count)
    } else if i == 4 {
        GaugeValue::Count(s.total_idled_count)
    } else if i == 5 {
        GaugeValue::Count(s.total_scheduled_count)
    } else if i == 6 {
        GaugeValue::Count(s.total_slow_poll_count)
    } else if i == 7 {
        GaugeValue::Count(s.total_fast_poll_count)
    } else if i == 8 {
        GaugeValue::Millis(s.mean_poll_duration.spec_millis() as u128)
    } else if i == 9 {
        GaugeValue::Millis(s.mean_first_poll_delay.spec_millis() as u128)
    } else {
        GaugeValue::Millis(s.mean_scheduled_duration.spec_millis() as u128)
    }
}

/// The fully qualified key of the i-th entry for this prefix.
pub open spec fn task_entry_key(prefix: Seq<char>, i: int) -> Seq<char> {
    prefix + "."@ + task_field_name(i)
}

/// The entries are the complete task projection of this snapshot under this
/// prefix: exactly one entry per field, keyed and valued as enumerated above.
pub open spec fn task_entries_ok(
    prefix: Seq<char>,
    s: TaskSnapshot,
    entries: Seq<(String, GaugeValue)>,
) -> bool {
    &&& entries.len() == TASK_FIELDS
    &&& forall|i: int|
        0 <= i < TASK_FIELDS ==> (#[trigger] entries[i]).0@ == task_entry_key(prefix, i)
    &&& forall|i: int| 0 <= i < TASK_FIELDS ==> (#[trigger] entries[i]).1 == task_field_value(s, i)
}

/// Projects one task snapshot into the full list of named gauge readings,
/// in the enumeration order of `task_field_name`.
pub fn project_task(name: &str, s: &TaskSnapshot) -> (entries: Vec<(String, GaugeValue)>)
    ensures
        task_entries_ok(name@, *s, entries@),
{
    let mut entries: Vec<(String, GaugeValue)> = Vec::new();
    entries.push((prefixed(name, "first_poll_count"), GaugeValue::Count(s.first_poll_count)));
    entries.push((prefixed(name, "instrumented_count"), GaugeValue::Count(s.instrumented_count)));
    entries.push((prefixed(name, "dropped_count"), GaugeValue::Count(s.dropped_count)));
    entries.push((prefixed(name, "total_poll_count"), GaugeValue::Count(s.total_poll_count)));
    entries.push((prefixed(name, "total_idled_count"), GaugeValue::Count(s.total_idled_count)));
    entries.push(
        (prefixed(name, "total_scheduled_count"), GaugeValue::Count(s.total_scheduled_count)),
    );
    entries.push(
        (prefixed(name, "total_slow_poll_count"), GaugeValue::Count(s.total_slow_poll_count)),
    );
    entries.push(
        (prefixed(name, "total_fast_poll_count"), GaugeValue::Count(s.total_fast_poll_count)),
    );
    entries.push(
        (prefixed(name, "mean_poll_duration"), GaugeValue::Millis(s.mean_poll_duration.as_millis())),
    );
    entries.push(
        (
            prefixed(name, "mean_first_poll_delay"),
            GaugeValue::Millis(s.mean_first_poll_delay.as_millis()),
        ),
    );
    entries.push(
        (
            prefixed(name, "mean_scheduled_duration"),
            GaugeValue::Millis(s.mean_scheduled_duration.as_millis()),
        ),
    );
    assert forall|i: int| 0 <= i < TASK_FIELDS implies (#[trigger] entries@[i]).0@
        == task_entry_key(name@, i) && entries@[i].1 == task_field_value(*s, i) by {
        assert(entries@[0].0@ == task_entry_key(name@, 0));
        assert(entries@[1].0@ == task_entry_key(name@, 1));
        assert(entries@[2].0@ == task_entry_key(name@, 2));
        assert(entries@[3].0@ == task_entry_key(name@, 3));
        assert(entries@[4].0@ == task_entry_key(name@, 4));
        assert(entries@[5].0@ == task_entry_key(name@, 5));
        assert(entries@[6].0@ == task_entry_key(name@, 6));
        assert(entries@[7].0@ == task_entry_key(name@, 7));
        assert(entries@[8].0@ == task_entry_key(name@, 8));
        assert(entries@[9].0@ == task_entry_key(name@, 9));
        assert(entries@[10].0@ == task_entry_key(name@, 10));
    }
    entries
}

/// The eleven field names are pairwise distinct.
pub proof fn lemma_task_field_names_distinct(i: int, j: int)
    requires
        0 <= i < TASK_FIELDS,
        0 <= j < TASK_FIELDS,
        i != j,
    ensures
        task_field_name(i) != task_field_name(j),
{
    reveal_strlit("first_poll_count");
    reveal_strlit("instrumented_count");
    reveal_strlit("dropped_count");
    reveal_strlit("total_poll_count");
    reveal_strlit("total_idled_count");
    reveal_strlit("total_scheduled_count");
    reveal_strlit("total_slow_poll_count");
    reveal_strlit("total_fast_poll_count");
    reveal_strlit("mean_poll_duration");
    reveal_strlit("mean_first_poll_delay");
    reveal_strlit("mean_scheduled_duration");
    assert(task_field_name(0).len() == 16);
    assert(task_field_name(1).len() == 18);
    assert(task_field_name(2).len() == 13);
    assert(task_field_name(3).len() == 16);
    assert(task_field_name(4).len() == 17);
    assert(task_field_name(5).len() == 21);
    assert(task_field_name(6).len() == 21);
    assert(task_field_name(7).len() == 21);
    assert(task_field_name(8).len() == 18);
    assert(task_field_name(9).len() == 21);
    assert(task_field_name(10).len() == 23);
    // names of equal length differ in an early character
    assert(task_field_name(0)[0] == 'f' && task_field_name(3)[0] == 't');
    assert(task_field_name(1)[0] == 'i' && task_field_name(8)[0] == 'm');
    assert(task_field_name(5)[0] == 't' && task_field_name(6)[0] == 't' && task_field_name(7)[0]
        == 't' && task_field_name(9)[0] == 'm');
    assert(task_field_name(5)[6] == 's' && task_field_name(5)[7] == 'c');
    assert(task_field_name(6)[6] == 's' && task_field_name(6)[7] == 'l');
    assert(task_field_name(7)[6] == 'f');
}

/// Law of field completeness: a task projection holds exactly one entry per
/// enumerated field, each key the prefix joined to that field's name with a
/// dot, and its keys are pairwise distinct, so the entries form a mapping
/// with exactly as many keys as fields.
pub proof fn lemma_task_projection_complete(
    prefix: Seq<char>,
    s: TaskSnapshot,
    entries: Seq<(String, GaugeValue)>,
)
    requires
        task_entries_ok(prefix, s, entries),
    ensures
        entries.len() == TASK_FIELDS,
        forall|i: int|
            0 <= i < TASK_FIELDS ==> (#[trigger] entries[i]).0@ == prefix + "."@
                + task_field_name(i),
        forall|i: int, j: int|
            0 <= i < TASK_FIELDS && 0 <= j < TASK_FIELDS && i != j ==> (#[trigger] entries[i]).0@
                != (#[trigger] entries[j]).0@,
{
    assert forall|i: int, j: int|
        0 <= i < TASK_FIELDS && 0 <= j < TASK_FIELDS && i != j implies (#[trigger] entries[i]).0@
        != (#[trigger] entries[j]).0@ by {
        lemma_task_field_names_distinct(i, j);
        if entries[i].0@ == entries[j].0@ {
            lemma_prefix_cancel(prefix + "."@, task_field_name(i), task_field_name(j));
        }
    }
}

/// Law of separation: two snapshots whose projections agree on every field
/// have equal counters and means that truncate to the same millisecond; and
/// conversely. Snapshots differing only below a millisecond therefore project
/// equally, and any other difference shows up in some entry.
pub proof fn lemma_task_values_eq_iff(s1: TaskSnapshot, s2: TaskSnapshot)
    ensures
        (forall|i: int|
            0 <= i < TASK_FIELDS ==> #[trigger] task_field_value(s1, i) == task_field_value(
                s2,
                i,
            )) <==> (s1.first_poll_count == s2.first_poll_count && s1.instrumented_count
            == s2.instrumented_count && s1.dropped_count == s2.dropped_count
            && s1.total_poll_count == s2.total_poll_count && s1.total_idled_count
            == s2.total_idled_count && s1.total_scheduled_count == s2.total_scheduled_count
            && s1.total_slow_poll_count == s2.total_slow_poll_count && s1.total_fast_poll_count
            == s2.total_fast_poll_count && s1.mean_poll_duration.spec_millis()
            == s2.mean_poll_duration.spec_millis() && s1.mean_first_poll_delay.spec_millis()
            == s2.mean_first_poll_delay.spec_millis() && s1.mean_scheduled_duration.spec_millis()
            == s2.mean_scheduled_duration.spec_millis()),
{
    if forall|i: int|
        0 <= i < TASK_FIELDS ==> #[trigger] task_field_value(s1, i) == task_field_value(s2, i) {
        assert(task_field_value(s1, 0) == task_field_value(s2, 0));
        assert(task_field_value(s1, 1) == task_field_value(s2, 1));
        assert(task_field_value(s1, 2) == task_field_value(s2, 2));
        assert(task_field_value(s1, 3) == task_field_value(s2, 3));
        assert(task_field_value(s1, 4) == task_field_value(s2, 4));
        assert(task_field_value(s1, 5) == task_field_value(s2, 5));
        assert(task_field_value(s1, 6) == task_field_value(s2, 6));
        assert(task_field_value(s1, 7) == task_field_value(s2, 7));
        assert(task_field_value(s1, 8) == task_field_value(s2, 8));
        assert(task_field_value(s1, 9) == task_field_value(s2, 9));
        assert(task_field_value(s1, 10) == task_field_value(s2, 10));
    }
}

/// Law against silent repetition: projections of two snapshots that differ in
/// some projected field are different entry lists, whatever the shared
/// prefix — a cursor that actually advanced onto such a snapshot can never
/// hand back the previous mapping.
pub proof fn lemma_distinct_snapshots_distinct_entries(
    prefix: Seq<char>,
    s1: TaskSnapshot,
    s2: TaskSnapshot,
    e1: Seq<(String, GaugeValue)>,
    e2: Seq<(String, GaugeValue)>,
    k: int,
)
    requires
        task_entries_ok(prefix, s1, e1),
        task_entries_ok(prefix, s2, e2),
        0 <= k < TASK_FIELDS,
        task_field_value(s1, k) != task_field_value(s2, k),
    ensures
        e1 != e2,
{
    assert(e1[k].1 == task_field_value(s1, k));
    assert(e2[k].1 == task_field_value(s2, k));
    if e1 == e2 {
        assert(e1[k] == e2[k]);
    }
}

#[verifier::external_type_specification]
#[verifier::external_body]
pub struct ExTaskMetrics(TaskMetrics);

#[verifier::external_type_specification]
#[verifier::external_body]
pub struct ExTaskMonitor(TaskMonitor);

/// Reads one aggregate record into the plain snapshot model, field for field.
/// Relies on the eight public counters of tokio_metrics::TaskMetrics and on
/// its mean_poll_duration, mean_first_poll_delay and mean_scheduled_duration
/// accessors; a std duration always carries a sub-second remainder below one
/// second, so the result is well-formed.
#[verifier::external_body]
pub fn task_snapshot_of(m: &TaskMetrics) -> (s: TaskSnapshot)
    ensures
        s.wf(),
{
    TaskSnapshot {
        first_poll_count: m.first_poll_count,
        instrumented_count: m.instrumented_count,
        dropped_count: m.dropped_count,
        total_poll_count: m.total_poll_count,
        total_idled_count: m.total_idled_count,
        total_scheduled_count: m.total_scheduled_count,
        total_slow_poll_count: m.total_slow_poll_count,
        total_fast_poll_count: m.total_fast_poll_count,
        mean_poll_duration: dur_of(&m.mean_poll_duration()),
        mean_first_poll_delay: dur_of(&m.mean_first_poll_delay()),
        mean_scheduled_duration: dur_of(&m.mean_scheduled_duration()),
    }
}

/// Serialized access to a stream of task snapshots: a mutual-exclusion lock
/// around the stream, advanced by exactly one element per collection cycle.
/// The stream is a trait object, which the verifier cannot model, so the whole
/// struct is opaque; every snapshot it yields is well-formed, because both
/// constructors only admit well-formed ones.
#[verifier::external_body]
pub struct TaskIntervalCursor {
    source: Arc<Mutex<Box<dyn Iterator<Item = TaskSnapshot> + Send>>>,
}

impl TaskIntervalCursor {
    /// Relies on tokio_metrics::TaskMonitor::intervals: a fresh, unending
    /// stream with one aggregate record per elapsed interval, read into the
    /// snapshot model by `task_snapshot_of`.
    #[verifier::external_body]
    pub fn from_monitor(monitor: &TaskMonitor) -> (c: TaskIntervalCursor) {
        let stream = monitor.intervals().map(|m| task_snapshot_of(&m));
        TaskIntervalCursor { source: Arc::new(Mutex::new(Box::new(stream))) }
    }

    /// A cursor replaying the given snapshots in order, then ending. Relies on
    /// Vec::into_iter yielding the elements in order.
    #[verifier::external_body]
    pub fn from_snapshots(items: Vec<TaskSnapshot>) -> (c: TaskIntervalCursor)
        requires
            forall|i: int| 0 <= i < items@.len() ==> (#[trigger] items@[i]).wf(),
    {
        TaskIntervalCursor { source: Arc::new(Mutex::new(Box::new(items.into_iter()))) }
    }

    /// Advances the stream by one snapshot. Relies on std::sync::Mutex::lock
    /// to serialize concurrent callers, blocking until the lock is free, and
    /// on Iterator::next for the element; a poisoned lock and an ended stream
    /// each surface as the matching fault.
    #[verifier::external_body]
    pub fn advance(&self) -> (r: Result<TaskSnapshot, CollectError>)
        ensures
            r matches Ok(s) ==> s.wf(),
    {
        match self.source.lock() {
            Err(_) => Err(CollectError::LockPoisoned),
            Ok(mut stream) => match stream.next() {
                None => Err(CollectError::SourceExhausted),
                Some(s) => Ok(s),
            },
        }
    }
}

/// The task-domain metrics set: a fixed name, used as the dot-joined prefix of
/// every key it emits, and the cursor it advances once per collection.
pub struct TokioTaskMetricsSet {
    name: String,
    monitor: TaskIntervalCursor,
}

impl TokioTaskMetricsSet {
    /// The adapter's registered name.
    pub closed spec fn spec_name(&self) -> Seq<char> {
        self.name@
    }

    pub fn name(&self) -> (n: &String)
        ensures
            n@ == self.spec_name(),
    {
        &self.name
    }

    /// One collection cycle: advances the cursor by exactly one interval and
    /// returns the complete projection of the snapshot so obtained; on a
    /// cursor fault, returns it and projects nothing.
    pub fn get_all(&self) -> (r: Result<Vec<(String, GaugeValue)>, CollectError>)
        ensures
            r matches Ok(entries) ==> exists|s: TaskSnapshot|
                s.wf() && task_entries_ok(self.spec_name(), s, entries@),
    {
        match self.monitor.advance() {
            Ok(s) => {
                let entries = project_task(self.name.as_str(), &s);
                proof {
                    assert(task_entries_ok(self.spec_name(), s, entries@));
                }
                Ok(entries)
            },
            Err(e) => Err(e),
        }
    }
}

/// Accumulates the two required fields of a task-domain adapter; `build`
/// refuses to assemble one while either is missing.
pub struct TokioTaskMetricsSetBuilder {
    pub name: Option<String>,
    pub monitor: Option<TaskIntervalCursor>,
}

impl TokioTaskMetricsSetBuilder {
    /// A builder with nothing supplied yet.
    pub fn new() -> (b: Self)
        ensures
            b.name is None,
            b.monitor is None,
    {
        TokioTaskMetricsSetBuilder { name: None, monitor: None }
    }

    /// Supplies the adapter name.
    pub fn name(&mut self, name: &str)
        ensures
            final(self).name matches Some(n) && n@ == name@,
            final(self).monitor == old(self).monitor,
    {
        self.name = Some(name.to_owned());
    }

    /// Supplies the monitor, wrapping its interval stream into a fresh
    /// lock-guarded cursor.
    pub fn monitor(&mut self, monitor: &TaskMonitor)
        ensures
            final(self).monitor is Some,
            final(self).name == old(self).name,
    {
        self.monitor = Some(TaskIntervalCursor::from_monitor(monitor));
    }

    /// Supplies an already-made cursor, such as one replaying known snapshots.
    pub fn cursor(&mut self, cursor: TaskIntervalCursor)
        ensures
            final(self).monitor is Some,
            final(self).name == old(self).name,
    {
        self.monitor = Some(cursor);
    }

    /// Validates and assembles the adapter: succeeds exactly when both fields
    /// were supplied, keeps the supplied name, and otherwise names the first
    /// missing field.
    pub fn build(self) -> (r: Result<TokioTaskMetricsSet, BuildError>)
        ensures
            r is Ok <==> self.name is Some && self.monitor is Some,
            r matches Ok(a) ==> self.name matches Some(n) && a.spec_name() == n@,
            r matches Err(e) ==> e matches BuildError::MissingField(f) && f@ == (
            if self.name is None {
                "name"@
            } else {
                "monitor"@
            }),
    {
        match (self.name, self.monitor) {
            (Some(name), Some(monitor)) => Ok(TokioTaskMetricsSet { name, monitor }),
            (None, _) => Err(BuildError::MissingField("name".to_owned())),
            (Some(_), None) => Err(BuildError::MissingField("monitor".to_owned())),
        }
    }
}

} // verus!
