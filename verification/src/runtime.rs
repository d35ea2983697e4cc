//! The scheduler-domain family, structurally identical to the task-domain
//! one: plain snapshot model, projector, lock-guarded interval cursor, and
//! the adapter with its builder.

use vstd::prelude::*;

use std::sync::{Arc, Mutex};
use tokio_metrics::{RuntimeMetrics, RuntimeMonitor};

use crate::errors::{BuildError, CollectError};
use crate::gauge::GaugeValue;
use crate::key::{lemma_prefix_cancel, prefixed};
use crate::time::{dur_of, Dur};

verus! {

/// How many entries a scheduler projection holds: seven raw counters, one
/// derived busy span, and the busy ratio.
pub const RUNTIME_FIELDS: usize = 9;

/// One interval's aggregate scheduler statistics, as plain values: event
/// counts, the total busy span, and the busy ratio — a dimensionless reading
/// supplied by the source, carried as its raw 64-bit floating-point bits.
#[derive(Clone, Copy, Debug, PartialEq, Eq, Structural)]
pub struct RuntimeSnapshot {
    pub total_polls_count: u64,
    pub total_steal_count: u64,
    pub total_park_count: u64,
    pub num_remote_schedules: u64,
    pub total_local_schedule_count: u64,
    pub total_overflow_count: u64,
    pub total_noop_count: u64,
    pub total_busy_duration: Dur,
    pub busy_ratio_bits: u64,
}

impl RuntimeSnapshot {
    /// The busy span is well-formed.
    pub open spec fn wf(self) -> bool {
        self.total_busy_duration.wf()
    }
}

/// The field name of the i-th entry of a scheduler projection.
pub open spec fn runtime_field_name(i: int) -> Seq<char> {
    if i == 0 {
        "total_polls_count"@
    } else if i == 1 {
        "total_steal_count"@
    } else if i == 2 {
        "total_park_count"@
    } else if i == 3 {
        "num_remote_schedules"@
    } else if i == 4 {
        "total_local_schedule_count"@
    } else if i == 5 {
        "total_overflow_count"@
    } else if i == 6 {
        "total_noop_count"@
    } else if i == 7 {
        "total_busy_duration"@
    } else {
        "busy_ratio"@
    }
}

/// The value of the i-th entry of a scheduler projection: counters pass
/// through as counts, the busy span is truncated to whole milliseconds, and
/// the busy ratio passes through unrescaled.
pub open spec fn runtime_field_value(s: RuntimeSnapshot, i: int) -> GaugeValue {
    if i == 0 {
        GaugeValue::Count(s.total_polls_count)
    } else if i == 1 {
        GaugeValue::Count(s.total_steal_count)
    } else if i == 2 {
        GaugeValue::Count(s.total_park_count)
    } else if i == 3 {
        GaugeValue::Count(s.num_remote_schedules)
    } else if i == 4 {
        GaugeValue::Count(s.total_local_schedule_count)
    } else if i == 5 {
        GaugeValue::Count(s.total_overflow_count)
    } else if i == 6 {
        GaugeValue::Count(s.total_noop_count)
    } else if i == 7 {
        GaugeValue::Millis(s.total_busy_duration.spec_millis() as u128)
    } else {
        GaugeValue::RatioBits(s.busy_ratio_bits)
    }
}

/// The fully qualified key of the i-th entry for this prefix.
pub open spec fn runtime_entry_key(prefix: Seq<char>, i: int) -> Seq<char> {
    prefix + "."@ + runtime_field_name(i)
}

/// The entries are the complete scheduler projection of this snapshot under
/// this prefix: exactly one entry per field, keyed and valued as enumerated
/// above.
pub open spec fn runtime_entries_ok(
    prefix: Seq<char>,
    s: RuntimeSnapshot,
    entries: Seq<(String, GaugeValue)>,
) -> bool {
    &&& entries.len() == RUNTIME_FIELDS
    &&& forall|i: int|
        0 <= i < RUNTIME_FIELDS ==> (#[trigger] entries[i]).0@ == runtime_entry_key(prefix, i)
    &&& forall|i: int|
        0 <= i < RUNTIME_FIELDS ==> (#[trigger] entries[i]).1 == runtime_field_value(s, i)
}

/// Projects one scheduler snapshot into the full list of named gauge
/// readings, in the enumeration order of `runtime_field_name`.
pub fn project_runtime(name: &str, s: &RuntimeSnapshot) -> (entries: Vec<(String, GaugeValue)>)
    ensures
        runtime_entries_ok(name@, *s, entries@),
{
    let mut entries: Vec<(String, GaugeValue)> = Vec::new();
    entries.push((prefixed(name, "total_polls_count"), GaugeValue::Count(s.total_polls_count)));
    entries.push((prefixed(name, "total_steal_count"), GaugeValue::Count(s.total_steal_count)));
    entries.push((prefixed(name, "total_park_count"), GaugeValue::Count(s.total_park_count)));
    entries.push(
        (prefixed(name, "num_remote_schedules"), GaugeValue::Count(s.num_remote_schedules)),
    );
    entries.push(
        (
            prefixed(name, "total_local_schedule_count"),
            GaugeValue::Count(s.total_local_schedule_count),
        ),
    );
    entries.push(
        (prefixed(name, "total_overflow_count"), GaugeValue::Count(s.total_overflow_count)),
    );
    entries.push((prefixed(name, "total_noop_count"), GaugeValue::Count(s.total_noop_count)));
    entries.push(
        (
            prefixed(name, "total_busy_duration"),
            GaugeValue::Millis(s.total_busy_duration.as_millis()),
        ),
    );
    entries.push((prefixed(name, "busy_ratio"), GaugeValue::RatioBits(s.busy_ratio_bits)));
    assert forall|i: int| 0 <= i < RUNTIME_FIELDS implies (#[trigger] entries@[i]).0@
        == runtime_entry_key(name@, i) && entries@[i].1 == runtime_field_value(*s, i) by {
        assert(entries@[0].0@ == runtime_entry_key(name@, 0));
        assert(entries@[1].0@ == runtime_entry_key(name@, 1));
        assert(entries@[2].0@ == runtime_entry_key(name@, 2));
        assert(entries@[3].0@ == runtime_entry_key(name@, 3));
        assert(entries@[4].0@ == runtime_entry_key(name@, 4));
        assert(entries@[5].0@ == runtime_entry_key(name@, 5));
        assert(entries@[6].0@ == runtime_entry_key(name@, 6));
        assert(entries@[7].0@ == runtime_entry_key(name@, 7));
        assert(entries@[8].0@ == runtime_entry_key(name@, 8));
    }
    entries
}

/// The nine field names are pairwise distinct.
pub proof fn lemma_runtime_field_names_distinct(i: int, j: int)
    requires
        0 <= i < RUNTIME_FIELDS,
        0 <= j < RUNTIME_FIELDS,
        i != j,
    ensures
        runtime_field_name(i) != runtime_field_name(j),
{
    reveal_strlit("total_polls_count");
    reveal_strlit("total_steal_count");
    reveal_strlit("total_park_count");
    reveal_strlit("num_remote_schedules");
    reveal_strlit("total_local_schedule_count");
    reveal_strlit("total_overflow_count");
    reveal_strlit("total_noop_count");
    reveal_strlit("total_busy_duration");
    reveal_strlit("busy_ratio");
    assert(runtime_field_name(0).len() == 17);
    assert(runtime_field_name(1).len() == 17);
    assert(runtime_field_name(2).len() == 16);
    assert(runtime_field_name(3).len() == 20);
    assert(runtime_field_name(4).len() == 26);
    assert(runtime_field_name(5).len() == 20);
    assert(runtime_field_name(6).len() == 16);
    assert(runtime_field_name(7).len() == 19);
    assert(runtime_field_name(8).len() == 10);
    // names of equal length differ in an early character
    assert(runtime_field_name(0)[6] == 'p' && runtime_field_name(1)[6] == 's');
    assert(runtime_field_name(2)[6] == 'p' && runtime_field_name(6)[6] == 'n');
    assert(runtime_field_name(3)[0] == 'n' && runtime_field_name(5)[0] == 't');
}

/// Law of field completeness: a scheduler projection holds exactly one entry
/// per enumerated field, each key the prefix joined to that field's name with
/// a dot, and its keys are pairwise distinct, so the entries form a mapping
/// with exactly as many keys as fields.
pub proof fn lemma_runtime_projection_complete(
    prefix: Seq<char>,
    s: RuntimeSnapshot,
    entries: Seq<(String, GaugeValue)>,
)
    requires
        runtime_entries_ok(prefix, s, entries),
    ensures
        entries.len() == RUNTIME_FIELDS,
        forall|i: int|
            0 <= i < RUNTIME_FIELDS ==> (#[trigger] entries[i]).0@ == prefix + "."@
                + runtime_field_name(i),
        forall|i: int, j: int|
            0 <= i < RUNTIME_FIELDS && 0 <= j < RUNTIME_FIELDS && i != j ==> (
            #[trigger] entries[i]).0@ != (#[trigger] entries[j]).0@,
{
    assert forall|i: int, j: int|
        0 <= i < RUNTIME_FIELDS && 0 <= j < RUNTIME_FIELDS && i != j implies (
    #[trigger] entries[i]).0@ != (#[trigger] entries[j]).0@ by {
        lemma_runtime_field_names_distinct(i, j);
        if entries[i].0@ == entries[j].0@ {
            lemma_prefix_cancel(prefix + "."@, runtime_field_name(i), runtime_field_name(j));
        }
    }
}

/// Law of separation: two snapshots whose projections agree on every field
/// have equal counters, busy spans that truncate to the same millisecond, and
/// the same ratio bits; and conversely.
pub proof fn lemma_runtime_values_eq_iff(s1: RuntimeSnapshot, s2: RuntimeSnapshot)
    ensures
        (forall|i: int|
            0 <= i < RUNTIME_FIELDS ==> #[trigger] runtime_field_value(s1, i)
                == runtime_field_value(s2, i)) <==> (s1.total_polls_count == s2.total_polls_count
            && s1.total_steal_count == s2.total_steal_count && s1.total_park_count
            == s2.total_park_count && s1.num_remote_schedules == s2.num_remote_schedules
            && s1.total_local_schedule_count == s2.total_local_schedule_count
            && s1.total_overflow_count == s2.total_overflow_count && s1.total_noop_count
            == s2.total_noop_count && s1.total_busy_duration.spec_millis()
            == s2.total_busy_duration.spec_millis() && s1.busy_ratio_bits == s2.busy_ratio_bits),
{
    if forall|i: int|
        0 <= i < RUNTIME_FIELDS ==> #[trigger] runtime_field_value(s1, i) == runtime_field_value(
            s2,
            i,
        ) {
        assert(runtime_field_value(s1, 0) == runtime_field_value(s2, 0));
        assert(runtime_field_value(s1, 1) == runtime_field_value(s2, 1));
        assert(runtime_field_value(s1, 2) == runtime_field_value(s2, 2));
        assert(runtime_field_value(s1, 3) == runtime_field_value(s2, 3));
        assert(runtime_field_value(s1, 4) == runtime_field_value(s2, 4));
        assert(runtime_field_value(s1, 5) == runtime_field_value(s2, 5));
        assert(runtime_field_value(s1, 6) == runtime_field_value(s2, 6));
        assert(runtime_field_value(s1, 7) == runtime_field_value(s2, 7));
        assert(runtime_field_value(s1, 8) == runtime_field_value(s2, 8));
    }
}

/// Law against silent repetition: projections of two snapshots that differ in
/// some projected field are different entry lists, whatever the shared
/// prefix.
pub proof fn lemma_distinct_runtime_snapshots_distinct_entries(
    prefix: Seq<char>,
    s1: RuntimeSnapshot,
    s2: RuntimeSnapshot,
    e1: Seq<(String, GaugeValue)>,
    e2: Seq<(String, GaugeValue)>,
    k: int,
)
    requires
        runtime_entries_ok(prefix, s1, e1),
        runtime_entries_ok(prefix, s2, e2),
        0 <= k < RUNTIME_FIELDS,
        runtime_field_value(s1, k) != runtime_field_value(s2, k),
    ensures
        e1 != e2,
{
    assert(e1[k].1 == runtime_field_value(s1, k));
    assert(e2[k].1 == runtime_field_value(s2, k));
    if e1 == e2 {
        assert(e1[k] == e2[k]);
    }
}

#[verifier::external_type_specification]
#[verifier::external_body]
pub struct ExRuntimeMetrics(RuntimeMetrics);

#[verifier::external_type_specification]
#[verifier::external_body]
pub struct ExRuntimeMonitor(RuntimeMonitor);

/// Reads one aggregate record into the plain snapshot model. Relies on the
/// stable surface of tokio_metrics::RuntimeMetrics: its total_park_count and
/// total_busy_duration fields and its busy_ratio accessor. The remaining
/// counters need the runtime's unstable instrumentation, which this build of
/// the source crate does not collect, so they read as zero.
#[verifier::external_body]
pub fn runtime_snapshot_of(m: &RuntimeMetrics) -> (s: RuntimeSnapshot)
    ensures
        s.wf(),
{
    RuntimeSnapshot {
        total_polls_count: 0,
        total_steal_count: 0,
        total_park_count: m.total_park_count,
        num_remote_schedules: 0,
        total_local_schedule_count: 0,
        total_overflow_count: 0,
        total_noop_count: 0,
        total_busy_duration: dur_of(&m.total_busy_duration),
        busy_ratio_bits: m.busy_ratio().to_bits(),
    }
}

/// Serialized access to a stream of scheduler snapshots; see
/// `TaskIntervalCursor` for why the struct is opaque. Every snapshot it
/// yields is well-formed, because both constructors only admit well-formed
/// ones.
#[verifier::external_body]
pub struct RuntimeIntervalCursor {
    source: Arc<Mutex<Box<dyn Iterator<Item = RuntimeSnapshot> + Send>>>,
}

impl RuntimeIntervalCursor {
    /// Relies on tokio_metrics::RuntimeMonitor::intervals: a fresh, unending
    /// stream with one aggregate record per elapsed interval, read into the
    /// snapshot model by `runtime_snapshot_of`.
    #[verifier::external_body]
    pub fn from_monitor(monitor: &RuntimeMonitor) -> (c: RuntimeIntervalCursor) {
        let stream = monitor.intervals().map(|m| runtime_snapshot_of(&m));
        RuntimeIntervalCursor { source: Arc::new(Mutex::new(Box::new(stream))) }
    }

    /// A cursor replaying the given snapshots in order, then ending. Relies on
    /// Vec::into_iter yielding the elements in order.
    #[verifier::external_body]
    pub fn from_snapshots(items: Vec<RuntimeSnapshot>) -> (c: RuntimeIntervalCursor)
        requires
            forall|i: int| 0 <= i < items@.len() ==> (#[trigger] items@[i]).wf(),
    {
        RuntimeIntervalCursor { source: Arc::new(Mutex::new(Box::new(items.into_iter()))) }
    }

    /// Advances the stream by one snapshot. Relies on std::sync::Mutex::lock
    /// to serialize concurrent callers, blocking until the lock is free, and
    /// on Iterator::next for the element; a poisoned lock and an ended stream
    /// each surface as the matching fault.
    #[verifier::external_body]
    pub fn advance(&self) -> (r: Result<RuntimeSnapshot, CollectError>)
        ensures
            r matches Ok(s) ==> s.wf(),
    {
        match self.source.lock() {
            Err(_) => Err(CollectError::LockPoisoned),
            Ok(mut stream) => match stream.next() {
                None => Err(CollectError::SourceExhausted),
                Some(s) => Ok(s),
            },
        }
    }
}

/// The scheduler-domain metrics set: a fixed name, used as the dot-joined
/// prefix of every key it emits, and the cursor it advances once per
/// collection.
pub struct TokioRuntimeMetricsSet {
    name: String,
    monitor: RuntimeIntervalCursor,
}

impl TokioRuntimeMetricsSet {
    /// The adapter's registered name.
    pub closed spec fn spec_name(&self) -> Seq<char> {
        self.name@
    }

    pub fn name(&self) -> (n: &String)
        ensures
            n@ == self.spec_name(),
    {
        &self.name
    }

    /// One collection cycle: advances the cursor by exactly one interval and
    /// returns the complete projection of the snapshot so obtained; on a
    /// cursor fault, returns it and projects nothing.
    pub fn get_all(&self) -> (r: Result<Vec<(String, GaugeValue)>, CollectError>)
        ensures
            r matches Ok(entries) ==> exists|s: RuntimeSnapshot|
                s.wf() && runtime_entries_ok(self.spec_name(), s, entries@),
    {
        match self.monitor.advance() {
            Ok(s) => {
                let entries = project_runtime(self.name.as_str(), &s);
                proof {
                    assert(runtime_entries_ok(self.spec_name(), s, entries@));
                }
                Ok(entries)
            },
            Err(e) => Err(e),
        }
    }
}

/// Accumulates the two required fields of a scheduler-domain adapter; `build`
/// refuses to assemble one while either is missing.
pub struct TokioRuntimeMetricsSetBuilder {
    pub name: Option<String>,
    pub monitor: Option<RuntimeIntervalCursor>,
}

impl TokioRuntimeMetricsSetBuilder {
    /// A builder with nothing supplied yet.
    pub fn new() -> (b: Self)
        ensures
            b.name is None,
            b.monitor is None,
    {
        TokioRuntimeMetricsSetBuilder { name: None, monitor: None }
    }

    /// Supplies the adapter name.
    pub fn name(&mut self, name: &str)
        ensures
            final(self).name matches Some(n) && n@ == name@,
            final(self).monitor == old(self).monitor,
    {
        self.name = Some(name.to_owned());
    }

    /// Supplies the monitor, wrapping its interval stream into a fresh
    /// lock-guarded cursor.
    pub fn monitor(&mut self, monitor: &RuntimeMonitor)
        ensures
            final(self).monitor is Some,
            final(self).name == old(self).name,
    {
        self.monitor = Some(RuntimeIntervalCursor::from_monitor(monitor));
    }

    /// Supplies an already-made cursor, such as one replaying known snapshots.
    pub fn cursor(&mut self, cursor: RuntimeIntervalCursor)
        ensures
            final(self).monitor is Some,
            final(self).name == old(self).name,
    {
        self.monitor = Some(cursor);
    }

    /// Validates and assembles the adapter: succeeds exactly when both fields
    /// were supplied, keeps the supplied name, and otherwise names the first
    /// missing field.
    pub fn build(self) -> (r: Result<TokioRuntimeMetricsSet, BuildError>)
        ensures
            r is Ok <==> self.name is Some && self.monitor is Some,
            r matches Ok(a) ==> self.name matches Some(n) && a.spec_name() == n@,
            r matches Err(e) ==> e matches BuildError::MissingField(f) && f@ == (
            if self.name is None {
                "name"@
            } else {
                "monitor"@
            }),
    {
        match (self.name, self.monitor) {
            (Some(name), Some(monitor)) => Ok(TokioRuntimeMetricsSet { name, monitor }),
            (None, _) => Err(BuildError::MissingField("name".to_owned())),
            (Some(_), None) => Err(BuildError::MissingField("monitor".to_owned())),
        }
    }
}

} // verus!
