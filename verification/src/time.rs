//! A plain model of a span of time, precise enough to state the
//! millisecond-truncation policy that the projectors follow.

use vstd::prelude::*;

verus! {

/// A span of time: whole seconds plus a sub-second remainder in nanoseconds.
#[derive(Clone, Copy, Debug, PartialEq, Eq, Structural)]
pub struct Dur {
    pub secs: u64,
    pub nanos: u32,
}

impl Dur {
    /// A well-formed span keeps the remainder below one second.
    pub open spec fn wf(self) -> bool {
        self.nanos < 1_000_000_000
    }

    /// The whole number of milliseconds this span covers; the sub-millisecond
    /// part is dropped, never rounded up.
    pub open spec fn spec_millis(self) -> int {
        self.secs * 1000 + self.nanos / 1_000_000
    }

    pub fn as_millis(&self) -> (r: u128)
        ensures
            r == self.spec_millis(),
    {
        (self.secs as u128) * 1000 + ((self.nanos / 1_000_000) as u128)
    }
}

/// Relies on core::time::Duration::as_secs: the whole seconds of the duration.
pub assume_specification[ core::time::Duration::as_secs ](d: &core::time::Duration) -> u64;

/// Relies on core::time::Duration::subsec_nanos: the fractional part in
/// nanoseconds, documented to be less than one billion.
pub assume_specification[ core::time::Duration::subsec_nanos ](
    d: &core::time::Duration,
) -> (r: u32)
    ensures
        r < 1_000_000_000,
;

/// Reads a std duration into the plain model.
pub fn dur_of(d: &core::time::Duration) -> (r: Dur)
    ensures
        r.wf(),
{
    Dur { secs: d.as_secs(), nanos: d.subsec_nanos() }
}

} // verus!
