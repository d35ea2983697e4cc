//! The value of a single named observation.

use vstd::prelude::*;

verus! {

/// One gauge reading: a plain count, a span in whole milliseconds, or a
/// dimensionless ratio carried as the raw bits of its 64-bit binary
/// floating-point representation, passed through unchanged.
#[derive(Clone, Copy, Debug, PartialEq, Eq, Structural)]
pub enum GaugeValue {
    Count(u64),
    Millis(u128),
    RatioBits(u64),
}

} // verus!
