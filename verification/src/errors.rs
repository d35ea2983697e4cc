//! The error taxonomy: build-time validation faults and collection faults.

use vstd::prelude::*;

verus! {

/// Why a build was refused: a required field was never supplied. Recoverable;
/// the caller may supply the field and try again.
#[derive(Debug, PartialEq, Eq)]
pub enum BuildError {
    MissingField(String),
}

/// Why a collection cycle failed. Both faults are fatal for the adapter: the
/// stream is specified as unending, and a poisoned lock leaves the cursor's
/// state untrusted.
#[derive(Debug, Clone, Copy, PartialEq, Eq, Structural)]
pub enum CollectError {
    /// The snapshot stream unexpectedly yielded no further element.
    SourceExhausted,
    /// The cursor's lock was poisoned by a failure elsewhere.
    LockPoisoned,
}

} // verus!
