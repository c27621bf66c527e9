//! The typed failures of a lookup.

use vstd::prelude::*;

verus! {

/// Why a lookup did not yield a value.
///
/// The first three are raised by the upstream fetcher and reach the caller
/// that owned the fetch unchanged. `Wait` is raised by the cache alone.
#[derive(Clone, Copy, Debug, PartialEq, Eq, Structural)]
pub enum FetchError {
    /// The upstream could not be reached.
    Transport,
    /// The upstream answered with a non-success status, or its answer was not
    /// a well-formed envelope.
    Protocol,
    /// The answer held a result that is not a hexadecimal quantity.
    Decode,
    /// The fetch that this caller was waiting on failed. It carries no cause:
    /// a waiter never sees the owner's error.
    Wait,
}

} // verus!
