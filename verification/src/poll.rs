//! Results of non-blocking operations.

use vstd::prelude::*;

verus! {

/// Why an operation gave up for good.
#[derive(Debug, Clone, Copy, PartialEq, Eq)]
pub enum ErrorKind {
    /// The input has ended: no byte will ever follow.
    BrokenPipe,
    /// The device behind the bridge, or the hand-off to its thread, failed.
    Other,
}

/// Outcome of one non-blocking attempt.
#[derive(Debug, PartialEq, Eq)]
pub enum PollResult<T> {
    /// The attempt made progress.
    Ready(T),
    /// No progress is possible yet; the caller is woken when that changes.
    Pending,
    /// The bridge has failed and stays failed.
    Error(ErrorKind),
}

} // verus!
