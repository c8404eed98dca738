//! A bridge between blocking byte streams and poll-based, non-blocking
//! readers and writers.
//!
//! A background thread owns the blocking handle and does the real reads or
//! writes. The types of this crate are the two ends of what lies between that
//! thread and a task that must not block. The polling end reports
//! [`PollResult::Pending`] when nothing can be done yet and is woken when it
//! is worth trying again; the thread's end blocks where it has to wait. Both
//! keep every byte in order, once.
//!
//! * [`stdin`]: the read bridge. Chunks come over a bounded channel; what a
//!   caller's buffer cannot take is owed and goes first at the next poll.
//! * [`stdout`]: the write bridge. One [`request::WriteRequest`] travels
//!   through a [`rendezvous::Rendezvous`] between the bridge and the writer
//!   thread.
//! * [`protocol`]: what the two ends of each bridge achieve together.
//! * [`channel`] and [`sync`]: what is assumed of the `futures` crate and of
//!   the standard library.
//!
//! Threads and devices are not in this crate: it decides, and leaves reading,
//! writing, spawning and joining to its user.

use vstd::prelude::*;

pub mod buffer;
pub mod channel;
pub mod poll;
pub mod protocol;
pub mod rendezvous;
pub mod request;
pub mod stdin;
pub mod stdout;
pub mod sync;

pub use crate::poll::ErrorKind;
pub use crate::poll::PollResult;

verus! {

/// Size of the scratch buffer of a reader thread, and so the longest chunk.
pub const BUFSIZ: usize = 8192;

} // verus!
