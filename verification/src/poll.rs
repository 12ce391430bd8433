//! The outcome of a single poll.
//!
//! A transfer must not suspend, yet an adapter's transport is asynchronous.
//! The caller therefore drives the transport's operation one step with a
//! waker that discards its wake-up, and hands the endpoint what the step came
//! to. A step that would have to wait is no error: it is no progress on this
//! attempt.

use vstd::prelude::*;

verus! {

/// What one poll of an asynchronous read or write came to.
#[derive(Debug)]
pub enum Polled<E> {
    /// The operation has to wait: nothing was transferred.
    Pending,
    /// The operation completed and transferred this many bytes.
    Done(usize),
    /// The operation completed with the transport's error.
    Failed(E),
}

} // verus!
