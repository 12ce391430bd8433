//! The lifecycle marker and the terminal error shared by all stream endpoints.

use vstd::prelude::*;

verus! {

/// Whether a stream may still yield or accept bytes.
///
/// The marker is monotonic: an endpoint that has reported `Closed` never
/// reports `Open` again.
#[derive(Clone, Copy, Debug, PartialEq, Eq, Structural)]
pub enum StreamState {
    Open,
    Closed,
}

impl StreamState {
    /// True exactly for `Closed`.
    pub open spec fn closed(&self) -> bool {
        *self == StreamState::Closed
    }

    /// `later` is a state that may follow `self`: everything may follow
    /// `Open`, only `Closed` may follow `Closed`.
    pub open spec fn may_become(self, later: StreamState) -> bool {
        self.closed() ==> later.closed()
    }

    #[verifier::when_used_as_spec(closed)]
    pub fn is_closed(&self) -> (r: bool)
        ensures
            r == self.closed(),
    {
        match self {
            StreamState::Open => false,
            StreamState::Closed => true,
        }
    }
}

/// The terminal failure of an output endpoint.
#[derive(Clone, Copy, Debug, PartialEq, Eq, Structural)]
pub enum StreamError {
    /// The consuming side of the pipe is gone; nothing can be written again.
    PipeClosed,
}

impl StreamError {
    /// The failure in words.
    pub fn message(&self) -> (text: &'static str)
        ensures
            text@ == "pipe closed"@,
    {
        match self {
            StreamError::PipeClosed => "pipe closed",
        }
    }
}

} // verus!
