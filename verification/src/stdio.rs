//! What the blocking standard streams report, and the stream that is never
//! ready.

use crate::state::StreamError;
use crate::state::StreamState;
use vstd::prelude::*;

verus! {

/// How one blocking read of a descriptor ended.
#[derive(Debug)]
pub enum ReadOutcome<E> {
    /// The read returned this many bytes.
    Count(usize),
    /// The read was interrupted before it transferred anything.
    Interrupted,
    /// The read failed with the descriptor's error.
    Failed(E),
}

/// What a blocking read reports to the stream's caller: no bytes at all is
/// the end of the stream, an interruption is no progress and no error, and
/// an error is passed on as it is.
pub open spec fn read_report<E>(outcome: ReadOutcome<E>) -> Result<(u64, StreamState), E> {
    match outcome {
        ReadOutcome::Count(count) => Ok(
            (
                count as u64,
                if count == 0 {
                    StreamState::Closed
                } else {
                    StreamState::Open
                },
            ),
        ),
        ReadOutcome::Interrupted => Ok((0, StreamState::Open)),
        ReadOutcome::Failed(error) => Err(error),
    }
}

/// Computes `read_report`.
pub fn report_read<E>(outcome: ReadOutcome<E>) -> (res: Result<(u64, StreamState), E>)
    ensures
        res == read_report(outcome),
{
    match outcome {
        ReadOutcome::Count(count) => {
            if count == 0 {
                Ok((0, StreamState::Closed))
            } else {
                Ok((count as u64, StreamState::Open))
            }
        },
        ReadOutcome::Interrupted => Ok((0, StreamState::Open)),
        ReadOutcome::Failed(error) => Err(error),
    }
}

/// What a skip of `wanted` bytes reports when `skipped` bytes could be
/// dropped: the stream has ended exactly when it fell short.
pub fn report_skip(skipped: u64, wanted: u64) -> (res: (u64, StreamState))
    ensures
        res.0 == skipped,
        res.1 == if skipped < wanted {
            StreamState::Closed
        } else {
            StreamState::Open
        },
{
    (
        skipped,
        if skipped < wanted {
            StreamState::Closed
        } else {
            StreamState::Open
        },
    )
}

/// A stream with nothing behind it: reading finds no bytes and never the
/// end, writing accepts everything and keeps nothing.
#[derive(Clone, Copy, Debug)]
pub struct EmptyStream;

impl EmptyStream {
    /// Delivers nothing, leaves `buf` as it is and reports the stream open.
    pub fn read(&mut self, buf: &mut [u8]) -> (res: Result<(u64, StreamState), StreamError>)
        ensures
            res == Ok::<(u64, StreamState), StreamError>((0, StreamState::Open)),
            final(buf)@ == old(buf)@,
    {
        Ok((0, StreamState::Open))
    }

    /// Reports all of `buf` as accepted.
    pub fn write(&mut self, buf: &[u8]) -> (res: Result<u64, StreamError>)
        ensures
            res == Ok::<u64, StreamError>(buf@.len() as u64),
    {
        Ok(buf.len() as u64)
    }
}

} // verus!
