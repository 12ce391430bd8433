//! The pipe: a bounded channel of byte chunks with an endpoint at each end.

use crate::channel::bound_accepted;
use crate::channel::open_channel;
use crate::input_pipe::InputModel;
use crate::input_pipe::InputPipe;
use crate::output_pipe::Hold;
use crate::output_pipe::OutputModel;
use crate::output_pipe::OutputPipe;
use crate::state::StreamState;
use vstd::prelude::*;

verus! {

/// Creates a pipe whose channel holds at most `bound` chunks in flight, and
/// returns its two ends: the consumer, open with nothing pending, and the
/// producer, holding the plain handle with nothing pending.
pub fn pipe(bound: usize) -> (ends: (InputPipe, OutputPipe))
    requires
        bound_accepted(bound),
    ensures
        ends.0@ == (InputModel { state: StreamState::Open, pending: Seq::<u8>::empty() }),
        ends.1@ == (OutputModel { pending: Seq::<u8>::empty(), hold: Hold::Plain }),
{
    let (writer, reader) = open_channel(bound);
    (InputPipe::new(reader), OutputPipe::new(writer))
}

} // verus!
