//! The consuming end of a pipe.

use crate::bytes::copy_into;
use crate::bytes::filled;
use crate::bytes::min_len;
use crate::channel::try_receive;
use crate::channel::Arrival;
use crate::channel::TryReceived;
use crate::state::StreamError;
use crate::state::StreamState;
use vstd::prelude::*;

verus! {

/// The mathematical value of a consuming endpoint: its lifecycle marker and
/// the bytes it has taken from the transport and not yet delivered.
pub struct InputModel {
    pub state: StreamState,
    pub pending: Seq<u8>,
}

/// One transfer step of a consuming endpoint.
pub struct InputStep {
    /// The endpoint after the step.
    pub post: InputModel,
    /// The bytes that the step wrote to the front of the destination.
    pub delivered: Seq<u8>,
}

/// The bytes that a receive attempt contributes to the stream.
pub open spec fn arrived_bytes(arrival: Arrival) -> Seq<u8> {
    match arrival {
        Arrival::Chunk(bytes) => bytes,
        _ => Seq::<u8>::empty(),
    }
}

/// A transfer into a destination of `room` bytes, given what the receive
/// attempt found. The pending bytes followed by the arrived chunk form the
/// available stream; as much of its front as fits is delivered and the rest
/// stays pending. A disconnect closes the endpoint.
pub open spec fn input_transfer(pre: InputModel, room: nat, arrival: Arrival) -> InputStep {
    let available = pre.pending + arrived_bytes(arrival);
    let count = min_len(available.len() as int, room as int);
    InputStep {
        post: InputModel {
            state: if arrival is Disconnected {
                StreamState::Closed
            } else {
                pre.state
            },
            pending: available.skip(count),
        },
        delivered: available.take(count),
    }
}

/// What a transfer that was answered by `arrival` leaves behind: the
/// endpoint and the destination after it, and what it reports, which is the
/// number of delivered bytes with the state after the step.
pub open spec fn input_transferred(
    pre: InputModel,
    before: Seq<u8>,
    arrival: Arrival,
    post: InputModel,
    after: Seq<u8>,
    res: Result<(u64, StreamState), StreamError>,
) -> bool {
    let step = input_transfer(pre, before.len(), arrival);
    &&& post == step.post
    &&& after == filled(before, step.delivered)
    &&& res == Ok::<(u64, StreamState), StreamError>(
        (step.delivered.len() as u64, step.post.state),
    )
}

/// The endpoint after a suspending receive has resolved: with a chunk, which
/// joins the pending bytes, or with `None`, the producer being gone.
pub open spec fn input_ready(pre: InputModel, received: Option<Seq<u8>>) -> InputModel {
    match received {
        Some(bytes) => InputModel { state: pre.state, pending: pre.pending + bytes },
        None => InputModel { state: StreamState::Closed, pending: pre.pending },
    }
}

/// The consuming end of a pipe.
pub struct InputPipe {
    state: StreamState,
    buffer: Vec<u8>,
    channel: tokio::sync::mpsc::Receiver<Vec<u8>>,
}

impl View for InputPipe {
    type V = InputModel;

    closed spec fn view(&self) -> InputModel {
        InputModel { state: self.state, pending: self.buffer@ }
    }
}

impl InputPipe {
    /// An open endpoint with nothing pending, reading from `channel`.
    pub fn new(channel: tokio::sync::mpsc::Receiver<Vec<u8>>) -> (pipe: Self)
        ensures
            pipe@ == (InputModel { state: StreamState::Open, pending: Seq::<u8>::empty() }),
            pipe.receiving_half() == channel,
    {
        InputPipe { state: StreamState::Open, buffer: Vec::new(), channel }
    }

    /// The lifecycle marker as last observed.
    pub fn state(&self) -> (state: StreamState)
        ensures
            state == self@.state,
    {
        self.state
    }

    /// The number of pending bytes.
    pub fn pending_len(&self) -> (len: usize)
        ensures
            len == self@.pending.len(),
    {
        self.buffer.len()
    }

    /// Transfers into `dest` given the outcome of a receive attempt: the
    /// pending bytes go first, then the arrived chunk; what does not fit
    /// stays pending. Never fails.
    pub fn read_with(&mut self, dest: &mut [u8], arrival: TryReceived) -> (res: Result<
        (u64, StreamState),
        StreamError,
    >)
        ensures
            input_transferred(old(self)@, old(dest)@, arrival@, final(self)@, final(dest)@, res),
            final(self).receiving_half() == old(self).receiving_half(),
    {
        let ghost pre = self@;
        let ghost room = dest@.len();
        let ghost before = dest@;
        let dest_len = dest.len();
        let buffered = if self.buffer.len() < dest_len {
            self.buffer.len()
        } else {
            dest_len
        };
        copy_into(dest, 0, self.buffer.as_slice(), 0, buffered);
        // Keep the remaining contents pending.
        self.buffer = self.buffer.split_off(buffered);
        match arrival {
            TryReceived::Chunk(chunk) => {
                let room_left = dest_len - buffered;
                if chunk.len() < room_left {
                    copy_into(dest, buffered, chunk.as_slice(), 0, chunk.len());
                    let count = buffered + chunk.len();
                    proof {
                        let step = input_transfer(pre, room, arrival@);
                        assert(self@.pending =~= step.post.pending);
                        assert(dest@ =~= step.delivered + before.skip(step.delivered.len() as int));
                    }
                    Ok((count as u64, self.state))
                } else {
                    copy_into(dest, buffered, chunk.as_slice(), 0, room_left);
                    let rest = vstd::slice::slice_subrange(chunk.as_slice(), room_left, chunk.len());
                    self.buffer.extend_from_slice(rest);
                    proof {
                        let step = input_transfer(pre, room, arrival@);
                        assert(self@.pending =~= step.post.pending);
                        assert(dest@ =~= step.delivered + before.skip(step.delivered.len() as int));
                    }
                    Ok((dest_len as u64, self.state))
                }
            },
            TryReceived::Empty => {
                Ok((buffered as u64, self.state))
            },
            TryReceived::Disconnected => {
                self.state = StreamState::Closed;
                Ok((buffered as u64, self.state))
            },
        }
    }

    /// The non-suspending transfer: delivers the pending bytes, and where
    /// `dest` still has room makes one receive attempt on the channel and
    /// delivers what it found. When the pending bytes fill `dest`, no attempt
    /// is made.
    pub fn read(&mut self, dest: &mut [u8]) -> (res: Result<(u64, StreamState), StreamError>)
        ensures
            exists|arrival: Arrival|
                {
                    &&& old(self)@.pending.len() >= old(dest)@.len() ==> arrival is Empty
                    &&& #[trigger] input_transferred(
                        old(self)@,
                        old(dest)@,
                        arrival,
                        final(self)@,
                        final(dest)@,
                        res,
                    )
                },
    {
        let arrival = if self.buffer.len() < dest.len() {
            try_receive(&mut self.channel)
        } else {
            TryReceived::Empty
        };
        let ghost found = arrival@;
        let res = self.read_with(dest, arrival);
        assert(input_transferred(old(self)@, old(dest)@, found, self@, dest@, res));
        res
    }

    /// The channel's receiving half, for the caller that suspends on it: a
    /// borrow of the half that the endpoint holds, so that whatever the
    /// caller leaves it as is what the endpoint holds afterwards. The
    /// endpoint's state and pending bytes stay as they are.
    pub fn receiver(&mut self) -> (receiver: &mut tokio::sync::mpsc::Receiver<Vec<u8>>)
        ensures
            *receiver == old(self).receiving_half(),
            final(self).receiving_half() == *final(receiver),
            final(self)@ == old(self)@,
    {
        &mut self.channel
    }

    /// The channel's receiving half that the endpoint reads from.
    pub closed spec fn receiving_half(&self) -> tokio::sync::mpsc::Receiver<Vec<u8>> {
        self.channel
    }

    /// Takes in what a suspending receive resolved with: a chunk joins the
    /// pending bytes, `None` closes the endpoint. Never fails.
    pub fn accept(&mut self, received: Option<Vec<u8>>) -> (res: Result<(), StreamError>)
        ensures
            res is Ok,
            final(self).receiving_half() == old(self).receiving_half(),
            final(self)@ == input_ready(
                old(self)@,
                match received {
                    Some(bytes) => Some(bytes@),
                    None => None,
                },
            ),
    {
        match received {
            None => {
                self.state = StreamState::Closed;
            },
            Some(mut bytes) => {
                self.buffer.append(&mut bytes);
            },
        }
        Ok(())
    }
}

/// A transfer delivers the front of the available stream and keeps the
/// rest: delivered and pending bytes together are the old pending bytes
/// followed by what arrived, and the destination is filled as far as the
/// stream reaches.
pub proof fn lemma_transfer_keeps_stream(pre: InputModel, room: nat, arrival: Arrival)
    ensures
        input_transfer(pre, room, arrival).delivered + input_transfer(
            pre,
            room,
            arrival,
        ).post.pending == pre.pending + arrived_bytes(arrival),
        input_transfer(pre, room, arrival).delivered.len() == min_len(
            (pre.pending + arrived_bytes(arrival)).len() as int,
            room as int,
        ),
{
}

/// A transfer that finds the channel empty does not wait: it delivers what
/// was pending, as far as it fits, and nothing else changes. With nothing
/// pending it reports no progress and the stream still open.
pub proof fn lemma_empty_channel_delivers_pending(pre: InputModel, room: nat)
    ensures
        input_transfer(pre, room, Arrival::Empty).post.state == pre.state,
        input_transfer(pre, room, Arrival::Empty).delivered == pre.pending.take(
            min_len(pre.pending.len() as int, room as int),
        ),
        pre.pending.len() == 0 ==> input_transfer(pre, room, Arrival::Empty).delivered.len() == 0
            && input_transfer(pre, room, Arrival::Empty).post == pre,
{
    if pre.pending.len() == 0 {
        assert(input_transfer(pre, room, Arrival::Empty).post.pending =~= pre.pending);
    }
}

/// The lifecycle marker never goes back: after a transfer, and after a
/// resolved wait, a closed endpoint is still closed.
pub proof fn lemma_closed_stays_closed(
    pre: InputModel,
    room: nat,
    arrival: Arrival,
    received: Option<Seq<u8>>,
)
    ensures
        pre.state.may_become(input_transfer(pre, room, arrival).post.state),
        pre.state.may_become(input_ready(pre, received).state),
{
}

/// An endpoint closes only on word that the producer is gone: after a
/// transfer it is closed exactly if it was closed before or the receive
/// attempt found the channel disconnected, and after a resolved wait exactly
/// if it was closed before or the wait resolved with nothing. A transfer
/// that learns of the disconnect had room left, so it has delivered every
/// pending byte by then.
pub proof fn lemma_closes_only_on_disconnect(
    pre: InputModel,
    room: nat,
    arrival: Arrival,
    received: Option<Seq<u8>>,
)
    ensures
        input_transfer(pre, room, arrival).post.state.closed() <==> pre.state.closed()
            || arrival is Disconnected,
        input_ready(pre, received).state.closed() <==> pre.state.closed() || received is None,
        arrival is Disconnected && pre.pending.len() < room ==> input_transfer(
            pre,
            room,
            arrival,
        ).delivered == pre.pending && input_transfer(pre, room, arrival).post.pending.len() == 0,
{
    if arrival is Disconnected && pre.pending.len() < room {
        assert(input_transfer(pre, room, arrival).delivered =~= pre.pending);
    }
}

} // verus!
