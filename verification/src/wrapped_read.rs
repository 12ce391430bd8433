//! The adapter that turns an asynchronous byte source into an input stream.

use crate::bytes::copy_into;
use crate::bytes::filled;
use crate::bytes::min_len;
use crate::input_pipe::InputModel;
use crate::poll::Polled;
use crate::state::StreamState;
use vstd::prelude::*;

verus! {

/// The size of the scratch region that one suspending read of the source may
/// fill.
pub const READ_CHUNK: usize = 1024;

/// What the buffered part of a transfer leaves to be done.
#[derive(Clone, Copy, Debug, PartialEq, Eq, Structural)]
pub enum ReadProgress {
    /// The transfer is complete: so many bytes were delivered, and this is
    /// the state to report.
    Done(u64, StreamState),
    /// So many bytes were delivered and the destination has room left: the
    /// source is to be polled once, reading into the destination from that
    /// offset on.
    Poll(usize),
}

/// The buffered part of a transfer of an adapted source.
pub struct SourceStep {
    /// The endpoint after the step.
    pub post: InputModel,
    /// The bytes that the step wrote to the front of the destination.
    pub delivered: Seq<u8>,
    /// What is left to be done.
    pub progress: ReadProgress,
}

/// The buffered part of a transfer into a destination of `room` bytes. The
/// front of the pending bytes is delivered. The source is polled only where
/// nothing stays pending, the endpoint is open and room is left; in every
/// other case the transfer is complete and reports the endpoint's state as
/// it is.
pub open spec fn source_buffered(pre: InputModel, room: nat) -> SourceStep {
    let count = min_len(pre.pending.len() as int, room as int);
    let post = InputModel { state: pre.state, pending: pre.pending.skip(count) };
    SourceStep {
        post,
        delivered: pre.pending.take(count),
        progress: if post.pending.len() == 0 && !pre.state.closed() && count < room {
            ReadProgress::Poll(count as usize)
        } else {
            ReadProgress::Done(count as u64, pre.state)
        },
    }
}

/// The state of an adapted source after a poll: a completed read of no bytes
/// is the end of the stream; anything else leaves the state as it was.
pub open spec fn source_polled_state<E>(pre: StreamState, polled: Polled<E>) -> StreamState {
    match polled {
        Polled::Done(count) if count == 0 => StreamState::Closed,
        _ => pre,
    }
}

/// The number of bytes that a poll added to the destination.
pub open spec fn polled_count<E>(polled: Polled<E>) -> nat {
    match polled {
        Polled::Done(count) => count as nat,
        _ => 0,
    }
}

/// What a transfer reports once its poll is answered: the bytes of its
/// buffered part and of the poll together with the state after the poll, or
/// the source's error.
pub open spec fn source_polled_report<E>(state: StreamState, copied: usize, polled: Polled<E>)
    -> Result<(u64, StreamState), E> {
    match polled {
        Polled::Failed(error) => Err(error),
        _ => Ok(((copied + polled_count(polled)) as u64, source_polled_state(state, polled))),
    }
}

/// A whole transfer of an adapted source.
pub struct SourceTransfer<E> {
    /// The endpoint after the transfer.
    pub post: InputModel,
    /// The pending bytes that the transfer wrote to the front of the
    /// destination; what a poll read follows them there.
    pub delivered: Seq<u8>,
    /// Whether the source was polled.
    pub polled: bool,
    /// What the transfer reports.
    pub result: Result<(u64, StreamState), E>,
}

/// A whole transfer into a destination of `room` bytes: the buffered part,
/// and where that asks for a poll, the completion with the poll's answer.
/// Where it asks for none, the answer plays no part.
pub open spec fn source_transfer<E>(pre: InputModel, room: nat, answer: Polled<E>)
    -> SourceTransfer<E> {
    let buffered = source_buffered(pre, room);
    match buffered.progress {
        ReadProgress::Done(count, state) => SourceTransfer {
            post: buffered.post,
            delivered: buffered.delivered,
            polled: false,
            result: Ok((count, state)),
        },
        ReadProgress::Poll(copied) => SourceTransfer {
            post: InputModel {
                state: source_polled_state(buffered.post.state, answer),
                pending: buffered.post.pending,
            },
            delivered: buffered.delivered,
            polled: true,
            result: source_polled_report(buffered.post.state, copied, answer),
        },
    }
}

/// The endpoint after a suspending read has resolved with `chunk`: an empty
/// chunk is the end of the stream, any other joins the pending bytes.
pub open spec fn source_filled(pre: InputModel, chunk: Seq<u8>) -> InputModel {
    InputModel {
        state: if chunk.len() == 0 {
            StreamState::Closed
        } else {
            pre.state
        },
        pending: pre.pending + chunk,
    }
}

/// An input stream over an asynchronous byte source, which it owns.
pub struct WrappedRead<T> {
    state: StreamState,
    buffer: Vec<u8>,
    reader: T,
}

impl<T> View for WrappedRead<T> {
    type V = InputModel;

    closed spec fn view(&self) -> InputModel {
        InputModel { state: self.state, pending: self.buffer@ }
    }
}

impl<T> WrappedRead<T> {
    /// An open endpoint over `reader` with nothing pending.
    pub fn new(reader: T) -> (wrapped: Self)
        ensures
            wrapped@ == (InputModel { state: StreamState::Open, pending: Seq::<u8>::empty() }),
            wrapped.source() == reader,
    {
        WrappedRead { state: StreamState::Open, buffer: Vec::new(), reader }
    }

    /// The lifecycle marker as last observed.
    pub fn state(&self) -> (state: StreamState)
        ensures
            state == self@.state,
    {
        self.state
    }

    /// The number of pending bytes.
    pub fn pending_len(&self) -> (len: usize)
        ensures
            len == self@.pending.len(),
    {
        self.buffer.len()
    }

    /// The source, for the caller that polls it or suspends on it: a borrow
    /// of the source that the endpoint owns, so that whatever the caller
    /// leaves it as is what the endpoint owns afterwards. The endpoint's
    /// state and pending bytes stay as they are.
    pub fn reader(&mut self) -> (reader: &mut T)
        ensures
            *reader == old(self).source(),
            final(self).source() == *final(reader),
            final(self)@ == old(self)@,
    {
        &mut self.reader
    }

    /// The source that the endpoint owns.
    pub closed spec fn source(&self) -> T {
        self.reader
    }

    /// The buffered part of the non-suspending transfer: delivers the front
    /// of the pending bytes into `dest` and says whether the source is to be
    /// polled for the room that is left.
    pub fn read_buffered(&mut self, dest: &mut [u8]) -> (progress: ReadProgress)
        ensures
            final(self)@ == source_buffered(old(self)@, old(dest)@.len()).post,
            progress == source_buffered(old(self)@, old(dest)@.len()).progress,
            final(self).source() == old(self).source(),
            final(dest)@ == filled(
                old(dest)@,
                source_buffered(old(self)@, old(dest)@.len()).delivered,
            ),
    {
        let dest_len = dest.len();
        let count = if self.buffer.len() < dest_len {
            self.buffer.len()
        } else {
            dest_len
        };
        copy_into(dest, 0, self.buffer.as_slice(), 0, count);
        self.buffer = self.buffer.split_off(count);
        if self.buffer.is_empty() && !self.state.is_closed() && count < dest_len {
            ReadProgress::Poll(count)
        } else {
            ReadProgress::Done(count as u64, self.state)
        }
    }

    /// Completes a transfer whose buffered part delivered `copied` bytes and
    /// asked for a poll: a completed read adds its bytes to the count, and
    /// one of no bytes closes the endpoint; a read that has to wait adds
    /// nothing and changes nothing; the source's error is passed on as it
    /// is.
    pub fn read_polled<E>(&mut self, copied: usize, polled: Polled<E>) -> (res: Result<
        (u64, StreamState),
        E,
    >)
        requires
            copied + polled_count(polled) <= usize::MAX,
        ensures
            final(self)@ == (InputModel {
                state: source_polled_state(old(self)@.state, polled),
                pending: old(self)@.pending,
            }),
            final(self).source() == old(self).source(),
            res == source_polled_report(old(self)@.state, copied, polled),
    {
        match polled {
            Polled::Pending => Ok((copied as u64, self.state)),
            Polled::Done(count) => {
                if count == 0 {
                    self.state = StreamState::Closed;
                }
                Ok(((copied + count) as u64, self.state))
            },
            Polled::Failed(error) => Err(error),
        }
    }

    /// The size of the scratch region to read into with a suspending read, or
    /// `None` for a closed endpoint, which has nothing to wait for.
    pub fn read_request(&self) -> (size: Option<usize>)
        ensures
            size == if self@.state.closed() {
                None::<usize>
            } else {
                Some(READ_CHUNK)
            },
    {
        if self.state.is_closed() {
            None
        } else {
            Some(READ_CHUNK)
        }
    }

    /// Takes in the bytes that a suspending read of the source resolved with:
    /// they join the pending bytes, and none at all is the end of the
    /// stream.
    pub fn fill(&mut self, chunk: &[u8])
        ensures
            final(self)@ == source_filled(old(self)@, chunk@),
            final(self).source() == old(self).source(),
    {
        if chunk.len() == 0 {
            self.state = StreamState::Closed;
        }
        self.buffer.extend_from_slice(chunk);
        assert(self@.pending =~= old(self)@.pending + chunk@);
    }
}

/// One step of an adapted source, with what the source yielded.
pub enum SourceEvent {
    /// A transfer into a destination of this size. Where its buffered part
    /// asks for a poll, the second field is the poll's answer: `None` for a
    /// read that has to wait, otherwise the bytes of the completed read.
    Transfer(nat, Option<Seq<u8>>),
    /// A suspending read resolved with these bytes.
    Fill(Seq<u8>),
}

/// An adapted source at one moment, with the history of what went through
/// it.
pub struct SourceModel {
    /// The endpoint.
    pub endpoint: InputModel,
    /// Every byte that a read of the source yielded, in order.
    pub produced: Seq<u8>,
    /// Every byte that a transfer delivered, in order.
    pub delivered: Seq<u8>,
    /// How many completed reads of the source yielded no bytes.
    pub empty_reads: nat,
}

/// The bytes of a poll's answer, none for a read that has to wait.
pub open spec fn polled_bytes(polled: Option<Seq<u8>>) -> Seq<u8> {
    match polled {
        Some(bytes) => bytes,
        None => Seq::<u8>::empty(),
    }
}

/// The answer of a poll as the endpoint is handed it: the count of the
/// bytes read.
pub open spec fn polled_answer(polled: Option<Seq<u8>>) -> Polled<()> {
    match polled {
        Some(bytes) => Polled::Done(bytes.len() as usize),
        None => Polled::Pending,
    }
}

/// An adapted source as `WrappedRead::new` makes it.
pub open spec fn source_created() -> SourceModel {
    SourceModel {
        endpoint: InputModel { state: StreamState::Open, pending: Seq::<u8>::empty() },
        produced: Seq::<u8>::empty(),
        delivered: Seq::<u8>::empty(),
        empty_reads: 0,
    }
}

/// Whether the event can happen in `m`: the source is polled only where the
/// buffered part of the transfer asks for it, a poll reads no more than the
/// room that is left, and a suspending read is made only of an open
/// endpoint and fills no more than the scratch region.
pub open spec fn source_enabled(m: SourceModel, event: SourceEvent) -> bool {
    match event {
        SourceEvent::Transfer(room, polled) => {
            &&& room <= usize::MAX
            &&& match source_buffered(m.endpoint, room).progress {
                ReadProgress::Poll(copied) => polled_bytes(polled).len() <= room - copied,
                ReadProgress::Done(_, _) => polled is None,
            }
        },
        SourceEvent::Fill(chunk) => !m.endpoint.state.closed() && chunk.len() <= READ_CHUNK,
    }
}

/// The adapted source after the event.
pub open spec fn source_step(m: SourceModel, event: SourceEvent) -> SourceModel {
    match event {
        SourceEvent::Transfer(room, polled) => {
            let buffered = source_buffered(m.endpoint, room);
            SourceModel {
                endpoint: InputModel {
                    state: source_polled_state(buffered.post.state, polled_answer(polled)),
                    pending: buffered.post.pending,
                },
                produced: m.produced + polled_bytes(polled),
                delivered: m.delivered + buffered.delivered + polled_bytes(polled),
                empty_reads: if polled is Some && polled_bytes(polled).len() == 0 {
                    m.empty_reads + 1
                } else {
                    m.empty_reads
                },
            }
        },
        SourceEvent::Fill(chunk) => SourceModel {
            endpoint: source_filled(m.endpoint, chunk),
            produced: m.produced + chunk,
            delivered: m.delivered,
            empty_reads: if chunk.len() == 0 {
                m.empty_reads + 1
            } else {
                m.empty_reads
            },
        },
    }
}

/// The adapted source after all of `events`, in order.
pub open spec fn source_run(m: SourceModel, events: Seq<SourceEvent>) -> SourceModel
    decreases events.len(),
{
    if events.len() == 0 {
        m
    } else {
        source_step(source_run(m, events.drop_last()), events.last())
    }
}

/// Every one of `events` can happen at its turn.
pub open spec fn source_run_enabled(m: SourceModel, events: Seq<SourceEvent>) -> bool
    decreases events.len(),
{
    events.len() > 0 ==> {
        &&& source_run_enabled(m, events.drop_last())
        &&& source_enabled(source_run(m, events.drop_last()), events.last())
    }
}

/// What holds of an adapted source at every moment: what the source
/// yielded is what was delivered followed by what is pending, and the
/// endpoint is closed exactly when one read, and then no more than one, has
/// yielded no bytes.
pub open spec fn source_consistent(m: SourceModel) -> bool {
    &&& m.produced == m.delivered + m.endpoint.pending
    &&& m.empty_reads <= 1
    &&& m.endpoint.state.closed() <==> m.empty_reads == 1
}

/// One step keeps an adapted source consistent, and closes it exactly when
/// the step's read of the source yields no bytes.
pub proof fn lemma_source_step(m: SourceModel, event: SourceEvent)
    requires
        source_consistent(m),
        source_enabled(m, event),
    ensures
        source_consistent(source_step(m, event)),
        m.endpoint.state.may_become(source_step(m, event).endpoint.state),
        source_step(m, event).endpoint.state != m.endpoint.state <==> source_step(
            m,
            event,
        ).empty_reads == m.empty_reads + 1,
{
    let post = source_step(m, event);
    assert(post.produced =~= post.delivered + post.endpoint.pending);
}

/// Nothing dropped, nothing repeated, closed once. After any run of a new
/// adapter, the bytes that the reads of the source yielded, whether polled
/// into a destination or taken in after a wait, are the delivered bytes
/// followed by the pending ones; and the adapter is closed exactly when a
/// read has yielded no bytes, which happens at most once.
pub proof fn lemma_source_run(events: Seq<SourceEvent>)
    requires
        source_run_enabled(source_created(), events),
    ensures
        source_consistent(source_run(source_created(), events)),
    decreases events.len(),
{
    if events.len() > 0 {
        lemma_source_run(events.drop_last());
        lemma_source_step(source_run(source_created(), events.drop_last()), events.last());
    }
}

/// A source that has to wait is no progress and no change: a transfer
/// that finds nothing pending and is answered so delivers nothing and
/// leaves the adapter exactly as it was, still open if it was open.
pub proof fn lemma_waiting_source_changes_nothing(m: SourceModel, room: nat)
    requires
        m.endpoint.pending.len() == 0,
        source_enabled(m, SourceEvent::Transfer(room, None)),
    ensures
        source_step(m, SourceEvent::Transfer(room, None)) == m,
{
    let post = source_step(m, SourceEvent::Transfer(room, None));
    assert(post.endpoint.pending =~= m.endpoint.pending);
}

/// Stale bytes come first. While more bytes are pending than the
/// destination holds, a transfer fills the destination from them, keeps the
/// rest pending in order, does not poll the source, and reports the full
/// length with the endpoint's state, which it leaves as it is.
pub proof fn lemma_transfer_with_stale_bytes<E>(pre: InputModel, room: nat, answer: Polled<E>)
    requires
        pre.pending.len() > room,
    ensures
        !source_transfer(pre, room, answer).polled,
        source_transfer(pre, room, answer).result == Ok::<(u64, StreamState), E>(
            (room as u64, pre.state),
        ),
        source_transfer(pre, room, answer).delivered == pre.pending.take(room as int),
        source_transfer(pre, room, answer).post == (InputModel {
            state: pre.state,
            pending: pre.pending.skip(room as int),
        }),
{
}

/// One poll, and its answer decides. An open endpoint whose pending bytes
/// leave room in the destination delivers all of them and polls the source:
/// a completed read adds its bytes to the count; the endpoint is closed
/// after the transfer exactly when the read completed with no bytes; a read
/// that has to wait adds nothing and leaves the endpoint open.
pub proof fn lemma_transfer_polls_open_source<E>(pre: InputModel, room: nat, answer: Polled<E>)
    requires
        !pre.state.closed(),
        pre.pending.len() < room <= usize::MAX,
        pre.pending.len() + polled_count(answer) <= usize::MAX,
    ensures
        source_transfer(pre, room, answer).polled,
        source_transfer(pre, room, answer).delivered == pre.pending,
        source_transfer(pre, room, answer).post.pending.len() == 0,
        source_transfer(pre, room, answer).post.state.closed() <==> answer == Polled::<E>::Done(0),
        answer matches Polled::Done(count) ==> source_transfer(pre, room, answer).result == Ok::<
            (u64, StreamState),
            E,
        >(
            (
                (pre.pending.len() + count) as u64,
                if count == 0 {
                    StreamState::Closed
                } else {
                    StreamState::Open
                },
            ),
        ),
        answer is Pending ==> source_transfer(pre, room, answer).result == Ok::<
            (u64, StreamState),
            E,
        >((pre.pending.len() as u64, StreamState::Open)),
        answer matches Polled::Failed(error) ==> source_transfer(pre, room, answer).result == Err::<
            (u64, StreamState),
            E,
        >(error),
{
    assert(pre.pending.take(pre.pending.len() as int) =~= pre.pending);
}

/// A source that would block forever costs nothing. A transfer on a new
/// adapter whose poll has to wait reports no bytes and an open stream, and
/// leaves the adapter as it was made.
pub proof fn lemma_transfer_on_waiting_source<E>(room: nat)
    requires
        1 <= room <= usize::MAX,
    ensures
        source_transfer(source_created().endpoint, room, Polled::<E>::Pending).result == Ok::<
            (u64, StreamState),
            E,
        >((0, StreamState::Open)),
        source_transfer(source_created().endpoint, room, Polled::<E>::Pending).delivered.len() == 0,
        source_transfer(source_created().endpoint, room, Polled::<E>::Pending).post
            == source_created().endpoint,
{
    let pre = source_created().endpoint;
    assert(source_transfer(pre, room, Polled::<E>::Pending).post.pending =~= pre.pending);
}

/// A resolved wait joins exactly what was read. On an open endpoint the
/// bytes of the suspending read follow the pending bytes, none added and
/// none lost, and the endpoint is closed afterwards exactly when the read
/// yielded no bytes.
pub proof fn lemma_wait_joins_exactly(pre: InputModel, chunk: Seq<u8>)
    requires
        !pre.state.closed(),
    ensures
        source_filled(pre, chunk).pending == pre.pending + chunk,
        source_filled(pre, chunk).pending.len() == pre.pending.len() + chunk.len(),
        source_filled(pre, chunk).state.closed() <==> chunk.len() == 0,
{
}

} // verus!
