//! A pipe as a whole, and what holds of every run of it.
//!
//! The two endpoints are joined by a first-in, first-out queue of chunks.
//! The endpoints step by the transition functions that their executable
//! operations are specified with; the queue stands for the channel, of which
//! the model supposes only that chunks leave in the order they entered, that
//! the consumer is told of a disconnect only once the producer is gone and
//! the queue is empty, and that the producer is refused exactly when the
//! consumer is gone. The laws hold of every transport that behaves so.

use crate::channel::Arrival;
use crate::channel::Dispatch;
use crate::input_pipe::input_ready;
use crate::input_pipe::input_transfer;
use crate::input_pipe::InputModel;
use crate::output_pipe::output_flushed;
use crate::output_pipe::output_ready;
use crate::output_pipe::output_ready_plan;
use crate::output_pipe::output_reserved;
use crate::output_pipe::output_transfer;
use crate::output_pipe::Hold;
use crate::output_pipe::OutputModel;
use crate::state::StreamState;
use vstd::prelude::*;

verus! {

/// A pipe at one moment, with the history of what went through it.
pub struct PipeModel {
    /// The producing endpoint.
    pub producer: OutputModel,
    /// The producing endpoint has been dropped.
    pub producer_gone: bool,
    /// The consuming endpoint.
    pub consumer: InputModel,
    /// The consuming endpoint has been dropped.
    pub consumer_gone: bool,
    /// The chunks in the channel, oldest first.
    pub queue: Seq<Seq<u8>>,
    /// Every byte that a transfer on the producer reported as accepted.
    pub accepted: Seq<u8>,
    /// Every byte that was put into the channel.
    pub sent: Seq<u8>,
    /// Every byte that a transfer on the consumer delivered.
    pub delivered: Seq<u8>,
}

/// One step of a pipe, with the channel's answer where it gives one.
pub enum PipeEvent {
    /// A transfer of these bytes on the producer, its send attempt answered
    /// so.
    Write(Seq<u8>, Dispatch),
    /// The producer plans its next wait on the way to being ready.
    PlanReady,
    /// The producer's suspending send of its pending bytes resolved.
    Flushed(bool),
    /// The producer's suspending reserve resolved.
    Reserved(bool),
    /// The producer is dropped.
    DropProducer,
    /// A transfer on the consumer into a destination of this size, its
    /// receive attempt answered so.
    Read(nat, Arrival),
    /// The consumer's suspending receive resolved.
    Received(Option<Seq<u8>>),
    /// The consumer is dropped.
    DropConsumer,
}

/// A pipe as `pipe` creates it.
pub open spec fn pipe_created() -> PipeModel {
    PipeModel {
        producer: OutputModel { pending: Seq::<u8>::empty(), hold: Hold::Plain },
        producer_gone: false,
        consumer: InputModel { state: StreamState::Open, pending: Seq::<u8>::empty() },
        consumer_gone: false,
        queue: Seq::<Seq<u8>>::empty(),
        accepted: Seq::<u8>::empty(),
        sent: Seq::<u8>::empty(),
        delivered: Seq::<u8>::empty(),
    }
}

/// A chunk leaves the channel only from the front of the queue.
pub open spec fn chunk_is_next(m: PipeModel, chunk: Seq<u8>) -> bool {
    m.queue.len() > 0 && chunk == m.queue.first()
}

/// The consumer learns of a disconnect only when the producer is gone and
/// nothing is queued.
pub open spec fn disconnect_is_due(m: PipeModel) -> bool {
    m.producer_gone && m.queue.len() == 0
}

/// Whether the event can happen in `m`: the endpoint it steps exists, an
/// endpoint calls the channel only where its operation does, and the
/// channel's answer is one that a first-in, first-out queue can give.
pub open spec fn pipe_enabled(m: PipeModel, event: PipeEvent) -> bool {
    match event {
        PipeEvent::Write(_, dispatch) => {
            &&& !m.producer_gone
            &&& m.producer.hold is Plain ==> (dispatch is Closed <==> m.consumer_gone)
        },
        PipeEvent::PlanReady => !m.producer_gone,
        PipeEvent::Flushed(delivered) => {
            &&& !m.producer_gone
            &&& m.producer.hold is Plain
            &&& m.producer.pending.len() > 0
            &&& delivered <==> !m.consumer_gone
        },
        PipeEvent::Reserved(granted) => {
            &&& !m.producer_gone
            &&& m.producer.hold is Plain
            &&& m.producer.pending.len() == 0
            &&& granted <==> !m.consumer_gone
        },
        PipeEvent::DropProducer => !m.producer_gone,
        PipeEvent::Read(room, arrival) => {
            &&& !m.consumer_gone
            &&& m.consumer.pending.len() >= room ==> arrival is Empty
            &&& arrival matches Arrival::Chunk(chunk) ==> chunk_is_next(m, chunk)
            &&& arrival is Disconnected ==> disconnect_is_due(m)
        },
        PipeEvent::Received(received) => {
            &&& !m.consumer_gone
            &&& match received {
                Some(chunk) => chunk_is_next(m, chunk),
                None => disconnect_is_due(m),
            }
        },
        PipeEvent::DropConsumer => !m.consumer_gone,
    }
}

/// The queue and the sent bytes after the producer has put `sent` into the
/// channel, if it has put anything.
pub open spec fn after_send(m: PipeModel, sent: Option<Seq<u8>>) -> PipeModel {
    match sent {
        Some(chunk) => PipeModel { queue: m.queue.push(chunk), sent: m.sent + chunk, ..m },
        None => m,
    }
}

/// The pipe after the event.
pub open spec fn pipe_step(m: PipeModel, event: PipeEvent) -> PipeModel {
    match event {
        PipeEvent::Write(buf, dispatch) => {
            let step = output_transfer(m.producer, buf, dispatch);
            let counted = PipeModel {
                producer: step.post,
                accepted: if step.result is Ok {
                    m.accepted + buf
                } else {
                    m.accepted
                },
                ..m
            };
            after_send(counted, step.sent)
        },
        PipeEvent::PlanReady => {
            let step = output_ready_plan(m.producer);
            after_send(PipeModel { producer: step.post, ..m }, step.sent)
        },
        PipeEvent::Flushed(delivered) => after_send(
            PipeModel { producer: output_flushed(m.producer, delivered), ..m },
            if delivered {
                Some(m.producer.pending)
            } else {
                None
            },
        ),
        PipeEvent::Reserved(granted) => PipeModel {
            producer: output_reserved(m.producer, granted),
            ..m
        },
        PipeEvent::DropProducer => PipeModel { producer_gone: true, ..m },
        PipeEvent::Read(room, arrival) => {
            let step = input_transfer(m.consumer, room, arrival);
            PipeModel {
                consumer: step.post,
                delivered: m.delivered + step.delivered,
                queue: if arrival is Chunk {
                    m.queue.drop_first()
                } else {
                    m.queue
                },
                ..m
            }
        },
        PipeEvent::Received(received) => PipeModel {
            consumer: input_ready(m.consumer, received),
            queue: if received is Some {
                m.queue.drop_first()
            } else {
                m.queue
            },
            ..m
        },
        PipeEvent::DropConsumer => PipeModel { consumer_gone: true, ..m },
    }
}

/// The pipe after all of `events`, in order.
pub open spec fn pipe_run(m: PipeModel, events: Seq<PipeEvent>) -> PipeModel
    decreases events.len(),
{
    if events.len() == 0 {
        m
    } else {
        pipe_step(pipe_run(m, events.drop_last()), events.last())
    }
}

/// Every one of `events` can happen at its turn.
pub open spec fn pipe_run_enabled(m: PipeModel, events: Seq<PipeEvent>) -> bool
    decreases events.len(),
{
    events.len() > 0 ==> {
        &&& pipe_run_enabled(m, events.drop_last())
        &&& pipe_enabled(pipe_run(m, events.drop_last()), events.last())
    }
}

/// The bytes that are past the producer and not yet delivered, in stream
/// order: the consumer's pending bytes, then the queued chunks.
pub open spec fn in_channel(m: PipeModel) -> Seq<u8> {
    m.consumer.pending + m.queue.flatten()
}

/// What holds of a pipe at every moment: the sent bytes are the delivered
/// bytes followed by those still on their way; unless the producer has
/// failed, the accepted bytes are the sent bytes followed by its pending
/// bytes; and a closed consumer means a dropped producer and an empty
/// queue.
pub open spec fn pipe_consistent(m: PipeModel) -> bool {
    &&& m.sent == m.delivered + in_channel(m)
    &&& !(m.producer.hold is Failed) ==> m.accepted == m.sent + m.producer.pending
    &&& m.consumer.state.closed() ==> disconnect_is_due(m)
}

/// Putting a chunk into the channel keeps the stream in order: the chunk
/// joins the end of what is on its way.
proof fn lemma_after_send(m: PipeModel, sent: Option<Seq<u8>>)
    requires
        m.sent == m.delivered + in_channel(m),
    ensures
        after_send(m, sent).sent == after_send(m, sent).delivered + in_channel(after_send(m, sent)),
{
    if let Some(chunk) = sent {
        m.queue.lemma_flatten_push(chunk);
    }
}

/// Taking the front chunk out of the queue leaves the rest of the stream
/// behind it.
proof fn lemma_front_chunk(queue: Seq<Seq<u8>>)
    requires
        queue.len() > 0,
    ensures
        queue.flatten() == queue.first() + queue.drop_first().flatten(),
{
}

/// One step keeps a pipe consistent.
pub proof fn lemma_step_consistent(m: PipeModel, event: PipeEvent)
    requires
        pipe_consistent(m),
        pipe_enabled(m, event),
    ensures
        pipe_consistent(pipe_step(m, event)),
{
    let post = pipe_step(m, event);
    match event {
        PipeEvent::Write(buf, dispatch) => {
            let step = output_transfer(m.producer, buf, dispatch);
            let counted = PipeModel {
                producer: step.post,
                accepted: if step.result is Ok {
                    m.accepted + buf
                } else {
                    m.accepted
                },
                ..m
            };
            lemma_after_send(counted, step.sent);
            assert(!(post.producer.hold is Failed) ==> post.accepted =~= post.sent
                + post.producer.pending);
        },
        PipeEvent::PlanReady => {
            let step = output_ready_plan(m.producer);
            lemma_after_send(PipeModel { producer: step.post, ..m }, step.sent);
        },
        PipeEvent::Flushed(delivered) => {
            lemma_after_send(
                PipeModel { producer: output_flushed(m.producer, delivered), ..m },
                if delivered {
                    Some(m.producer.pending)
                } else {
                    None
                },
            );
            assert(!(post.producer.hold is Failed) ==> post.accepted =~= post.sent
                + post.producer.pending);
        },
        PipeEvent::Reserved(_) => {},
        PipeEvent::DropProducer => {},
        PipeEvent::Read(_, arrival) => {
            if arrival is Chunk {
                lemma_front_chunk(m.queue);
            }
            assert(post.sent =~= post.delivered + in_channel(post));
        },
        PipeEvent::Received(received) => {
            if received is Some {
                lemma_front_chunk(m.queue);
            }
            assert(post.sent =~= post.delivered + in_channel(post));
        },
        PipeEvent::DropConsumer => {},
    }
}

/// Every run of a consistent pipe ends in a consistent pipe.
pub proof fn lemma_run_consistent(m: PipeModel, events: Seq<PipeEvent>)
    requires
        pipe_consistent(m),
        pipe_run_enabled(m, events),
    ensures
        pipe_consistent(pipe_run(m, events)),
    decreases events.len(),
{
    if events.len() > 0 {
        lemma_run_consistent(m, events.drop_last());
        lemma_step_consistent(pipe_run(m, events.drop_last()), events.last());
    }
}

/// Round trip, in order. After any run of a new pipe, what the consumer has
/// delivered is the front of what was sent, and what was sent is the front
/// of what the producer accepted (while it has not failed): no byte is
/// dropped, repeated or overtaken. With nothing pending at either end and
/// nothing queued, everything accepted has been delivered.
pub proof fn lemma_round_trip(events: Seq<PipeEvent>)
    requires
        pipe_run_enabled(pipe_created(), events),
    ensures
        ({
            let m = pipe_run(pipe_created(), events);
            &&& m.delivered.is_prefix_of(m.sent)
            &&& m.sent == m.delivered + m.consumer.pending + m.queue.flatten()
            &&& !(m.producer.hold is Failed) ==> {
                &&& m.sent.is_prefix_of(m.accepted)
                &&& m.accepted == m.sent + m.producer.pending
                &&& m.producer.pending.len() == 0 && m.consumer.pending.len() == 0
                    && m.queue.len() == 0 ==> m.delivered == m.accepted
            }
        }),
{
    lemma_run_consistent(pipe_created(), events);
}

/// Closed means drained. After any run of a new pipe, if the consumer is
/// closed then the producer has been dropped and the queue is empty, so
/// every byte that was sent has been delivered or is pending at the
/// consumer: the consumer never closes ahead of bytes still on their way.
pub proof fn lemma_closed_means_drained(events: Seq<PipeEvent>)
    requires
        pipe_run_enabled(pipe_created(), events),
        pipe_run(pipe_created(), events).consumer.state.closed(),
    ensures
        ({
            let m = pipe_run(pipe_created(), events);
            &&& m.producer_gone
            &&& m.queue.len() == 0
            &&& m.sent == m.delivered + m.consumer.pending
        }),
{
    lemma_run_consistent(pipe_created(), events);
}

/// The consumer's end is final for the producer. Once the consumer is gone
/// and the producer holds no reservation, through every further run the
/// producer never holds one again and not one more byte is accepted: each
/// transfer fails or finds the endpoint already failed.
pub proof fn lemma_consumer_gone_is_final(m: PipeModel, events: Seq<PipeEvent>)
    requires
        m.consumer_gone,
        !(m.producer.hold is Reserved),
        pipe_run_enabled(m, events),
    ensures
        pipe_run(m, events).consumer_gone,
        !(pipe_run(m, events).producer.hold is Reserved),
        pipe_run(m, events).accepted == m.accepted,
    decreases events.len(),
{
    if events.len() > 0 {
        lemma_consumer_gone_is_final(m, events.drop_last());
    }
}

/// The first transfer after the consumer is gone fails, unless it uses up a
/// reservation, and it leaves the producer failed.
pub proof fn lemma_write_fails_without_consumer(m: PipeModel, buf: Seq<u8>, dispatch: Dispatch)
    requires
        m.consumer_gone,
        !(m.producer.hold is Reserved),
        pipe_enabled(m, PipeEvent::Write(buf, dispatch)),
    ensures
        output_transfer(m.producer, buf, dispatch).result is Err,
        output_transfer(m.producer, buf, dispatch).post.hold is Failed,
        output_transfer(m.producer, buf, dispatch).sent is None,
{
}

/// A run that starts with `first` is the run of the rest from the pipe
/// after `first`.
proof fn lemma_run_from_first(m: PipeModel, first: PipeEvent, rest: Seq<PipeEvent>)
    ensures
        pipe_run(m, seq![first] + rest) == pipe_run(pipe_step(m, first), rest),
        pipe_run_enabled(m, seq![first] + rest) == (pipe_enabled(m, first) && pipe_run_enabled(
            pipe_step(m, first),
            rest,
        )),
    decreases rest.len(),
{
    let all = seq![first] + rest;
    if rest.len() == 0 {
        assert(pipe_run(m, all.drop_last()) == m);
        assert(pipe_run_enabled(m, all.drop_last()));
    } else {
        assert(all.drop_last() =~= seq![first] + rest.drop_last());
        lemma_run_from_first(m, first, rest.drop_last());
    }
}

/// The consumer's steps that take in everything on its way: one resolved
/// wait for each queued chunk, oldest first, and then one transfer into a
/// destination as large as all that is pending by then.
pub open spec fn drain_events(m: PipeModel) -> Seq<PipeEvent>
    decreases m.queue.len(),
{
    if m.queue.len() == 0 {
        seq![PipeEvent::Read(m.consumer.pending.len(), Arrival::Empty)]
    } else {
        let wait = PipeEvent::Received(Some(m.queue.first()));
        seq![wait] + drain_events(pipe_step(m, wait))
    }
}

/// Everything sent can be had. In a consistent pipe whose consumer exists,
/// the consumer's own steps, waiting for each queued chunk and then
/// transferring, can all happen, and after them every byte that was sent has
/// been delivered, with nothing left queued or pending at the consumer.
pub proof fn lemma_consumer_can_drain(m: PipeModel)
    requires
        pipe_consistent(m),
        !m.consumer_gone,
    ensures
        pipe_run_enabled(m, drain_events(m)),
        pipe_run(m, drain_events(m)).delivered == m.sent,
        pipe_run(m, drain_events(m)).sent == m.sent,
        pipe_run(m, drain_events(m)).queue.len() == 0,
        pipe_run(m, drain_events(m)).consumer.pending.len() == 0,
        pipe_run(m, drain_events(m)).producer == m.producer,
        pipe_run(m, drain_events(m)).accepted == m.accepted,
    decreases m.queue.len(),
{
    if m.queue.len() == 0 {
        let transfer = PipeEvent::Read(m.consumer.pending.len(), Arrival::Empty);
        let none = Seq::<PipeEvent>::empty();
        lemma_run_from_first(m, transfer, none);
    } else {
        let wait = PipeEvent::Received(Some(m.queue.first()));
        let next = pipe_step(m, wait);
        lemma_step_consistent(m, wait);
        lemma_consumer_can_drain(next);
        lemma_run_from_first(m, wait, drain_events(next));
    }
}

/// The producer's steps that hand its pending bytes to the channel: none
/// where nothing is pending; with a held reservation the plan that sends
/// them; with the plain handle the suspending send, delivered.
pub open spec fn flush_events(m: PipeModel) -> Seq<PipeEvent> {
    if m.producer.pending.len() == 0 {
        Seq::<PipeEvent>::empty()
    } else if m.producer.hold is Reserved {
        seq![PipeEvent::PlanReady]
    } else {
        seq![PipeEvent::Flushed(true)]
    }
}

/// Everything accepted arrives. In a consistent pipe with both ends in
/// place and a producer that has not failed, the producer's flush followed
/// by the consumer's draining steps can all happen, and after them the
/// delivered bytes are exactly the accepted bytes, in order.
pub proof fn lemma_accepted_bytes_arrive(m: PipeModel)
    requires
        pipe_consistent(m),
        !m.producer_gone,
        !m.consumer_gone,
        !(m.producer.hold is Failed),
    ensures
        ({
            let flushed = pipe_run(m, flush_events(m));
            &&& pipe_run_enabled(m, flush_events(m))
            &&& pipe_run_enabled(flushed, drain_events(flushed))
            &&& pipe_run(flushed, drain_events(flushed)).delivered == m.accepted
            &&& pipe_run(flushed, drain_events(flushed)).accepted == m.accepted
        }),
{
    let events = flush_events(m);
    let flushed = pipe_run(m, events);
    if events.len() > 0 {
        let none = Seq::<PipeEvent>::empty();
        lemma_run_from_first(m, events[0], none);
        lemma_step_consistent(m, events[0]);
    }
    lemma_consumer_can_drain(flushed);
}

/// The consumer's wait takes the oldest chunk. While a chunk is queued the
/// wait can resolve, and only with the chunk at the front: that chunk leaves
/// the queue and joins the end of the pending bytes, the state stays as it
/// was, and nothing else moves.
pub proof fn lemma_wait_takes_oldest_chunk(m: PipeModel, received: Option<Seq<u8>>)
    requires
        !m.consumer_gone,
        m.queue.len() > 0,
    ensures
        pipe_enabled(m, PipeEvent::Received(received)) <==> received == Some(m.queue.first()),
        ({
            let post = pipe_step(m, PipeEvent::Received(Some(m.queue.first())));
            &&& post.consumer.pending == m.consumer.pending + m.queue.first()
            &&& post.consumer.state == m.consumer.state
            &&& post.queue == m.queue.drop_first()
            &&& post.delivered == m.delivered
            &&& post.producer == m.producer
        }),
{
}

/// The consumer's wait ends when the producer is gone. With the producer
/// dropped and nothing queued the wait can resolve, and only with nothing:
/// the consumer is closed, and its pending bytes stay as they are.
pub proof fn lemma_wait_ends_without_producer(m: PipeModel, received: Option<Seq<u8>>)
    requires
        !m.consumer_gone,
        m.producer_gone,
        m.queue.len() == 0,
    ensures
        pipe_enabled(m, PipeEvent::Received(received)) <==> received is None,
        ({
            let post = pipe_step(m, PipeEvent::Received(None));
            &&& post.consumer.state == StreamState::Closed
            &&& post.consumer.pending == m.consumer.pending
            &&& post.queue == m.queue
        }),
{
}

/// The producer's steps on the way to being ready while the consumer is
/// there: pending bytes go out first, paid for by a held reservation or by
/// a suspending send, and then a slot is reserved unless one is held.
pub open spec fn ready_events(m: PipeModel) -> Seq<PipeEvent> {
    if m.producer.pending.len() == 0 {
        if m.producer.hold is Reserved {
            seq![PipeEvent::PlanReady]
        } else {
            seq![PipeEvent::PlanReady, PipeEvent::Reserved(true)]
        }
    } else if m.producer.hold is Reserved {
        seq![PipeEvent::PlanReady, PipeEvent::Reserved(true)]
    } else {
        seq![PipeEvent::PlanReady, PipeEvent::Flushed(true), PipeEvent::Reserved(true)]
    }
}

/// Ready means flushed and reserved. With both ends in place and a producer
/// that has not failed, the producer's steps to readiness can all happen,
/// and after them nothing is pending, the bytes that were pending have
/// entered the queue as one chunk behind all earlier chunks, one
/// reservation is held, and everything accepted has been sent. The
/// producer is then what becoming ready with every wait granted makes of
/// it.
pub proof fn lemma_ready_flushes_and_reserves(m: PipeModel)
    requires
        pipe_consistent(m),
        !m.producer_gone,
        !m.consumer_gone,
        !(m.producer.hold is Failed),
    ensures
        pipe_run_enabled(m, ready_events(m)),
        ({
            let post = pipe_run(m, ready_events(m));
            &&& post.producer == (OutputModel { pending: Seq::<u8>::empty(), hold: Hold::Reserved })
            &&& post.producer == output_ready(m.producer, true, true).0
            &&& post.queue == if m.producer.pending.len() > 0 {
                m.queue.push(m.producer.pending)
            } else {
                m.queue
            }
            &&& post.accepted == m.accepted
            &&& post.sent == m.accepted
            &&& post.consumer == m.consumer
            &&& post.delivered == m.delivered
        }),
{
    let events = ready_events(m);
    let none = Seq::<PipeEvent>::empty();
    let planned = pipe_step(m, PipeEvent::PlanReady);
    lemma_step_consistent(m, PipeEvent::PlanReady);
    assert(events =~= seq![PipeEvent::PlanReady] + events.skip(1));
    lemma_run_from_first(m, PipeEvent::PlanReady, events.skip(1));
    if events.len() == 1 {
        assert(events.skip(1) =~= none);
        assert(m.sent + m.producer.pending =~= m.sent);
    } else if events.len() == 2 {
        let reserve = PipeEvent::Reserved(true);
        assert(events.skip(1) =~= seq![reserve] + none);
        lemma_run_from_first(planned, reserve, none);
        lemma_step_consistent(planned, reserve);
        assert(pipe_step(planned, reserve).sent =~= m.accepted);
    } else {
        let flush = PipeEvent::Flushed(true);
        let reserve = PipeEvent::Reserved(true);
        let flushed = pipe_step(planned, flush);
        assert(events.skip(1) =~= seq![flush] + seq![reserve]);
        lemma_run_from_first(planned, flush, seq![reserve]);
        lemma_step_consistent(planned, flush);
        assert(seq![reserve] =~= seq![reserve] + none);
        lemma_run_from_first(flushed, reserve, none);
        lemma_step_consistent(flushed, reserve);
        assert(pipe_step(flushed, reserve).sent =~= m.accepted);
    }
    let post = pipe_run(m, events);
    let ready = output_ready(m.producer, true, true).0;
    assert(post.producer.pending =~= Seq::<u8>::empty());
    assert(ready.pending =~= Seq::<u8>::empty());
}

} // verus!
