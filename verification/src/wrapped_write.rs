//! The adapter that turns an asynchronous byte sink into an output stream.

use crate::poll::Polled;
use vstd::prelude::*;

verus! {

/// The pending bytes of an adapted sink after a poll of a write of all of
/// them: a completed write removes what it wrote from the front, a write that
/// has to wait removes nothing, and after an error nothing is kept.
pub open spec fn sink_polled<E>(pending: Seq<u8>, polled: Polled<E>) -> Seq<u8> {
    match polled {
        Polled::Pending => pending,
        Polled::Done(written) => pending.skip(written as int),
        Polled::Failed(_) => Seq::<u8>::empty(),
    }
}

/// What a transfer reports once its poll is answered: all of the accepted
/// bytes, written or not, or the sink's error.
pub open spec fn sink_polled_report<E>(accepted: usize, polled: Polled<E>) -> Result<u64, E> {
    match polled {
        Polled::Failed(error) => Err(error),
        _ => Ok(accepted as u64),
    }
}

/// A whole transfer of `buf`: it joins the pending bytes, a write of all of
/// them is polled once, and the answer is taken in. The result is the
/// pending bytes after the transfer and what it reports.
pub open spec fn sink_transfer<E>(pending: Seq<u8>, buf: Seq<u8>, answer: Polled<E>) -> (
    Seq<u8>,
    Result<u64, E>,
) {
    (sink_polled(pending + buf, answer), sink_polled_report(buf.len() as usize, answer))
}

/// An output stream over an asynchronous byte sink, which it owns. Its
/// pending buffer has no bound.
pub struct WrappedWrite<T> {
    buffer: Vec<u8>,
    writer: T,
}

impl<T> View for WrappedWrite<T> {
    type V = Seq<u8>;

    /// The pending bytes.
    closed spec fn view(&self) -> Seq<u8> {
        self.buffer@
    }
}

impl<T> WrappedWrite<T> {
    /// The sink that the endpoint owns.
    pub closed spec fn sink(&self) -> T {
        self.writer
    }

    /// An endpoint over `writer` with nothing pending.
    pub fn new(writer: T) -> (wrapped: Self)
        ensures
            wrapped@ == Seq::<u8>::empty(),
            wrapped.sink() == writer,
    {
        WrappedWrite { buffer: Vec::new(), writer }
    }

    /// The number of pending bytes.
    pub fn pending_len(&self) -> (len: usize)
        ensures
            len == self@.len(),
    {
        self.buffer.len()
    }

    /// The sink together with the pending bytes, for the caller that polls
    /// a write of them or suspends on one. The sink is a borrow of the one
    /// that the endpoint owns, so that whatever the caller leaves it as is
    /// what the endpoint owns afterwards. The pending bytes stay as they
    /// are.
    pub fn parts(&mut self) -> (parts: (&mut T, &[u8]))
        ensures
            *parts.0 == old(self).sink(),
            final(self).sink() == *final(parts.0),
            parts.1@ == old(self)@,
            final(self)@ == old(self)@,
    {
        (&mut self.writer, self.buffer.as_slice())
    }

    /// The first part of the non-suspending transfer: `buf` joins the pending
    /// bytes.
    pub fn write_buffered(&mut self, buf: &[u8])
        ensures
            final(self)@ == old(self)@ + buf@,
            final(self).sink() == old(self).sink(),
    {
        self.buffer.extend_from_slice(buf);
    }

    /// Completes a transfer that buffered `accepted` bytes and then polled a
    /// write of all pending bytes: what the sink wrote leaves the front of
    /// the pending bytes. All of the `accepted` bytes count as taken, written
    /// or not; only the sink's error is passed on, as it is.
    pub fn write_polled<E>(&mut self, accepted: usize, polled: Polled<E>) -> (res: Result<u64, E>)
        requires
            polled matches Polled::Done(written) ==> written <= old(self)@.len(),
        ensures
            final(self)@ == sink_polled(old(self)@, polled),
            final(self).sink() == old(self).sink(),
            res == sink_polled_report(accepted, polled),
    {
        match polled {
            Polled::Pending => Ok(accepted as u64),
            Polled::Done(written) => {
                self.buffer = self.buffer.split_off(written);
                Ok(accepted as u64)
            },
            Polled::Failed(error) => {
                self.buffer.clear();
                Err(error)
            },
        }
    }

    /// Takes in that a suspending write of all pending bytes has succeeded:
    /// nothing is pending any more.
    pub fn flushed(&mut self)
        ensures
            final(self)@ == Seq::<u8>::empty(),
            final(self).sink() == old(self).sink(),
    {
        self.buffer.clear();
    }
}

/// A completed write takes exactly what it wrote from the front: the
/// written bytes followed by what stays pending are the bytes that were
/// pending. A write that has to wait takes nothing.
pub proof fn lemma_sink_keeps_stream(pending: Seq<u8>, written: usize)
    requires
        written <= pending.len(),
    ensures
        pending.take(written as int) + sink_polled(pending, Polled::<()>::Done(written))
            == pending,
        sink_polled(pending, Polled::<()>::Pending) == pending,
{
}

/// A sink that would block forever costs nothing. A transfer whose poll has
/// to wait reports all of `buf` as accepted and keeps every byte pending,
/// the old ones followed by `buf`.
pub proof fn lemma_transfer_on_waiting_sink<E>(pending: Seq<u8>, buf: Seq<u8>)
    requires
        buf.len() <= usize::MAX,
    ensures
        sink_transfer(pending, buf, Polled::<E>::Pending) == (
            pending + buf,
            Ok::<u64, E>(buf.len() as u64),
        ),
{
}

/// A transfer accepts all of `buf` whatever the sink took: unless the sink
/// fails, the report is the length of `buf`, and the bytes that the sink
/// wrote followed by those still pending are the old pending bytes followed
/// by `buf`.
pub proof fn lemma_transfer_accepts_all<E>(pending: Seq<u8>, buf: Seq<u8>, written: usize)
    requires
        buf.len() <= usize::MAX,
        written <= pending.len() + buf.len(),
    ensures
        sink_transfer(pending, buf, Polled::<E>::Done(written)).1 == Ok::<u64, E>(
            buf.len() as u64,
        ),
        (pending + buf).take(written as int) + sink_transfer(
            pending,
            buf,
            Polled::<E>::Done(written),
        ).0 == pending + buf,
{
    let all = pending + buf;
    assert(all.take(written as int) + all.skip(written as int) =~= all);
}

} // verus!
