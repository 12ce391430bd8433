//! The bounded chunk channel between the two ends of a pipe.
//!
//! The channel is tokio's bounded multi-producer channel carrying `Vec<u8>`
//! chunks. Everything in this file is a declaration or a contract that the
//! verifier takes on trust; the contracts say only what the channel's source
//! shows of each call, whatever the other end is doing at the time.

use vstd::prelude::*;

verus! {

/// tokio's receiving half, carried as an opaque value.
#[verifier::external_type_specification]
#[verifier::external_body]
#[verifier::reject_recursive_types(T)]
pub struct ExReceiver<T>(tokio::sync::mpsc::Receiver<T>);

/// tokio's sending half, carried as an opaque value.
#[verifier::external_type_specification]
#[verifier::external_body]
#[verifier::reject_recursive_types(T)]
pub struct ExSender<T>(tokio::sync::mpsc::Sender<T>);

/// tokio's owned permit: one reserved slot of the channel together with the
/// sender it was reserved from.
#[verifier::external_type_specification]
#[verifier::external_body]
#[verifier::reject_recursive_types(T)]
pub struct ExOwnedPermit<T>(tokio::sync::mpsc::OwnedPermit<T>);

/// What one non-suspending receive attempt found.
#[derive(Debug)]
pub enum TryReceived {
    /// The next chunk of the channel.
    Chunk(Vec<u8>),
    /// Nothing is queued right now; the producer still exists.
    Empty,
    /// Nothing is queued and the producer is gone.
    Disconnected,
}

/// What one non-suspending send attempt came to. A refused chunk is handed
/// back.
#[derive(Debug)]
pub enum TrySent {
    /// The chunk is in the channel.
    Accepted,
    /// Every slot of the channel is taken.
    Full(Vec<u8>),
    /// The consumer is gone.
    Closed(Vec<u8>),
}

/// The mathematical value of a receive attempt.
pub enum Arrival {
    Chunk(Seq<u8>),
    Empty,
    Disconnected,
}

/// The mathematical value of a send attempt: the refused bytes are dropped
/// from it, since they are the bytes that were offered.
pub enum Dispatch {
    Accepted,
    Full,
    Closed,
}

impl View for TryReceived {
    type V = Arrival;

    open spec fn view(&self) -> Arrival {
        match self {
            TryReceived::Chunk(bytes) => Arrival::Chunk(bytes@),
            TryReceived::Empty => Arrival::Empty,
            TryReceived::Disconnected => Arrival::Disconnected,
        }
    }
}

impl View for TrySent {
    type V = Dispatch;

    open spec fn view(&self) -> Dispatch {
        match self {
            TrySent::Accepted => Dispatch::Accepted,
            TrySent::Full(_) => Dispatch::Full,
            TrySent::Closed(_) => Dispatch::Closed,
        }
    }
}

impl TrySent {
    /// The chunk that the channel handed back, if it refused one.
    pub open spec fn returned(&self) -> Option<Seq<u8>> {
        match self {
            TrySent::Accepted => None,
            TrySent::Full(bytes) => Some(bytes@),
            TrySent::Closed(bytes) => Some(bytes@),
        }
    }
}

/// The queue bounds that the channel can be made with: at least one slot, and
/// no more than an eighth of the address space.
pub open spec fn bound_accepted(bound: usize) -> bool {
    0 < bound <= usize::MAX / 8
}

/// Decides `bound_accepted`.
pub fn is_bound_accepted(bound: usize) -> (r: bool)
    ensures
        r == bound_accepted(bound),
{
    0 < bound && bound <= usize::MAX / 8
}

/// `tokio::sync::mpsc::channel`. It panics on a bound of zero and on one
/// above its semaphore's maximum, `usize::MAX >> 3`, which `requires` leaves
/// out. Nothing is claimed of the two halves.
#[verifier::external_body]
pub(crate) fn open_channel(bound: usize) -> (halves: (
    tokio::sync::mpsc::Sender<Vec<u8>>,
    tokio::sync::mpsc::Receiver<Vec<u8>>,
))
    requires
        bound_accepted(bound),
{
    tokio::sync::mpsc::channel(bound)
}

/// `Receiver::try_recv`. Which of the three outcomes comes depends on what the
/// producer has done so far, so nothing is claimed of it.
#[verifier::external_body]
pub(crate) fn try_receive(receiver: &mut tokio::sync::mpsc::Receiver<Vec<u8>>) -> (got: TryReceived) {
    match receiver.try_recv() {
        Ok(bytes) => TryReceived::Chunk(bytes),
        Err(tokio::sync::mpsc::error::TryRecvError::Empty) => TryReceived::Empty,
        Err(tokio::sync::mpsc::error::TryRecvError::Disconnected) => TryReceived::Disconnected,
    }
}

/// `Sender::try_send`. Which outcome comes depends on the consumer; the claim
/// is only that a refusal carries the very chunk that was offered, as both
/// error variants are built from the argument.
#[verifier::external_body]
pub(crate) fn try_send(sender: &tokio::sync::mpsc::Sender<Vec<u8>>, chunk: Vec<u8>) -> (sent: TrySent)
    ensures
        sent.returned() is Some ==> sent.returned() == Some(chunk@),
{
    match sender.try_send(chunk) {
        Ok(()) => TrySent::Accepted,
        Err(tokio::sync::mpsc::error::TrySendError::Full(bytes)) => TrySent::Full(bytes),
        Err(tokio::sync::mpsc::error::TrySendError::Closed(bytes)) => TrySent::Closed(bytes),
    }
}

/// `OwnedPermit::send`: the chunk goes into the reserved slot and the sender
/// comes back. The call cannot fail; nothing is claimed of the sender.
#[verifier::external_body]
pub(crate) fn send_reserved(
    permit: tokio::sync::mpsc::OwnedPermit<Vec<u8>>,
    chunk: Vec<u8>,
) -> (sender: tokio::sync::mpsc::Sender<Vec<u8>>) {
    permit.send(chunk)
}

} // verus!
