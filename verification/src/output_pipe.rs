//! The producing end of a pipe.

use crate::channel::send_reserved;
use crate::channel::try_send;
use crate::channel::Dispatch;
use crate::channel::TrySent;
use crate::state::StreamError;
use vstd::prelude::*;

verus! {

/// What a producing endpoint holds of the channel.
pub enum Hold {
    /// The plain sending handle: a send may find the channel full.
    Plain,
    /// One reserved slot: the next send cannot fail.
    Reserved,
    /// Nothing: the consumer was found gone, and the endpoint has failed for
    /// good.
    Failed,
}

/// The mathematical value of a producing endpoint: the bytes it has accepted
/// and not yet handed to the channel, and what it holds of the channel.
pub struct OutputModel {
    pub pending: Seq<u8>,
    pub hold: Hold,
}

/// One transfer step of a producing endpoint.
pub struct OutputStep {
    /// The endpoint after the step.
    pub post: OutputModel,
    /// What the step reports: the number of bytes accepted, or the failure.
    pub result: Result<u64, StreamError>,
    /// The chunk that the step put into the channel, if it put one.
    pub sent: Option<Seq<u8>>,
}

/// A transfer of `buf`, given what the send attempt came to (which matters
/// only for an endpoint that holds the plain handle). The pending bytes
/// followed by `buf` form the chunk to send. A reservation always sends it
/// and is used up; the plain handle sends it, keeps it pending when the
/// channel is full, or fails for good when the consumer is gone. A failed
/// endpoint stays failed and accepts nothing.
pub open spec fn output_transfer(pre: OutputModel, buf: Seq<u8>, dispatch: Dispatch) -> OutputStep {
    let chunk = pre.pending + buf;
    let accepted = Ok::<u64, StreamError>(buf.len() as u64);
    let flushed = OutputModel { pending: Seq::<u8>::empty(), hold: Hold::Plain };
    match pre.hold {
        Hold::Failed => OutputStep {
            post: pre,
            result: Err(StreamError::PipeClosed),
            sent: None,
        },
        Hold::Reserved => OutputStep { post: flushed, result: accepted, sent: Some(chunk) },
        Hold::Plain => match dispatch {
            Dispatch::Accepted => OutputStep {
                post: flushed,
                result: accepted,
                sent: Some(chunk),
            },
            Dispatch::Full => OutputStep {
                post: OutputModel { pending: chunk, hold: Hold::Plain },
                result: accepted,
                sent: None,
            },
            Dispatch::Closed => OutputStep {
                post: OutputModel { pending: Seq::<u8>::empty(), hold: Hold::Failed },
                result: Err(StreamError::PipeClosed),
                sent: None,
            },
        },
    }
}

/// What a transfer of `buf` that was answered by `dispatch` leaves behind:
/// the endpoint after it, and what it reports.
pub open spec fn output_transferred(
    pre: OutputModel,
    buf: Seq<u8>,
    dispatch: Dispatch,
    post: OutputModel,
    res: Result<u64, StreamError>,
) -> bool {
    post == output_transfer(pre, buf, dispatch).post && res == output_transfer(
        pre,
        buf,
        dispatch,
    ).result
}

/// The endpoint after a send attempt of a chunk taken from it has been
/// answered: a chunk that came back goes in front of what is pending, and a
/// closed channel is final.
pub open spec fn output_settled(pre: OutputModel, dispatch: Dispatch, returned: Seq<u8>)
    -> OutputModel {
    match dispatch {
        Dispatch::Accepted => pre,
        Dispatch::Full => OutputModel { pending: returned + pre.pending, hold: pre.hold },
        Dispatch::Closed => OutputModel { pending: pre.pending, hold: Hold::Failed },
    }
}

/// What a producing endpoint must wait for next to become ready.
pub enum ReadyPlan {
    /// The pending bytes, to be sent with a suspending send.
    Flush(Seq<u8>),
    /// A slot of the channel, to be reserved with a suspending reserve.
    Reserve,
    /// Nothing: a slot is held and nothing is pending.
    Done,
}

/// The executable form of `ReadyPlan`.
#[derive(Debug)]
pub enum ReadyAction {
    Flush(Vec<u8>),
    Reserve,
    Done,
}

impl View for ReadyAction {
    type V = ReadyPlan;

    open spec fn view(&self) -> ReadyPlan {
        match self {
            ReadyAction::Flush(bytes) => ReadyPlan::Flush(bytes@),
            ReadyAction::Reserve => ReadyPlan::Reserve,
            ReadyAction::Done => ReadyPlan::Done,
        }
    }
}

/// One planning step of becoming ready: the endpoint after it, what to wait
/// for, and the chunk that the step itself put into the channel, if any.
pub struct ReadyStep {
    pub post: OutputModel,
    pub plan: Result<ReadyPlan, StreamError>,
    pub sent: Option<Seq<u8>>,
}

/// Plans the next wait. Pending bytes are flushed first: a held reservation
/// sends them at once, the plain handle has to wait for the send. With
/// nothing pending the endpoint needs a reservation, and is ready once it
/// holds one. A failed endpoint never becomes ready.
pub open spec fn output_ready_plan(pre: OutputModel) -> ReadyStep {
    match pre.hold {
        Hold::Failed => ReadyStep { post: pre, plan: Err(StreamError::PipeClosed), sent: None },
        Hold::Reserved => if pre.pending.len() > 0 {
            ReadyStep {
                post: OutputModel { pending: Seq::<u8>::empty(), hold: Hold::Plain },
                plan: Ok(ReadyPlan::Reserve),
                sent: Some(pre.pending),
            }
        } else {
            ReadyStep { post: pre, plan: Ok(ReadyPlan::Done), sent: None }
        },
        Hold::Plain => if pre.pending.len() > 0 {
            ReadyStep { post: pre, plan: Ok(ReadyPlan::Flush(pre.pending)), sent: None }
        } else {
            ReadyStep { post: pre, plan: Ok(ReadyPlan::Reserve), sent: None }
        },
    }
}

/// The endpoint after a suspending send of its pending bytes has resolved:
/// delivered, or refused because the consumer is gone.
pub open spec fn output_flushed(pre: OutputModel, delivered: bool) -> OutputModel {
    if delivered {
        OutputModel { pending: Seq::<u8>::empty(), hold: pre.hold }
    } else {
        OutputModel { pending: pre.pending, hold: Hold::Failed }
    }
}

/// The endpoint after a suspending reserve has resolved: with a slot, or
/// refused because the consumer is gone.
pub open spec fn output_reserved(pre: OutputModel, granted: bool) -> OutputModel {
    OutputModel {
        pending: pre.pending,
        hold: if granted {
            Hold::Reserved
        } else {
            Hold::Failed
        },
    }
}

/// The two forms in which an endpoint holds the channel.
pub enum SenderState {
    /// A reserved slot, with the sender it was reserved from.
    Writable(tokio::sync::mpsc::OwnedPermit<Vec<u8>>),
    /// The plain sender.
    Channel(tokio::sync::mpsc::Sender<Vec<u8>>),
}

/// The producing end of a pipe.
pub struct OutputPipe {
    buffer: Vec<u8>,
    channel: Option<SenderState>,
}

impl View for OutputPipe {
    type V = OutputModel;

    closed spec fn view(&self) -> OutputModel {
        OutputModel {
            pending: self.buffer@,
            hold: hold_of(self.channel),
        }
    }
}

/// What an endpoint with this handle holds of the channel.
pub open spec fn hold_of(held: Option<SenderState>) -> Hold {
    match held {
        None => Hold::Failed,
        Some(SenderState::Writable(_)) => Hold::Reserved,
        Some(SenderState::Channel(_)) => Hold::Plain,
    }
}

impl OutputPipe {
    /// The handle of the channel that the endpoint holds: the plain sender,
    /// a permit, or nothing after a failure.
    pub closed spec fn held(&self) -> Option<SenderState> {
        self.channel
    }

    /// What the endpoint holds of the channel is read off the handle it
    /// holds.
    pub proof fn lemma_hold_of_held(&self)
        ensures
            self@.hold == hold_of(self.held()),
    {
    }

    /// An endpoint with nothing pending that holds the plain handle `sender`.
    pub fn new(sender: tokio::sync::mpsc::Sender<Vec<u8>>) -> (pipe: Self)
        ensures
            pipe@ == (OutputModel { pending: Seq::<u8>::empty(), hold: Hold::Plain }),
            pipe.held() == Some(SenderState::Channel(sender)),
    {
        OutputPipe { buffer: Vec::new(), channel: Some(SenderState::Channel(sender)) }
    }

    /// The number of pending bytes.
    pub fn pending_len(&self) -> (len: usize)
        ensures
            len == self@.pending.len(),
    {
        self.buffer.len()
    }

    /// True when the endpoint holds a reserved slot.
    pub fn is_reserved(&self) -> (r: bool)
        ensures
            r == (self@.hold is Reserved),
    {
        match &self.channel {
            Some(SenderState::Writable(_)) => true,
            _ => false,
        }
    }

    /// True once the endpoint has failed for good.
    pub fn is_failed(&self) -> (r: bool)
        ensures
            r == (self@.hold is Failed),
    {
        self.channel.is_none()
    }

    /// The plain sender, for the caller that suspends on it; `None` while a
    /// reservation is held and after a failure.
    pub fn sender(&self) -> (sender: Option<&tokio::sync::mpsc::Sender<Vec<u8>>>)
        ensures
            sender is Some <==> self@.hold is Plain,
            sender matches Some(handle) ==> self.held() == Some(SenderState::Channel(*handle)),
    {
        match &self.channel {
            Some(SenderState::Channel(sender)) => Some(sender),
            _ => None,
        }
    }

    /// Moves the pending bytes out, followed by `buf`.
    fn stage(&mut self, buf: &[u8]) -> (chunk: Vec<u8>)
        ensures
            chunk@ == old(self)@.pending + buf@,
            final(self)@ == (OutputModel { pending: Seq::<u8>::empty(), hold: old(self)@.hold }),
    {
        let mut chunk: Vec<u8> = Vec::new();
        core::mem::swap(&mut chunk, &mut self.buffer);
        chunk.extend_from_slice(buf);
        chunk
    }

    /// Takes in the answer to a send attempt of a staged chunk and reports
    /// `accepted` bytes as taken, unless the channel is closed: a chunk that
    /// the full channel handed back is pending again, in front of anything
    /// accepted since; a closed channel is the endpoint's terminal failure,
    /// after which it holds no handle.
    pub fn settle(&mut self, accepted: usize, sent: TrySent) -> (res: Result<u64, StreamError>)
        ensures
            final(self)@ == output_settled(
                old(self)@,
                sent@,
                match sent.returned() {
                    Some(bytes) => bytes,
                    None => Seq::<u8>::empty(),
                },
            ),
            final(self).held() == if sent@ is Closed {
                None
            } else {
                old(self).held()
            },
            res == if sent@ is Closed {
                Err::<u64, StreamError>(StreamError::PipeClosed)
            } else {
                Ok::<u64, StreamError>(accepted as u64)
            },
    {
        match sent {
            TrySent::Accepted => Ok(accepted as u64),
            TrySent::Full(mut returned) => {
                returned.append(&mut self.buffer);
                self.buffer = returned;
                Ok(accepted as u64)
            },
            TrySent::Closed(_) => {
                // The failure is final: the handle is given up.
                self.channel = None;
                Err(StreamError::PipeClosed)
            },
        }
    }

    /// The non-suspending transfer: `buf` joins the pending bytes and one
    /// attempt is made to hand all of them to the channel. A held reservation
    /// is used up by it and cannot fail; with the plain handle the channel
    /// decides. All of `buf` counts as accepted unless the endpoint has
    /// failed or fails now. An endpoint with the plain handle keeps that
    /// very handle unless it fails, and then holds none.
    pub fn write(&mut self, buf: &[u8]) -> (res: Result<u64, StreamError>)
        ensures
            exists|dispatch: Dispatch| #[trigger]
                output_transferred(old(self)@, buf@, dispatch, final(self)@, res),
            !(old(self)@.hold is Reserved) ==> final(self).held() == if res is Ok {
                old(self).held()
            } else {
                None
            },
    {
        match self.channel.take() {
            None => {
                let res = Err(StreamError::PipeClosed);
                assert(output_transferred(old(self)@, buf@, Dispatch::Closed, self@, res));
                res
            },
            Some(SenderState::Writable(permit)) => {
                let chunk = self.stage(buf);
                let sender = send_reserved(permit, chunk);
                self.channel = Some(SenderState::Channel(sender));
                let res = Ok(buf.len() as u64);
                assert(output_transferred(old(self)@, buf@, Dispatch::Accepted, self@, res));
                res
            },
            Some(SenderState::Channel(sender)) => {
                let chunk = self.stage(buf);
                let sent = try_send(&sender, chunk);
                self.channel = Some(SenderState::Channel(sender));
                let ghost dispatch = sent@;
                let res = self.settle(buf.len(), sent);
                assert(output_transferred(old(self)@, buf@, dispatch, self@, res));
                res
            },
        }
    }

    /// Plans the next wait on the way to being ready, and does at once what
    /// needs no wait: a held reservation sends the pending bytes. In every
    /// other case the endpoint holds the handle it held.
    pub fn ready_action(&mut self) -> (res: Result<ReadyAction, StreamError>)
        ensures
            final(self)@ == output_ready_plan(old(self)@).post,
            match res {
                Ok(action) => output_ready_plan(old(self)@).plan == Ok::<ReadyPlan, StreamError>(
                    action@,
                ),
                Err(e) => output_ready_plan(old(self)@).plan == Err::<ReadyPlan, StreamError>(e),
            },
            !(old(self)@.hold is Reserved && old(self)@.pending.len() > 0) ==> final(self).held()
                == old(self).held(),
    {
        match self.channel.take() {
            None => Err(StreamError::PipeClosed),
            Some(SenderState::Writable(permit)) => {
                if self.buffer.len() > 0 {
                    let chunk = self.stage(&[]);
                    let sender = send_reserved(permit, chunk);
                    self.channel = Some(SenderState::Channel(sender));
                    Ok(ReadyAction::Reserve)
                } else {
                    self.channel = Some(SenderState::Writable(permit));
                    Ok(ReadyAction::Done)
                }
            },
            Some(SenderState::Channel(sender)) => {
                self.channel = Some(SenderState::Channel(sender));
                if self.buffer.len() > 0 {
                    let chunk = self.buffer.clone();
                    Ok(ReadyAction::Flush(chunk))
                } else {
                    Ok(ReadyAction::Reserve)
                }
            },
        }
    }

    /// Takes in how the suspending send of the pending bytes resolved:
    /// delivered, so nothing is pending any more, or refused, which is the
    /// endpoint's terminal failure.
    pub fn flushed(&mut self, delivered: bool) -> (res: Result<(), StreamError>)
        ensures
            final(self)@ == output_flushed(old(self)@, delivered),
            final(self).held() == if delivered {
                old(self).held()
            } else {
                None
            },
            res == if delivered {
                Ok::<(), StreamError>(())
            } else {
                Err::<(), StreamError>(StreamError::PipeClosed)
            },
    {
        if delivered {
            self.buffer.clear();
            Ok(())
        } else {
            self.channel = None;
            Err(StreamError::PipeClosed)
        }
    }

    /// Takes in how the suspending reserve resolved: with a permit, which the
    /// endpoint now holds in place of its handle, or refused, which is the
    /// endpoint's terminal failure.
    pub fn reserved(&mut self, permit: Option<tokio::sync::mpsc::OwnedPermit<Vec<u8>>>) -> (res:
        Result<(), StreamError>)
        ensures
            final(self)@ == output_reserved(old(self)@, permit is Some),
            final(self).held() == match permit {
                Some(granted) => Some(SenderState::Writable(granted)),
                None => None,
            },
            res == if permit is Some {
                Ok::<(), StreamError>(())
            } else {
                Err::<(), StreamError>(StreamError::PipeClosed)
            },
    {
        match permit {
            Some(permit) => {
                self.channel = Some(SenderState::Writable(permit));
                Ok(())
            },
            None => {
                self.channel = None;
                Err(StreamError::PipeClosed)
            },
        }
    }
}

/// How becoming ready ends when the planned waits resolve as given: the
/// plans are followed one after another until nothing is left to wait for
/// or a wait is refused. `delivered` answers the suspending send, `granted`
/// the suspending reserve, where one is made.
pub open spec fn output_ready(pre: OutputModel, delivered: bool, granted: bool) -> (
    OutputModel,
    Result<(), StreamError>,
) {
    let first = output_ready_plan(pre);
    match first.plan {
        Err(error) => (first.post, Err(error)),
        Ok(ReadyPlan::Done) => (first.post, Ok(())),
        Ok(ReadyPlan::Flush(_)) => {
            let flushed = output_flushed(first.post, delivered);
            if delivered {
                output_ready_reserve(flushed, granted)
            } else {
                (flushed, Err(StreamError::PipeClosed))
            }
        },
        Ok(ReadyPlan::Reserve) => output_ready_reserve(first.post, granted),
    }
}

/// The last wait of becoming ready: the reserve.
pub open spec fn output_ready_reserve(pre: OutputModel, granted: bool) -> (
    OutputModel,
    Result<(), StreamError>,
) {
    (
        output_reserved(pre, granted),
        if granted {
            Ok(())
        } else {
            Err(StreamError::PipeClosed)
        },
    )
}

/// Becoming ready succeeds exactly when the endpoint has not failed and no
/// wait is refused, and then the endpoint holds a reservation with nothing
/// pending, which is where the next plan finds nothing left to wait for.
pub proof fn lemma_ready_reserves(pre: OutputModel, delivered: bool, granted: bool)
    ensures
        output_ready(pre, delivered, granted).1 is Ok ==> {
            &&& output_ready(pre, delivered, granted).0.hold is Reserved
            &&& output_ready(pre, delivered, granted).0.pending.len() == 0
            &&& output_ready_plan(output_ready(pre, delivered, granted).0).plan == Ok::<
                ReadyPlan,
                StreamError,
            >(ReadyPlan::Done)
        },
        output_ready(pre, delivered, granted).1 is Err ==> output_ready(
            pre,
            delivered,
            granted,
        ).0.hold is Failed,
        pre.hold is Failed ==> output_ready(pre, delivered, granted).1 is Err,
{
}

/// A transfer right after becoming ready goes through whole. Whatever the
/// channel would answer to an attempt, the transfer accepts all of `buf`,
/// puts exactly `buf` into the channel as one chunk, and leaves nothing
/// pending: the reservation pays for it, and no second attempt is needed.
pub proof fn lemma_transfer_after_ready(
    pre: OutputModel,
    delivered: bool,
    granted: bool,
    buf: Seq<u8>,
    dispatch: Dispatch,
)
    requires
        output_ready(pre, delivered, granted).1 is Ok,
    ensures
        output_transfer(output_ready(pre, delivered, granted).0, buf, dispatch).result == Ok::<
            u64,
            StreamError,
        >(buf.len() as u64),
        output_transfer(output_ready(pre, delivered, granted).0, buf, dispatch).sent == Some(buf),
        output_transfer(output_ready(pre, delivered, granted).0, buf, dispatch).post.pending.len()
            == 0,
{
    lemma_ready_reserves(pre, delivered, granted);
}

/// A transfer that finds the channel full does not wait: it keeps every
/// byte pending, in order, puts nothing into the channel, and still counts
/// `buf` as accepted.
pub proof fn lemma_full_channel_buffers(pre: OutputModel, buf: Seq<u8>)
    requires
        pre.hold is Plain,
    ensures
        output_transfer(pre, buf, Dispatch::Full).post.pending == pre.pending + buf,
        output_transfer(pre, buf, Dispatch::Full).sent is None,
        output_transfer(pre, buf, Dispatch::Full).result is Ok,
{
}

/// A failed endpoint stays failed: every later transfer is refused and
/// changes nothing.
pub proof fn lemma_failure_is_terminal(pre: OutputModel, buf: Seq<u8>, dispatch: Dispatch)
    requires
        pre.hold is Failed,
    ensures
        output_transfer(pre, buf, dispatch).result is Err,
        output_transfer(pre, buf, dispatch).post == pre,
        output_transfer(pre, buf, dispatch).sent is None,
{
}

/// Becoming ready fails when every wait is refused, as it is once the
/// consumer is gone, and leaves the endpoint failed. The one endpoint that
/// has nothing to wait for is left out: it holds a reservation with nothing
/// pending, and is ready as it stands.
pub proof fn lemma_ready_fails_when_refused(pre: OutputModel)
    requires
        !(pre.hold is Reserved && pre.pending.len() == 0),
    ensures
        output_ready(pre, false, false).1 is Err,
        output_ready(pre, false, false).0.hold is Failed,
{
}

} // verus!
