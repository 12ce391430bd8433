use wasi_streams::channel::TryReceived;
use wasi_streams::channel::TrySent;
use wasi_streams::input_pipe::InputPipe;
use wasi_streams::output_pipe::OutputPipe;
use wasi_streams::output_pipe::ReadyAction;
use wasi_streams::pipe::pipe;
use wasi_streams::state::StreamError;
use wasi_streams::state::StreamState;

#[test]
fn read_with_chunk_larger_than_the_room() {
    let (mut input, _output) = pipe(1);
    let mut dest = [0u8; 3];
    let res = input.read_with(&mut dest, TryReceived::Chunk(b"abcdef".to_vec()));
    assert_eq!(res, Ok((3, StreamState::Open)));
    assert_eq!(&dest, b"abc");
    assert_eq!(input.pending_len(), 3);

    let mut dest = [9u8; 5];
    let res = input.read_with(&mut dest, TryReceived::Chunk(b"XY".to_vec()));
    assert_eq!(res, Ok((5, StreamState::Open)));
    assert_eq!(&dest, b"defXY");
    assert_eq!(input.pending_len(), 0);
}

#[test]
fn read_with_chunk_smaller_than_the_room() {
    let (mut input, _output) = pipe(1);
    let mut dest = [9u8; 4];
    let res = input.read_with(&mut dest, TryReceived::Chunk(b"ab".to_vec()));
    assert_eq!(res, Ok((2, StreamState::Open)));
    assert_eq!(dest, [b'a', b'b', 9, 9]);
    assert_eq!(input.pending_len(), 0);
}

#[test]
fn read_with_keeps_a_chunk_behind_full_pending_bytes() {
    let (mut input, _output) = pipe(1);
    assert_eq!(input.accept(Some(b"abcd".to_vec())), Ok(()));
    let mut dest = [0u8; 2];
    let res = input.read_with(&mut dest, TryReceived::Chunk(b"ef".to_vec()));
    assert_eq!(res, Ok((2, StreamState::Open)));
    assert_eq!(&dest, b"ab");
    assert_eq!(input.pending_len(), 4);
    let mut dest = [0u8; 8];
    let res = input.read_with(&mut dest, TryReceived::Empty);
    assert_eq!(res, Ok((4, StreamState::Open)));
    assert_eq!(&dest[..4], b"cdef");
}

#[test]
fn read_with_disconnect_closes_and_delivers_pending() {
    let (mut input, _output) = pipe(1);
    assert_eq!(input.accept(Some(b"z".to_vec())), Ok(()));
    let mut dest = [0u8; 2];
    let res = input.read_with(&mut dest, TryReceived::Disconnected);
    assert_eq!(res, Ok((1, StreamState::Closed)));
    assert_eq!(dest, [b'z', 0]);
    assert_eq!(input.state(), StreamState::Closed);
    let res = input.read_with(&mut dest, TryReceived::Empty);
    assert_eq!(res, Ok((0, StreamState::Closed)));
}

#[test]
fn accept_appends_or_closes() {
    let (mut input, _output) = pipe(1);
    assert_eq!(input.accept(Some(b"ab".to_vec())), Ok(()));
    assert_eq!(input.accept(Some(b"c".to_vec())), Ok(()));
    assert_eq!(input.pending_len(), 3);
    assert_eq!(input.state(), StreamState::Open);
    assert_eq!(input.accept(None), Ok(()));
    assert_eq!(input.state(), StreamState::Closed);
    assert_eq!(input.pending_len(), 3);
    let mut dest = [0u8; 3];
    assert_eq!(
        input.read_with(&mut dest, TryReceived::Empty),
        Ok((3, StreamState::Closed))
    );
    assert_eq!(&dest, b"abc");
}

#[test]
fn new_endpoints_start_empty() {
    let (sender, receiver) = tokio::sync::mpsc::channel::<Vec<u8>>(3);
    let input = InputPipe::new(receiver);
    let output = OutputPipe::new(sender);
    assert_eq!(input.state(), StreamState::Open);
    assert_eq!(input.pending_len(), 0);
    assert_eq!(output.pending_len(), 0);
    assert!(!output.is_reserved());
    assert!(!output.is_failed());
    assert!(output.sender().is_some());
}

#[test]
fn settle_accepted_leaves_the_endpoint_alone() {
    let (_input, mut output) = pipe(1);
    assert_eq!(output.settle(5, TrySent::Accepted), Ok(5));
    assert_eq!(output.pending_len(), 0);
    assert!(!output.is_failed());
}

#[test]
fn settle_full_keeps_the_returned_chunk_in_front() {
    let (mut input, mut output) = pipe(1);
    assert_eq!(output.write(b"first"), Ok(5));
    // The channel is full: "cd" stays pending.
    assert_eq!(output.write(b"cd"), Ok(2));
    assert_eq!(output.pending_len(), 2);
    // A chunk handed back goes in front of it.
    assert_eq!(output.settle(2, TrySent::Full(b"ab".to_vec())), Ok(2));
    assert_eq!(output.pending_len(), 4);
    assert!(!output.is_failed());

    let mut dest = [0u8; 8];
    assert_eq!(input.read(&mut dest), Ok((5, StreamState::Open)));
    assert_eq!(output.write(b"e"), Ok(1));
    assert_eq!(output.pending_len(), 0);
    assert_eq!(input.read(&mut dest), Ok((5, StreamState::Open)));
    assert_eq!(&dest[..5], b"abcde");
}

#[test]
fn settle_closed_is_the_terminal_failure() {
    let (_input, mut output) = pipe(1);
    assert_eq!(
        output.settle(3, TrySent::Closed(b"abc".to_vec())),
        Err(StreamError::PipeClosed)
    );
    assert!(output.is_failed());
    assert_eq!(output.pending_len(), 0);
    assert_eq!(output.write(b"x"), Err(StreamError::PipeClosed));
    assert!(matches!(
        output.ready_action(),
        Err(StreamError::PipeClosed)
    ));
}

#[test]
fn ready_action_plans_flush_then_reserve() {
    let (_input, mut output) = pipe(1);
    assert!(matches!(output.ready_action(), Ok(ReadyAction::Reserve)));
    assert_eq!(output.write(b"fill"), Ok(4));
    assert_eq!(output.write(b"more"), Ok(4));
    match output.ready_action() {
        Ok(ReadyAction::Flush(chunk)) => assert_eq!(chunk, b"more"),
        other => panic!("a flush was due, not {:?}", other),
    }
    // The bytes stay pending until the send is confirmed.
    assert_eq!(output.pending_len(), 4);
    assert_eq!(output.flushed(true), Ok(()));
    assert_eq!(output.pending_len(), 0);
    assert!(matches!(output.ready_action(), Ok(ReadyAction::Reserve)));
}

#[test]
fn refused_waits_fail_the_endpoint() {
    let (_input, mut output) = pipe(1);
    assert_eq!(output.flushed(false), Err(StreamError::PipeClosed));
    assert!(output.is_failed());

    let (_input, mut output) = pipe(1);
    assert_eq!(output.reserved(None), Err(StreamError::PipeClosed));
    assert!(output.is_failed());
}

#[test]
fn reserved_permit_is_held_until_used() {
    let runtime = tokio::runtime::Builder::new_current_thread()
        .build()
        .expect("a current-thread runtime");
    let (mut input, mut output) = pipe(1);
    let sender = output.sender().expect("a new endpoint has the plain handle").clone();
    let permit = runtime.block_on(sender.reserve_owned()).ok();
    assert_eq!(output.reserved(permit), Ok(()));
    assert!(output.is_reserved());
    assert!(output.sender().is_none());
    assert!(matches!(output.ready_action(), Ok(ReadyAction::Done)));
    assert!(output.is_reserved());

    assert_eq!(output.write(b"go"), Ok(2));
    assert!(!output.is_reserved());
    let mut dest = [0u8; 2];
    assert_eq!(input.read(&mut dest), Ok((2, StreamState::Open)));
    assert_eq!(&dest, b"go");
}
