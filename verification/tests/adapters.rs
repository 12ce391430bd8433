use std::pin::Pin;
use std::task::Context;
use std::task::Poll;
use std::task::Waker;
use tokio::io::AsyncRead;
use tokio::io::AsyncReadExt;
use tokio::io::AsyncWrite;
use tokio::io::AsyncWriteExt;
use wasi_streams::poll::Polled;
use wasi_streams::state::StreamState;
use wasi_streams::wrapped_read::ReadProgress;
use wasi_streams::wrapped_read::WrappedRead;
use wasi_streams::wrapped_read::READ_CHUNK;
use wasi_streams::wrapped_write::WrappedWrite;

fn adapter_runtime() -> tokio::runtime::Runtime {
    tokio::runtime::Builder::new_current_thread()
        .build()
        .expect("a current-thread runtime")
}

/// One poll of a read into `dest`, woken by nobody.
fn poll_read_once<T: AsyncRead + Unpin>(reader: &mut T, dest: &mut [u8]) -> Polled<std::io::Error> {
    let mut readbuf = tokio::io::ReadBuf::new(dest);
    let mut cx = Context::from_waker(Waker::noop());
    match Pin::new(reader).poll_read(&mut cx, &mut readbuf) {
        Poll::Pending => Polled::Pending,
        Poll::Ready(Ok(())) => Polled::Done(readbuf.filled().len()),
        Poll::Ready(Err(error)) => Polled::Failed(error),
    }
}

/// One poll of a write of `bytes`, woken by nobody.
fn poll_write_once<T: AsyncWrite + Unpin>(writer: &mut T, bytes: &[u8]) -> Polled<std::io::Error> {
    let mut cx = Context::from_waker(Waker::noop());
    match Pin::new(writer).poll_write(&mut cx, bytes) {
        Poll::Pending => Polled::Pending,
        Poll::Ready(Ok(written)) => Polled::Done(written),
        Poll::Ready(Err(error)) => Polled::Failed(error),
    }
}

/// The non-suspending transfer of an adapted source.
fn source_transfer<T: AsyncRead + Unpin>(
    wrapped: &mut WrappedRead<T>,
    dest: &mut [u8],
) -> Result<(u64, StreamState), std::io::Error> {
    match wrapped.read_buffered(dest) {
        ReadProgress::Done(count, state) => Ok((count, state)),
        ReadProgress::Poll(copied) => {
            let polled = poll_read_once(wrapped.reader(), &mut dest[copied..]);
            wrapped.read_polled(copied, polled)
        }
    }
}

/// The suspending readiness of an adapted source.
async fn source_ready<T: AsyncRead + Unpin>(wrapped: &mut WrappedRead<T>) -> Result<(), std::io::Error> {
    if let Some(size) = wrapped.read_request() {
        let mut scratch = vec![0u8; size];
        let count = wrapped.reader().read(&mut scratch).await?;
        wrapped.fill(&scratch[..count]);
    }
    Ok(())
}

/// The non-suspending transfer of an adapted sink.
fn sink_transfer<T: AsyncWrite + Unpin>(
    wrapped: &mut WrappedWrite<T>,
    buf: &[u8],
) -> Result<u64, std::io::Error> {
    wrapped.write_buffered(buf);
    let (writer, pending) = wrapped.parts();
    let polled = poll_write_once(writer, pending);
    wrapped.write_polled(buf.len(), polled)
}

/// The suspending readiness of an adapted sink.
async fn sink_ready<T: AsyncWrite + Unpin>(wrapped: &mut WrappedWrite<T>) -> Result<(), std::io::Error> {
    let (writer, pending) = wrapped.parts();
    if !pending.is_empty() {
        writer.write_all(pending).await?;
    }
    wrapped.flushed();
    Ok(())
}

#[test]
fn source_read_over_several_underlying_reads() {
    let runtime = adapter_runtime();
    let (mut far, near) = tokio::io::duplex(64);
    let mut wrapped = WrappedRead::new(near);
    let mut got = Vec::new();
    let mut dest = [0u8; 4];

    runtime.block_on(far.write_all(b"hel")).expect("the stream takes it");
    assert_eq!(source_transfer(&mut wrapped, &mut dest).unwrap(), (3, StreamState::Open));
    got.extend_from_slice(&dest[..3]);

    // Nothing to read right now: no progress, and not the end.
    assert_eq!(source_transfer(&mut wrapped, &mut dest).unwrap(), (0, StreamState::Open));

    runtime.block_on(far.write_all(b"lo, world")).expect("the stream takes it");
    assert_eq!(source_transfer(&mut wrapped, &mut dest).unwrap(), (4, StreamState::Open));
    got.extend_from_slice(&dest);
    assert_eq!(source_transfer(&mut wrapped, &mut dest).unwrap(), (4, StreamState::Open));
    got.extend_from_slice(&dest);
    assert_eq!(source_transfer(&mut wrapped, &mut dest).unwrap(), (1, StreamState::Open));
    got.extend_from_slice(&dest[..1]);
    assert_eq!(got, b"hello, world");

    drop(far);
    // The read that returns no bytes is the one that closes.
    assert_eq!(source_transfer(&mut wrapped, &mut dest).unwrap(), (0, StreamState::Closed));
    assert_eq!(wrapped.state(), StreamState::Closed);
    assert_eq!(source_transfer(&mut wrapped, &mut dest).unwrap(), (0, StreamState::Closed));
}

#[test]
fn source_ready_buffers_and_transfer_drains_in_order() {
    let runtime = adapter_runtime();
    let (mut far, near) = tokio::io::duplex(64);
    let mut wrapped = WrappedRead::new(near);

    runtime.block_on(far.write_all(b"abcdef")).expect("the stream takes it");
    runtime.block_on(source_ready(&mut wrapped)).unwrap();
    assert_eq!(wrapped.pending_len(), 6);
    runtime.block_on(far.write_all(b"gh")).expect("the stream takes it");
    runtime.block_on(source_ready(&mut wrapped)).unwrap();
    assert_eq!(wrapped.pending_len(), 8);
    runtime.block_on(far.write_all(b"ij")).expect("the stream takes it");

    let mut dest = [0u8; 5];
    // Bytes stay pending: the source is left alone.
    assert_eq!(source_transfer(&mut wrapped, &mut dest).unwrap(), (5, StreamState::Open));
    assert_eq!(&dest, b"abcde");
    assert_eq!(wrapped.pending_len(), 3);
    // The pending bytes run out: the rest of the room is polled for.
    assert_eq!(source_transfer(&mut wrapped, &mut dest).unwrap(), (5, StreamState::Open));
    assert_eq!(&dest, b"fghij");
    assert_eq!(wrapped.pending_len(), 0);

    drop(far);
    runtime.block_on(source_ready(&mut wrapped)).unwrap();
    assert_eq!(wrapped.state(), StreamState::Closed);
    assert_eq!(wrapped.read_request(), None);
    runtime.block_on(source_ready(&mut wrapped)).unwrap();
    assert_eq!(source_transfer(&mut wrapped, &mut dest).unwrap(), (0, StreamState::Closed));
}

#[test]
fn source_closed_by_ready_still_delivers_pending_bytes() {
    let mut wrapped = WrappedRead::new(tokio::io::empty());
    wrapped.fill(b"tail");
    wrapped.fill(b"");
    assert_eq!(wrapped.state(), StreamState::Closed);
    let mut dest = [0u8; 3];
    // Bytes remain, and the state reported is the endpoint's own.
    assert_eq!(wrapped.read_buffered(&mut dest), ReadProgress::Done(3, StreamState::Closed));
    assert_eq!(&dest, b"tai");
    assert_eq!(wrapped.read_buffered(&mut dest), ReadProgress::Done(1, StreamState::Closed));
    assert_eq!(dest[0], b'l');
    assert_eq!(wrapped.read_buffered(&mut dest), ReadProgress::Done(0, StreamState::Closed));
}

#[test]
fn source_that_blocks_forever_reports_no_progress() {
    let (_far, near) = tokio::io::duplex(8);
    let mut wrapped = WrappedRead::new(near);
    let mut dest = [3u8; 4];
    for _ in 0..3 {
        assert_eq!(source_transfer(&mut wrapped, &mut dest).unwrap(), (0, StreamState::Open));
    }
    assert_eq!(dest, [3u8; 4]);
    assert_eq!(wrapped.state(), StreamState::Open);
    assert_eq!(wrapped.read_request(), Some(READ_CHUNK));
    assert_eq!(READ_CHUNK, 1024);
}

#[test]
fn source_steps_on_given_answers() {
    let mut wrapped = WrappedRead::new(tokio::io::empty());
    let mut dest = [0u8; 4];
    assert_eq!(wrapped.read_buffered(&mut dest), ReadProgress::Poll(0));
    assert_eq!(
        wrapped.read_polled::<String>(0, Polled::Pending),
        Ok((0, StreamState::Open))
    );
    assert_eq!(
        wrapped.read_polled::<String>(1, Polled::Done(3)),
        Ok((4, StreamState::Open))
    );
    assert_eq!(
        wrapped.read_polled(2, Polled::Failed(String::from("torn"))),
        Err(String::from("torn"))
    );
    assert_eq!(wrapped.state(), StreamState::Open);
    assert_eq!(
        wrapped.read_polled::<String>(2, Polled::Done(0)),
        Ok((2, StreamState::Closed))
    );
    assert_eq!(wrapped.state(), StreamState::Closed);

    let mut none: [u8; 0] = [];
    let mut open = WrappedRead::new(tokio::io::empty());
    assert_eq!(open.read_buffered(&mut none), ReadProgress::Done(0, StreamState::Open));
    open.fill(b"ab");
    assert_eq!(open.read_buffered(&mut dest), ReadProgress::Poll(2));
    assert_eq!(&dest[..2], b"ab");
}

#[test]
fn source_at_its_end_closes_on_first_transfer() {
    let mut wrapped = WrappedRead::new(tokio::io::empty());
    let mut dest = [0u8; 4];
    assert_eq!(source_transfer(&mut wrapped, &mut dest).unwrap(), (0, StreamState::Closed));
}

#[test]
fn sink_writes_through_when_the_sink_takes_it() {
    let mut wrapped = WrappedWrite::new(Vec::<u8>::new());
    assert_eq!(sink_transfer(&mut wrapped, b"abc").unwrap(), 3);
    assert_eq!(wrapped.pending_len(), 0);
    assert_eq!(sink_transfer(&mut wrapped, b"de").unwrap(), 2);
    let (writer, pending) = wrapped.parts();
    assert_eq!(writer.as_slice(), b"abcde");
    assert!(pending.is_empty());
}

#[test]
fn sink_that_blocks_buffers_everything() {
    let runtime = adapter_runtime();
    let (near, mut far) = tokio::io::duplex(4);
    let mut wrapped = WrappedWrite::new(near);
    // Four bytes fit into the stream, the rest stays pending.
    assert_eq!(sink_transfer(&mut wrapped, b"abcdef").unwrap(), 6);
    assert_eq!(wrapped.pending_len(), 2);
    // The stream is full: the write has to wait and nothing moves.
    assert_eq!(sink_transfer(&mut wrapped, b"gh").unwrap(), 2);
    assert_eq!(wrapped.pending_len(), 4);
    assert_eq!(sink_transfer(&mut wrapped, b"").unwrap(), 0);
    assert_eq!(wrapped.pending_len(), 4);

    let mut got = [0u8; 4];
    runtime.block_on(far.read_exact(&mut got)).expect("four bytes are there");
    assert_eq!(&got, b"abcd");
    runtime.block_on(sink_ready(&mut wrapped)).unwrap();
    assert_eq!(wrapped.pending_len(), 0);
    runtime.block_on(far.read_exact(&mut got)).expect("four bytes are there");
    assert_eq!(&got, b"efgh");
}

#[test]
fn sink_steps_on_given_answers() {
    let mut wrapped = WrappedWrite::new(tokio::io::sink());
    wrapped.write_buffered(b"abcdef");
    assert_eq!(wrapped.pending_len(), 6);
    assert_eq!(wrapped.write_polled::<String>(6, Polled::Pending), Ok(6));
    assert_eq!(wrapped.pending_len(), 6);
    assert_eq!(wrapped.write_polled::<String>(6, Polled::Done(4)), Ok(6));
    assert_eq!(wrapped.pending_len(), 2);
    assert_eq!(wrapped.parts().1, b"ef");
    assert_eq!(wrapped.write_polled::<String>(0, Polled::Done(2)), Ok(0));
    assert_eq!(wrapped.pending_len(), 0);
    wrapped.write_buffered(b"xy");
    assert_eq!(
        wrapped.write_polled(2, Polled::Failed(String::from("gone"))),
        Err(String::from("gone"))
    );
    assert_eq!(wrapped.pending_len(), 0);
    wrapped.write_buffered(b"z");
    wrapped.flushed();
    assert_eq!(wrapped.pending_len(), 0);
}

#[test]
fn sink_error_is_passed_on_unchanged() {
    let (near, far) = tokio::io::duplex(4);
    drop(far);
    let mut wrapped = WrappedWrite::new(near);
    let error = sink_transfer(&mut wrapped, b"abc").unwrap_err();
    assert_eq!(error.kind(), std::io::ErrorKind::BrokenPipe);
}

#[test]
fn closed_source_reports_its_state_while_bytes_remain() {
    let mut wrapped = WrappedRead::new(tokio::io::empty());
    wrapped.fill(b"abcd");
    wrapped.fill(b"");
    let mut dest = [0u8; 3];
    assert_eq!(source_transfer(&mut wrapped, &mut dest).unwrap(), (3, StreamState::Closed));
    assert_eq!(&dest, b"abc");
    assert_eq!(wrapped.pending_len(), 1);
    assert_eq!(source_transfer(&mut wrapped, &mut dest).unwrap(), (1, StreamState::Closed));
    assert_eq!(dest[0], b'd');
    assert_eq!(source_transfer(&mut wrapped, &mut dest).unwrap(), (0, StreamState::Closed));
}

#[test]
fn open_source_reports_open_while_bytes_remain() {
    let mut wrapped = WrappedRead::new(tokio::io::empty());
    wrapped.fill(b"abcd");
    let mut dest = [0u8; 3];
    assert_eq!(wrapped.read_buffered(&mut dest), ReadProgress::Done(3, StreamState::Open));
    assert_eq!(wrapped.state(), StreamState::Open);
}
