use wasi_streams::state::StreamError;
use wasi_streams::state::StreamState;
use wasi_streams::stdio::report_read;
use wasi_streams::stdio::report_skip;
use wasi_streams::stdio::EmptyStream;
use wasi_streams::stdio::ReadOutcome;

#[test]
fn read_of_no_bytes_is_the_end() {
    assert_eq!(
        report_read::<String>(ReadOutcome::Count(0)),
        Ok((0, StreamState::Closed))
    );
}

#[test]
fn read_of_some_bytes_is_open() {
    assert_eq!(
        report_read::<String>(ReadOutcome::Count(12)),
        Ok((12, StreamState::Open))
    );
}

#[test]
fn interrupted_read_is_no_progress() {
    assert_eq!(
        report_read::<String>(ReadOutcome::Interrupted),
        Ok((0, StreamState::Open))
    );
}

#[test]
fn failed_read_passes_the_error_on() {
    assert_eq!(
        report_read(ReadOutcome::Failed(String::from("broken"))),
        Err(String::from("broken"))
    );
}

#[test]
fn skip_that_falls_short_is_the_end() {
    assert_eq!(report_skip(3, 10), (3, StreamState::Closed));
    assert_eq!(report_skip(10, 10), (10, StreamState::Open));
    assert_eq!(report_skip(0, 0), (0, StreamState::Open));
}

#[test]
fn empty_stream_reads_nothing_and_swallows_writes() {
    let mut stream = EmptyStream;
    let mut buf = [5u8; 3];
    assert_eq!(stream.read(&mut buf), Ok((0, StreamState::Open)));
    assert_eq!(buf, [5u8; 3]);
    assert_eq!(stream.write(b"dropped"), Ok(7));
    assert_eq!(stream.write(b""), Ok::<u64, StreamError>(0));
}

#[test]
fn closed_is_closed() {
    assert!(StreamState::Closed.is_closed());
    assert!(!StreamState::Open.is_closed());
}

#[test]
fn pipe_closed_in_words() {
    assert_eq!(StreamError::PipeClosed.message(), "pipe closed");
}
