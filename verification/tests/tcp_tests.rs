use basic_cli::io_error::{IoError, IoErrorKind};
use basic_cli::tcp::{
    deadline_from_timeout, read_up_to_len, remaining_time, restore_timeout, stream_not_found,
    tcp_read_exactly_result, tcp_read_result, tcp_read_until_result, tcp_read_up_to_impl,
    tcp_write_progress, tcp_write_result, timeout_ms_from, to_tcp_connect_err, to_tcp_stream_err,
    ConnectAttempts, ExactRead, Moment, ReadUntil, ReadUntilError, ReadUntilOutcome,
    EXACT_READ_CHUNK,
};

fn err(kind: IoErrorKind, message: &str) -> IoError {
    IoError { kind, message: message.to_string() }
}

/// Runs a delimited read over a stream that delivers `chunks` one fill at a
/// time, the way a buffered reader does: what a turn does not consume is
/// offered again.
fn read_until_over(chunks: &[&[u8]], delim: u8, max: Option<u64>) -> Result<Vec<u8>, ReadUntilError> {
    let mut reader = ReadUntil::new(delim, max);
    let mut pending: Vec<u8> = Vec::new();
    let mut next = 0;
    loop {
        if reader.limit_reached() {
            return Err(ReadUntilError::LimitExceeded);
        }
        if pending.is_empty() && next < chunks.len() {
            pending = chunks[next].to_vec();
            next += 1;
        }
        let turn = reader.feed(&pending);
        pending.drain(..turn.used);
        match turn.outcome {
            ReadUntilOutcome::Continue => {}
            ReadUntilOutcome::Finished => return Ok(reader.into_bytes()),
            ReadUntilOutcome::LimitExceeded => return Err(ReadUntilError::LimitExceeded),
        }
    }
}

#[test]
fn bounded_delimiter_read_stops_at_the_limit() {
    let result = read_until_over(&[b"delimiter-free"], b'|', Some(4));
    assert!(matches!(result, Err(ReadUntilError::LimitExceeded)));
}

#[test]
fn exact_read_reports_unexpected_eof() {
    let mut read = ExactRead::new(3).unwrap();
    assert_eq!(read.next_chunk_len(), 3);
    read.feed(b"hi").unwrap();
    assert_eq!(read.next_chunk_len(), 1);
    let error = read.feed(b"").unwrap_err();
    assert_eq!(error.kind, IoErrorKind::UnexpectedEof);
    assert_eq!(error.message, "TCP stream ended before the requested bytes arrived");
}

#[test]
fn zero_write_timeout_fails_before_writing() {
    let error = deadline_from_timeout(Moment { nanos: 5 }, 0).unwrap_err();
    assert_eq!(error.kind, IoErrorKind::TimedOut);
}

#[test]
fn zero_connect_timeout_is_a_timeout() {
    let error = deadline_from_timeout(Moment { nanos: 1_000 }, 0).unwrap_err();
    assert_eq!(error.kind, IoErrorKind::TimedOut);
    assert_eq!(error.message, "TCP operation timed out");
}

#[test]
fn read_until_includes_the_delimiter() {
    assert_eq!(read_until_over(&[b"ab", b"c|de"], b'|', None).unwrap(), b"abc|".to_vec());
}

#[test]
fn read_until_at_end_of_stream_returns_what_arrived() {
    assert_eq!(read_until_over(&[b"abc"], b'|', None).unwrap(), b"abc".to_vec());
    assert_eq!(read_until_over(&[], b'|', None).unwrap(), Vec::<u8>::new());
}

#[test]
fn read_until_finds_a_delimiter_exactly_at_the_limit() {
    assert_eq!(read_until_over(&[b"abc|rest"], b'|', Some(4)).unwrap(), b"abc|".to_vec());
    assert!(matches!(read_until_over(&[b"abcd|"], b'|', Some(4)), Err(ReadUntilError::LimitExceeded)));
}

#[test]
fn read_until_with_zero_limit_fails_at_once() {
    assert!(matches!(read_until_over(&[b"|"], b'|', Some(0)), Err(ReadUntilError::LimitExceeded)));
}

#[test]
fn read_until_turn_reports_what_it_used() {
    let mut reader = ReadUntil::new(b'\n', None);
    let turn = reader.feed(b"hello\nworld");
    assert_eq!(turn.used, 6);
    assert_eq!(turn.outcome, ReadUntilOutcome::Finished);
    assert_eq!(reader.into_bytes(), b"hello\n".to_vec());
}

#[test]
fn read_up_to_takes_at_most_the_request() {
    assert_eq!(tcp_read_up_to_impl(b"hello", 3), b"hel".to_vec());
    assert_eq!(tcp_read_up_to_impl(b"hi", 10), b"hi".to_vec());
    assert_eq!(tcp_read_up_to_impl(b"hi", 0), Vec::<u8>::new());
    assert_eq!(read_up_to_len(7, 100), 7);
}

#[test]
fn exact_read_goes_in_chunks() {
    let mut read = ExactRead::new(10_000).unwrap();
    assert_eq!(read.next_chunk_len(), EXACT_READ_CHUNK);
    read.feed(&vec![1u8; 8192]).unwrap();
    assert_eq!(read.next_chunk_len(), 1808);
    read.feed(&vec![2u8; 1808]).unwrap();
    assert!(read.is_complete());
    assert_eq!(read.into_bytes().len(), 10_000);
}

#[test]
fn write_progress_and_write_zero() {
    assert_eq!(tcp_write_progress(2, 10, 3).unwrap(), 5);
    assert_eq!(tcp_write_progress(2, 10, 0).unwrap_err().kind, IoErrorKind::WriteZero);
}

#[test]
fn deadlines_and_remaining_time() {
    let deadline = deadline_from_timeout(Moment { nanos: 1_000 }, 20).unwrap();
    assert_eq!(deadline, Moment { nanos: 20_001_000 });
    assert_eq!(remaining_time(deadline, Moment { nanos: 1_000 }).unwrap(), 20_000_000);
    assert_eq!(remaining_time(deadline, deadline).unwrap_err().kind, IoErrorKind::TimedOut);
    let far = deadline_from_timeout(Moment { nanos: u128::MAX - 5 }, 1).unwrap_err();
    assert_eq!(far.kind, IoErrorKind::InvalidInput);
    assert_eq!(far.message, "TCP timeout is too large");
}

#[test]
fn timeout_ms_from_never_returns_zero() {
    assert_eq!(timeout_ms_from(0), 1);
    assert_eq!(timeout_ms_from(999_999), 1);
    assert_eq!(timeout_ms_from(2_500_000), 2);
    assert_eq!(timeout_ms_from(u128::MAX), u64::MAX);
}

#[test]
fn restore_timeout_prefers_the_operation_error() {
    let op: Result<u8, IoError> = Err(err(IoErrorKind::TimedOut, "op"));
    let restored: Result<(), IoError> = Err(err(IoErrorKind::Other, "restore"));
    assert_eq!(restore_timeout(op, restored).unwrap_err().message, "op");
    let ok: Result<u8, IoError> = Ok(7);
    let restored: Result<(), IoError> = Err(err(IoErrorKind::Other, "restore"));
    assert_eq!(restore_timeout(ok, restored).unwrap_err().message, "restore");
    assert_eq!(restore_timeout(Ok::<u8, IoError>(7), Ok(())).unwrap(), 7);
}

#[test]
fn connect_error_texts() {
    assert_eq!(to_tcp_connect_err(&err(IoErrorKind::ConnectionRefused, "x")), "ErrorKind::ConnectionRefused");
    assert_eq!(to_tcp_connect_err(&err(IoErrorKind::WouldBlock, "x")), "ErrorKind::TimedOut");
    assert_eq!(to_tcp_connect_err(&err(IoErrorKind::AddrInUse, "x")), "ErrorKind::AddrInUse");
    assert_eq!(to_tcp_connect_err(&err(IoErrorKind::NotFound, "x")), "NotFound");
    assert_eq!(
        to_tcp_connect_err(&err(IoErrorKind::Unlisted("HostUnreachable".to_string()), "x")),
        "HostUnreachable"
    );
}

#[test]
fn stream_error_texts() {
    assert_eq!(to_tcp_stream_err(&err(IoErrorKind::ConnectionReset, "x")), "ErrorKind::ConnectionReset");
    assert_eq!(to_tcp_stream_err(&err(IoErrorKind::BrokenPipe, "x")), "ErrorKind::BrokenPipe");
    assert_eq!(to_tcp_stream_err(&err(IoErrorKind::TimedOut, "x")), "ErrorKind::TimedOut");
    assert_eq!(to_tcp_stream_err(&err(IoErrorKind::AddrInUse, "x")), "AddrInUse");
    assert_eq!(to_tcp_stream_err(&err(IoErrorKind::WriteZero, "x")), "WriteZero");
    assert_eq!(stream_not_found(), "StreamNotFound");
}

#[test]
fn read_results() {
    assert_eq!(tcp_read_result(Ok(vec![1, 2])), Ok(vec![1, 2]));
    assert_eq!(
        tcp_read_exactly_result(Err(err(IoErrorKind::UnexpectedEof, "short"))),
        Err("UnexpectedEof".to_string())
    );
    assert_eq!(
        tcp_read_exactly_result(Err(err(IoErrorKind::ConnectionReset, "reset"))),
        Err("ErrorKind::ConnectionReset".to_string())
    );
    assert_eq!(tcp_read_until_result(Err(ReadUntilError::LimitExceeded)), Err("LimitExceeded".to_string()));
    assert_eq!(tcp_write_result(Err(err(IoErrorKind::WriteZero, "w"))), Err("WriteZero".to_string()));
}

#[test]
fn connect_reports_the_last_failure() {
    let attempts = ConnectAttempts::new();
    let none = attempts.into_error();
    assert_eq!(none.kind, IoErrorKind::AddrNotAvailable);
    assert_eq!(none.message, "hostname resolved to no TCP addresses");
    let mut attempts = ConnectAttempts::new();
    attempts.record_failure(err(IoErrorKind::ConnectionRefused, "first"));
    attempts.record_failure(err(IoErrorKind::TimedOut, "second"));
    assert_eq!(attempts.into_error().message, "second");
}

#[test]
fn read_until_gives_the_same_answer_however_the_stream_is_split() {
    let stream: &[u8] = b"ab|cd|ef";
    let whole = read_until_over(&[stream], b'|', Some(16)).ok().unwrap();
    assert_eq!(whole, b"ab|".to_vec());
    let split = read_until_over(&[b"a", b"b", b"|cd", b"|ef"], b'|', Some(16)).ok().unwrap();
    assert_eq!(split, whole);
    let bytewise = read_until_over(&[b"a", b"b", b"|", b"c"], b'|', Some(16)).ok().unwrap();
    assert_eq!(bytewise, whole);
}

#[test]
fn read_until_over_the_cap_fails_however_the_stream_is_split() {
    for chunks in [&[&b"abcdef"[..]][..], &[&b"ab"[..], &b"cd"[..], &b"ef"[..]][..], &[&b"abcd"[..]][..]] {
        assert!(matches!(read_until_over(chunks, b'|', Some(4)), Err(ReadUntilError::LimitExceeded)));
    }
    // A stream shorter than the cap with no delimiter is returned whole.
    assert_eq!(read_until_over(&[b"ab", b"c"], b'|', Some(4)).ok().unwrap(), b"abc".to_vec());
}

#[test]
fn dial_timeouts_stay_within_the_budget() {
    assert_eq!(timeout_ms_from(2_500_000), 2);
    assert_eq!(timeout_ms_from(999_999), 1);
    assert_eq!(timeout_ms_from(1), 1);
    assert_eq!(timeout_ms_from(u128::MAX), u64::MAX);
}
