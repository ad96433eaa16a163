use basic_cli::child::{classify_pipe_read, collect_may_read, fd_sweep_limit, ReaderNext, Collected, PipeRead, ProcessTable, ReadExactStep, StreamState, READ_BUDGET};
use basic_cli::io_error::{IoError, IoErrorKind};

#[test]
fn exact_reads_wait_then_serve_in_arrival_order() {
    let mut state = StreamState::new(true);
    assert!(matches!(state.try_read_exact(3), ReadExactStep::Wait));
    state.append(b"ab");
    state.append(b"cdef");
    match state.try_read_exact(3) {
        ReadExactStep::Ready(bytes) => assert_eq!(bytes, b"abc".to_vec()),
        other => panic!("expected bytes, got {:?}", other),
    }
    match state.try_read_exact(2) {
        ReadExactStep::Ready(bytes) => assert_eq!(bytes, b"de".to_vec()),
        other => panic!("expected bytes, got {:?}", other),
    }
}

#[test]
fn a_stream_that_ends_short_is_an_unexpected_end() {
    let mut state = StreamState::new(true);
    state.append(b"x");
    state.mark_eof();
    match state.try_read_exact(2) {
        ReadExactStep::Failed(e) => {
            assert_eq!(e.kind, IoErrorKind::UnexpectedEof);
            assert_eq!(e.message, std::io::Error::from(std::io::ErrorKind::UnexpectedEof).to_string());
        }
        other => panic!("expected a failure, got {:?}", other),
    }
    assert!(matches!(StreamState::new(false).try_read_exact(1), ReadExactStep::Failed(_)));
    assert!(matches!(StreamState::new(false).try_read_exact(0), ReadExactStep::Ready(_)));
}

#[test]
fn a_reader_failure_is_reported_once() {
    let mut state = StreamState::new(true);
    state.fail(IoError { kind: IoErrorKind::Other, message: "boom".to_string() });
    match state.try_read_exact(1) {
        ReadExactStep::Failed(e) => assert_eq!(e.message, "boom"),
        other => panic!("expected a failure, got {:?}", other),
    }
    match state.try_read_exact(1) {
        ReadExactStep::Failed(e) => assert_eq!(e.kind, IoErrorKind::UnexpectedEof),
        other => panic!("expected an end, got {:?}", other),
    }
}

#[test]
fn collecting_follows_the_pipe() {
    let mut state = StreamState::new(true);
    assert_eq!(state.absorb(PipeRead::Data(2), b"hi"), None);
    assert_eq!(state.absorb(PipeRead::Empty, b""), Some(Collected::Drained));
    assert_eq!(state.absorb(PipeRead::Closed, b""), Some(Collected::Closed));
    assert!(collect_may_read(READ_BUDGET - 1, Some(READ_BUDGET)));
    assert!(!collect_may_read(READ_BUDGET, Some(READ_BUDGET)));
    assert!(collect_may_read(1_000_000, None));
    assert_eq!(state.take_all().unwrap(), b"hi".to_vec());
}

#[test]
fn pending_output_is_taken_and_the_reader_retired() {
    let mut state = StreamState::new(true);
    state.append(b"out");
    assert!(state.needs_final_collect(true));
    assert!(!state.needs_final_collect(false));
    let bytes = state.finish_pending(Some(Ok(Collected::Closed))).unwrap();
    assert_eq!(bytes, b"out".to_vec());
    assert!(state.is_stopped());
    assert!(state.is_eof());
    assert!(!state.needs_final_collect(true));
    let mut failing = StreamState::new(true);
    let error = failing
        .finish_pending(Some(Err(IoError { kind: IoErrorKind::Other, message: "pipe".to_string() })))
        .unwrap_err();
    assert_eq!(error.message, "pipe");
    assert!(failing.is_stopped());
}

#[test]
fn process_ids_are_fresh_and_lookups_fail_cleanly() {
    let mut table: ProcessTable<&str> = ProcessTable::new();
    let a = table.insert_new(false, "plain").unwrap();
    let b = table.insert_new(true, "leashed").unwrap();
    assert_eq!((a, b), (1, 2));
    assert!(table.contains(a));
    assert_eq!(table.get(b).unwrap(), &(true, "leashed"));
    let missing = table.get(99).unwrap_err();
    assert_eq!(missing.kind, IoErrorKind::NotFound);
    assert_eq!(missing.message, "Process not found");
    assert_eq!(table.remove(a).unwrap(), (false, "plain"));
    assert!(table.remove(a).is_err());
    let c = table.insert_new(false, "again").unwrap();
    assert_eq!(c, 3);
}

#[test]
fn killing_all_leashed_children_keeps_the_others() {
    let mut table: ProcessTable<u32> = ProcessTable::new();
    let plain = table.insert_new(false, 10).unwrap();
    let first = table.insert_new(true, 20).unwrap();
    let second = table.insert_new(true, 30).unwrap();
    let mut removed = table.remove_leashed();
    removed.sort();
    assert_eq!(removed, vec![(first, 20), (second, 30)]);
    assert_eq!(table.len(), 1);
    assert!(table.contains(plain));
    table.put_back(first, true, 20);
    assert_eq!(table.leashed_ids(), vec![first]);
}

#[test]
fn the_fd_sweep_bound_follows_the_soft_limit() {
    assert_eq!(fd_sweep_limit(None), 1024);
    assert_eq!(fd_sweep_limit(Some(256)), 256);
    assert_eq!(fd_sweep_limit(Some(1 << 20)), 1 << 20);
    assert_eq!(fd_sweep_limit(Some(u64::MAX)), 1 << 20);
}

#[test]
fn issued_ids_and_leashed_ids() {
    let mut table: ProcessTable<&str> = ProcessTable::new();
    assert!(!table.was_issued(0));
    assert!(!table.was_issued(1));
    let a = table.insert_new(true, "a").unwrap();
    let b = table.insert_new(false, "b").unwrap();
    let c = table.insert_new(true, "c").unwrap();
    assert!(table.was_issued(a) && table.was_issued(b) && table.was_issued(c));
    assert!(!table.was_issued(c + 1));
    let mut leashed = table.leashed_ids();
    leashed.sort();
    assert_eq!(leashed, vec![a, c]);
    let _ = table.remove(a);
    assert!(table.was_issued(a));
    assert_eq!(table.leashed_ids(), vec![c]);
}

#[test]
fn pipe_reads_are_classified() {
    assert_eq!(classify_pipe_read(Ok(0)), Some(Ok(PipeRead::Closed)));
    assert_eq!(classify_pipe_read(Ok(5)), Some(Ok(PipeRead::Data(5))));
    let would_block = IoError { kind: IoErrorKind::WouldBlock, message: "again".to_string() };
    assert_eq!(classify_pipe_read(Err(would_block)), Some(Ok(PipeRead::Empty)));
    let interrupted = IoError { kind: IoErrorKind::Interrupted, message: "signal".to_string() };
    assert_eq!(classify_pipe_read(Err(interrupted)), None);
    let broken = IoError { kind: IoErrorKind::BrokenPipe, message: "gone".to_string() };
    assert_eq!(classify_pipe_read(Err(broken.clone())), Some(Err(broken)));
}

#[test]
fn reader_turns_settle_the_stream() {
    let mut state = StreamState::new(true);
    assert_eq!(state.settle_turn(Ok(Collected::More)), ReaderNext::Again);
    assert_eq!(state.settle_turn(Ok(Collected::Drained)), ReaderNext::WaitForPipe);
    assert!(!state.is_eof());
    assert_eq!(state.settle_turn(Ok(Collected::Closed)), ReaderNext::Retire);
    assert!(state.is_eof());
    let mut failing = StreamState::new(true);
    let error = IoError { kind: IoErrorKind::BrokenPipe, message: "gone".to_string() };
    assert_eq!(failing.settle_turn(Err(error.clone())), ReaderNext::Retire);
    assert!(failing.is_eof());
    assert_eq!(failing.take_all(), Err(error));
}

#[test]
fn a_child_is_handed_back_when_no_id_is_left() {
    let mut table: ProcessTable<&str> = ProcessTable::new();
    assert_eq!(table.insert_or_return(false, "a"), Ok(1));
    assert_eq!(table.insert_or_return(true, "b"), Ok(2));
    assert_eq!(table.len(), 2);
}
