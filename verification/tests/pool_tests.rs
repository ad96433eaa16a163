use basic_cli::pool::{
    acquire_deadline, acquired_fresh, acquired_idle, classify_peek, idle_conn_is_live, idle_is_stale, pool_release_action, AcquireStep, IdleConn,
    PeekOutcome, PoolState, ReleaseAction, ACQUIRE_TIMEOUT_NANOS, IDLE_TTL_NANOS,
};
use basic_cli::tcp::Moment;
use basic_cli::io_error::{IoError, IoErrorKind};

fn at(nanos: u128) -> Moment {
    Moment { nanos }
}

#[test]
fn pool_bound_is_at_least_one() {
    assert_eq!(PoolState::new("h".to_string(), 1, 0).connection_bound(), 1);
    assert_eq!(PoolState::new("h".to_string(), 1, 5).connection_bound(), 5);
}

#[test]
fn acquire_dials_until_the_bound_then_waits() {
    let mut pool = PoolState::new("example.org".to_string(), 80, 2);
    let deadline = at(1_000);
    for _ in 0..2 {
        match pool.acquire_step(at(0), deadline) {
            AcquireStep::Dial { host, port } => {
                assert_eq!(host, "example.org");
                assert_eq!(port, 80);
            }
            other => panic!("expected a dial, got {:?}", other),
        }
    }
    assert_eq!(pool.total_connections(), 2);
    match pool.acquire_step(at(400), deadline) {
        AcquireStep::Wait { nanos } => assert_eq!(nanos, 600),
        other => panic!("expected a wait, got {:?}", other),
    }
    assert!(matches!(pool.acquire_step(at(1_000), deadline), AcquireStep::TimedOut));
    assert_eq!(pool.total_connections(), 2);
}

#[test]
fn a_released_connection_is_the_next_one_examined() {
    let mut pool = PoolState::new("h".to_string(), 1, 3);
    assert!(matches!(pool.acquire_step(at(0), at(10)), AcquireStep::Dial { .. }));
    pool.put_idle(IdleConn { conn: 7, metadata: vec![1, 2], idled_at: at(5) });
    match pool.acquire_step(at(6), at(100)) {
        AcquireStep::Examine(conn) => {
            assert_eq!(conn.conn, 7);
            assert_eq!(conn.metadata, vec![1, 2]);
        }
        other => panic!("expected an examine, got {:?}", other),
    }
    assert_eq!(pool.total_connections(), 1);
    assert_eq!(pool.idle_count(), 0);
}

#[test]
fn stale_idle_connections_free_their_slot() {
    let mut pool = PoolState::new("h".to_string(), 1, 3);
    assert!(matches!(pool.acquire_step(at(0), at(10)), AcquireStep::Dial { .. }));
    pool.put_idle(IdleConn { conn: 9, metadata: vec![], idled_at: at(0) });
    let later = at(IDLE_TTL_NANOS + 1);
    assert!(matches!(pool.acquire_step(later, at(u128::MAX)), AcquireStep::Discard(_)));
    assert_eq!(pool.total_connections(), 0);
}

#[test]
fn release_slot_never_goes_below_zero() {
    let mut pool = PoolState::new("h".to_string(), 1, 1);
    pool.release_slot();
    assert_eq!(pool.total_connections(), 0);
}

#[test]
fn staleness_and_liveness() {
    assert!(!idle_is_stale(at(0), at(IDLE_TTL_NANOS)));
    assert!(idle_is_stale(at(0), at(IDLE_TTL_NANOS + 1)));
    assert!(!idle_is_stale(at(10), at(5)));
    assert!(idle_conn_is_live(0, true, PeekOutcome::WouldBlock, true));
    assert!(!idle_conn_is_live(3, true, PeekOutcome::WouldBlock, true));
    assert!(!idle_conn_is_live(0, true, PeekOutcome::Closed, true));
    assert!(!idle_conn_is_live(0, true, PeekOutcome::Data, true));
    assert!(!idle_conn_is_live(0, true, PeekOutcome::WouldBlock, false));
    assert!(!idle_conn_is_live(0, false, PeekOutcome::WouldBlock, true));
}

#[test]
fn release_actions() {
    assert_eq!(pool_release_action(false, true), ReleaseAction::Close);
    assert_eq!(pool_release_action(true, true), ReleaseAction::ReturnIdle);
    assert_eq!(pool_release_action(true, false), ReleaseAction::CloseAndFreeSlot);
}

#[test]
fn acquire_deadline_is_thirty_seconds_out() {
    assert_eq!(acquire_deadline(at(1)), Some(at(1 + ACQUIRE_TIMEOUT_NANOS)));
    assert_eq!(ACQUIRE_TIMEOUT_NANOS, 30_000_000_000);
    assert_eq!(acquire_deadline(at(u128::MAX)), None);
}

#[test]
fn peeks_are_classified() {
    assert_eq!(classify_peek(Ok(0)), PeekOutcome::Closed);
    assert_eq!(classify_peek(Ok(1)), PeekOutcome::Data);
    let would_block = IoError { kind: IoErrorKind::WouldBlock, message: "again".to_string() };
    assert_eq!(classify_peek(Err(would_block)), PeekOutcome::WouldBlock);
    let reset = IoError { kind: IoErrorKind::ConnectionReset, message: "reset".to_string() };
    assert_eq!(classify_peek(Err(reset)), PeekOutcome::Failed);
}

#[test]
fn every_connection_is_checked_out_or_idle() {
    let mut pool = PoolState::new("h".to_string(), 1, 3);
    assert!(matches!(pool.acquire_step(at(0), at(10)), AcquireStep::Dial { .. }));
    assert!(matches!(pool.acquire_step(at(0), at(10)), AcquireStep::Dial { .. }));
    assert_eq!((pool.total_connections(), pool.checked_out_count(), pool.idle_count()), (2, 2, 0));
    // A failed dial gives its slot back: nothing stays checked out for it.
    pool.release_slot();
    assert_eq!((pool.total_connections(), pool.checked_out_count(), pool.idle_count()), (1, 1, 0));
    pool.put_idle(IdleConn { conn: 1, metadata: vec![], idled_at: at(1) });
    assert_eq!((pool.total_connections(), pool.checked_out_count(), pool.idle_count()), (1, 0, 1));
    // Giving back a slot with nothing checked out changes nothing.
    pool.release_slot();
    assert_eq!((pool.total_connections(), pool.checked_out_count(), pool.idle_count()), (1, 0, 1));
    assert!(matches!(pool.acquire_step(at(2), at(10)), AcquireStep::Examine(_)));
    assert_eq!((pool.total_connections(), pool.checked_out_count(), pool.idle_count()), (1, 1, 0));
}

#[test]
fn settling_probes_and_dials() {
    let mut pool = PoolState::new("h".to_string(), 1, 2);
    assert!(matches!(pool.acquire_step(at(0), at(10)), AcquireStep::Dial { .. }));
    pool.settle_dial(false);
    assert_eq!((pool.total_connections(), pool.checked_out_count()), (0, 0));
    assert!(matches!(pool.acquire_step(at(0), at(10)), AcquireStep::Dial { .. }));
    pool.settle_dial(true);
    assert_eq!((pool.total_connections(), pool.checked_out_count()), (1, 1));
    pool.put_idle(IdleConn { conn: 4, metadata: vec![9], idled_at: at(1) });
    assert!(matches!(pool.acquire_step(at(2), at(10)), AcquireStep::Examine(_)));
    pool.settle_probe(false);
    assert_eq!((pool.total_connections(), pool.checked_out_count(), pool.idle_count()), (0, 0, 0));
}

#[test]
fn handed_out_connections() {
    let fresh = acquired_fresh(5);
    assert!(fresh.fresh && fresh.metadata.is_empty() && fresh.stream == 5);
    let again = acquired_idle(IdleConn { conn: 1, metadata: vec![3, 4], idled_at: at(0) }, 6);
    assert!(!again.fresh && again.metadata == vec![3, 4] && again.stream == 6);
}
