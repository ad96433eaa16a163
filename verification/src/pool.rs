//! Connection pools: a bound on the connections attributed to a pool
//! (checked out plus idle), a stack of idle connections with the metadata
//! their last user left, and the decisions of an acquire.
//!
//! Connections are named by ids; the sockets behind them stay with the
//! caller, which performs what each decision asks for.
use vstd::prelude::*;
use crate::tcp::Moment;
use crate::io_error::{IoError, IoErrorKind};

verus! {

/// How long an acquire may take in all, in nanoseconds (30 s).
pub const ACQUIRE_TIMEOUT_NANOS: u128 = 30_000_000_000;

/// Idle connections older than this are closed instead of reused (600 s).
pub const IDLE_TTL_NANOS: u128 = 600_000_000_000;

/// An idle connection: its id, the caller-owned metadata blob kept with it,
/// and when it went idle.
#[derive(Debug)]
pub struct IdleConn {
    pub conn: u64,
    pub metadata: Vec<u8>,
    pub idled_at: Moment,
}

/// What the caller does next for an acquire.
#[derive(Debug)]
pub enum AcquireStep {
    /// An idle connection too old to reuse: close it (its slot is freed).
    Discard(IdleConn),
    /// An idle connection young enough: probe it, hand it out if it is
    /// live, otherwise close it and call `release_slot`.
    Examine(IdleConn),
    /// A slot is reserved: dial this address, calling `release_slot` if the
    /// dial fails.
    Dial { host: String, port: u16 },
    /// The pool is full: wait this many nanoseconds for a release.
    Wait { nanos: u128 },
    /// The pool stayed full until the deadline.
    TimedOut,
}

/// What a probe of an idle socket saw.
#[derive(Debug, Clone, Copy, PartialEq, Eq)]
pub enum PeekOutcome {
    /// The peer closed the connection.
    Closed,
    /// Bytes nobody asked for: the protocol is out of step.
    Data,
    /// Nothing to read and still open.
    WouldBlock,
    /// Any other failure.
    Failed,
}

/// What a one-byte peek at an idle socket saw: a read of nothing is a
/// closed peer, a byte is data nobody asked for, a read that would block
/// is an open idle socket, and any other failure is a failure.
pub fn classify_peek(peeked: Result<usize, IoError>) -> (r: PeekOutcome)
    ensures
        peeked == Ok::<usize, IoError>(0) ==> r == PeekOutcome::Closed,
        (peeked matches Ok(n) && n > 0) ==> r == PeekOutcome::Data,
        (peeked matches Err(e) && e.kind == IoErrorKind::WouldBlock) ==> r == PeekOutcome::WouldBlock,
        (peeked matches Err(e) && e.kind != IoErrorKind::WouldBlock) ==> r == PeekOutcome::Failed,
{
    match peeked {
        Ok(0) => PeekOutcome::Closed,
        Ok(_) => PeekOutcome::Data,
        Err(error) => match error.kind {
            IoErrorKind::WouldBlock => PeekOutcome::WouldBlock,
            _ => PeekOutcome::Failed,
        },
    }
}

/// What releasing a checked-out stream does with its socket.
#[derive(Debug, Clone, Copy, PartialEq, Eq)]
pub enum ReleaseAction {
    /// Not from a pool, or the pool is gone: close the socket.
    Close,
    /// Close the socket and give its slot back to the pool.
    CloseAndFreeSlot,
    /// Keep the socket open as an idle connection of the pool.
    ReturnIdle,
}

/// The bound a pool is created with: at least one connection, and a
/// request beyond the address space means no bound at all.
pub open spec fn spec_pool_bound(max_connections: u64) -> nat {
    if max_connections as int > usize::MAX as int {
        usize::MAX as nat
    } else if max_connections == 0 {
        1
    } else {
        max_connections as nat
    }
}

/// An idle connection that went idle more than the TTL ago.
pub open spec fn spec_is_stale(idled_at: Moment, now: Moment) -> bool {
    now.nanos > idled_at.nanos && now.nanos - idled_at.nanos > IDLE_TTL_NANOS
}

pub fn idle_is_stale(idled_at: Moment, now: Moment) -> (r: bool)
    ensures
        r == spec_is_stale(idled_at, now),
        idled_at.nanos <= now.nanos ==> (r <==> now.nanos - idled_at.nanos > 600_000_000_000),
        now.nanos <= idled_at.nanos ==> !r,
{
    now.nanos > idled_at.nanos && now.nanos - idled_at.nanos > IDLE_TTL_NANOS
}

/// Law: staleness is a matter of how long a connection has been idle and
/// nothing else. A connection that went idle at `idled_at` is stale at
/// `now` exactly when more than 600 s have passed since; so shifting both
/// moments by the same amount never changes the verdict, and a connection
/// idle for at most 600 s is examined by an acquire, never discarded.
pub proof fn lemma_staleness_is_idle_time(idled_at: Moment, now: Moment, shift: u128)
    ensures
        idled_at.nanos <= now.nanos ==> (spec_is_stale(idled_at, now) <==> now.nanos - idled_at.nanos
            > 600_000_000_000),
        now.nanos <= idled_at.nanos ==> !spec_is_stale(idled_at, now),
        now.nanos + shift <= u128::MAX && idled_at.nanos + shift <= u128::MAX ==> (spec_is_stale(
            Moment { nanos: (idled_at.nanos + shift) as u128 },
            Moment { nanos: (now.nanos + shift) as u128 },
        ) == spec_is_stale(idled_at, now)),
        now.nanos - idled_at.nanos <= 600_000_000_000 ==> !spec_is_stale(idled_at, now),
{
}

/// An idle socket is live only when a probe would block: a closed peer or
/// unread bytes both rule it out.
pub fn peek_says_live(peek: PeekOutcome) -> (r: bool)
    ensures
        r == (peek == PeekOutcome::WouldBlock),
{
    match peek {
        PeekOutcome::WouldBlock => true,
        _ => false,
    }
}

/// The whole verdict on an idle connection: bytes left in its read buffer
/// mean the last user did not finish (no probe is made); otherwise the
/// socket must be switched to non-blocking, probed, and switched back, and
/// all three must go well with the probe finding nothing to read.
pub fn idle_conn_is_live(buffered: usize, nonblocking_set: bool, peek: PeekOutcome, blocking_restored: bool) -> (r: bool)
    ensures
        r == (buffered == 0 && nonblocking_set && peek == PeekOutcome::WouldBlock && blocking_restored),
{
    if buffered != 0 {
        return false;
    }
    if !nonblocking_set {
        return false;
    }
    let live = peek_says_live(peek);
    if !blocking_restored {
        return false;
    }
    live
}

/// Where a released stream's socket goes.
pub fn pool_release_action(pool_alive: bool, reusable: bool) -> (r: ReleaseAction)
    ensures
        !pool_alive ==> r == ReleaseAction::Close,
        pool_alive && reusable ==> r == ReleaseAction::ReturnIdle,
        pool_alive && !reusable ==> r == ReleaseAction::CloseAndFreeSlot,
{
    if !pool_alive {
        ReleaseAction::Close
    } else if reusable {
        ReleaseAction::ReturnIdle
    } else {
        ReleaseAction::CloseAndFreeSlot
    }
}

/// The deadline of an acquire that starts at `now`.
pub fn acquire_deadline(now: Moment) -> (r: Option<Moment>)
    ensures
        now.nanos + ACQUIRE_TIMEOUT_NANOS <= u128::MAX ==> r == Some(
            Moment { nanos: (now.nanos + ACQUIRE_TIMEOUT_NANOS) as u128 },
        ),
        now.nanos + ACQUIRE_TIMEOUT_NANOS > u128::MAX ==> r is None,
{
    if now.nanos <= u128::MAX - ACQUIRE_TIMEOUT_NANOS {
        Some(Moment { nanos: now.nanos + ACQUIRE_TIMEOUT_NANOS })
    } else {
        None
    }
}

/// The state of one pool.
pub struct PoolState {
    host: String,
    port: u16,
    max_connections: usize,
    idle: Vec<IdleConn>,
    total: usize,
    checked_out: usize,
}

impl PoolState {
    pub closed spec fn host(&self) -> Seq<char> {
        self.host@
    }

    pub closed spec fn port(&self) -> u16 {
        self.port
    }

    /// The bound on connections attributed to the pool.
    pub closed spec fn max_connections(&self) -> nat {
        self.max_connections as nat
    }

    /// Connections attributed to the pool: checked out plus idle.
    pub closed spec fn total(&self) -> nat {
        self.total as nat
    }

    /// Connections out of the pool's hands: handed to a caller, or being
    /// dialed or probed for one.
    pub closed spec fn checked_out(&self) -> nat {
        self.checked_out as nat
    }

    /// The idle connections, the next one to hand out last.
    pub closed spec fn idle(&self) -> Seq<IdleConn> {
        self.idle@
    }

    /// What every pool keeps: a bound of at least one, never exceeded, and
    /// every connection attributed to it is either checked out or idle.
    pub open spec fn wf(&self) -> bool {
        &&& 1 <= self.max_connections()
        &&& self.total() <= self.max_connections()
        &&& self.total() == self.checked_out() + self.idle().len()
    }

    /// Connections attributed to the pool now.
    pub fn total_connections(&self) -> (r: usize)
        ensures
            r == self.total(),
    {
        self.total
    }

    /// Connections checked out now.
    pub fn checked_out_count(&self) -> (r: usize)
        ensures
            r == self.checked_out(),
    {
        self.checked_out
    }

    /// The bound on connections.
    pub fn connection_bound(&self) -> (r: usize)
        ensures
            r == self.max_connections(),
    {
        self.max_connections
    }

    /// How many connections are idle.
    pub fn idle_count(&self) -> (r: usize)
        ensures
            r == self.idle().len(),
    {
        self.idle.len()
    }

    /// A pool for `host:port` with no connections yet.
    pub fn new(host: String, port: u16, max_connections: u64) -> (r: PoolState)
        ensures
            r.wf(),
            r.host() == host@,
            r.port() == port,
            r.max_connections() == spec_pool_bound(max_connections),
            r.total() == 0,
            r.checked_out() == 0,
            r.idle() == Seq::<IdleConn>::empty(),
    {
        let bound: usize = if max_connections > usize::MAX as u64 {
            usize::MAX
        } else if max_connections == 0 {
            1
        } else {
            max_connections as usize
        };
        PoolState { host, port, max_connections: bound, idle: Vec::new(), total: 0, checked_out: 0 }
    }

    /// A checked-out connection is gone for good (closed by its user, dead
    /// when probed, or never dialed): its slot is given back. With none
    /// checked out there is no slot to give back.
    pub fn release_slot(&mut self)
        requires
            old(self).wf(),
        ensures
            final(self).wf(),
            old(self).checked_out() > 0 ==> final(self).checked_out() == old(self).checked_out() - 1
                && final(self).total() == old(self).total() - 1,
            old(self).checked_out() == 0 ==> final(self).checked_out() == 0 && final(self).total()
                == old(self).total(),
            final(self).idle() == old(self).idle(),
            final(self).max_connections() == old(self).max_connections(),
            final(self).host() == old(self).host(),
            final(self).port() == old(self).port(),
    {
        if self.checked_out > 0 {
            self.checked_out = self.checked_out - 1;
            self.total = self.total - 1;
        }
    }

    /// A checked-out connection released as reusable becomes the next idle
    /// one to hand out. It keeps its slot.
    pub fn put_idle(&mut self, conn: IdleConn)
        requires
            old(self).wf(),
            old(self).checked_out() > 0,
        ensures
            final(self).wf(),
            final(self).idle() == old(self).idle().push(conn),
            final(self).checked_out() == old(self).checked_out() - 1,
            final(self).total() == old(self).total(),
            final(self).max_connections() == old(self).max_connections(),
            final(self).host() == old(self).host(),
            final(self).port() == old(self).port(),
    {
        self.idle.push(conn);
        self.checked_out = self.checked_out - 1;
    }

    /// One decision of an acquire at time `now`, for an acquire that must
    /// finish by `deadline`. The most recently idled connection comes first:
    /// a stale one frees its slot; a young one is checked out to be probed.
    /// With none idle, a slot is reserved and checked out for a dial if the
    /// pool is below its bound; otherwise the caller waits for a release
    /// until the deadline. A probe that finds the connection dead, or a
    /// dial that fails, gives the slot back with `release_slot`.
    pub fn acquire_step(&mut self, now: Moment, deadline: Moment) -> (r: AcquireStep)
        requires
            old(self).wf(),
        ensures
            final(self).wf(),
            final(self).max_connections() == old(self).max_connections(),
            final(self).host() == old(self).host(),
            final(self).port() == old(self).port(),
            old(self).idle().len() > 0 ==> {
                let c = old(self).idle().last();
                &&& final(self).idle() == old(self).idle().drop_last()
                &&& (spec_is_stale(c.idled_at, now) ==> r == AcquireStep::Discard(c)
                    && final(self).total() == old(self).total() - 1
                    && final(self).checked_out() == old(self).checked_out())
                &&& (!spec_is_stale(c.idled_at, now) ==> r == AcquireStep::Examine(c)
                    && final(self).total() == old(self).total()
                    && final(self).checked_out() == old(self).checked_out() + 1)
            },
            old(self).idle().len() == 0 ==> {
                &&& final(self).idle() == old(self).idle()
                &&& (old(self).total() < old(self).max_connections() ==> final(self).total()
                    == old(self).total() + 1 && final(self).checked_out() == old(self).checked_out() + 1
                    && (r matches AcquireStep::Dial { host, port }
                    && host@ == old(self).host() && port == old(self).port()))
                &&& (old(self).total() >= old(self).max_connections() ==> final(self).total()
                    == old(self).total() && final(self).checked_out() == old(self).checked_out()
                    && (if now.nanos >= deadline.nanos {
                    r == AcquireStep::TimedOut
                } else {
                    r == AcquireStep::Wait { nanos: (deadline.nanos - now.nanos) as u128 }
                }))
            },
    {
        match self.idle.pop() {
            Some(conn) => {
                if idle_is_stale(conn.idled_at, now) {
                    self.total = self.total - 1;
                    AcquireStep::Discard(conn)
                } else {
                    self.checked_out = self.checked_out + 1;
                    AcquireStep::Examine(conn)
                }
            },
            None => {
                if self.total < self.max_connections {
                    self.total = self.total + 1;
                    self.checked_out = self.checked_out + 1;
                    AcquireStep::Dial { host: self.host.clone(), port: self.port }
                } else if now.nanos >= deadline.nanos {
                    AcquireStep::TimedOut
                } else {
                    AcquireStep::Wait { nanos: deadline.nanos - now.nanos }
                }
            },
        }
    }

    /// An examined idle connection was probed: a live one is handed out
    /// (it stays checked out), a dead one is closed and gives its slot back.
    pub fn settle_probe(&mut self, live: bool)
        requires
            old(self).wf(),
        ensures
            final(self).wf(),
            live ==> *final(self) == *old(self),
            !live && old(self).checked_out() > 0 ==> final(self).checked_out() == old(self).checked_out() - 1
                && final(self).total() == old(self).total() - 1,
            !live && old(self).checked_out() == 0 ==> final(self).checked_out() == 0 && final(self).total()
                == old(self).total(),
            final(self).idle() == old(self).idle(),
            final(self).max_connections() == old(self).max_connections(),
    {
        if !live {
            self.release_slot();
        }
    }

    /// A dial for a reserved slot ended: a new connection is handed out (it
    /// stays checked out), a failed dial gives the slot back.
    pub fn settle_dial(&mut self, dialed: bool)
        requires
            old(self).wf(),
        ensures
            final(self).wf(),
            dialed ==> *final(self) == *old(self),
            !dialed && old(self).checked_out() > 0 ==> final(self).checked_out() == old(self).checked_out() - 1
                && final(self).total() == old(self).total() - 1,
            !dialed && old(self).checked_out() == 0 ==> final(self).checked_out() == 0 && final(self).total()
                == old(self).total(),
            final(self).idle() == old(self).idle(),
            final(self).max_connections() == old(self).max_connections(),
    {
        if !dialed {
            self.release_slot();
        }
    }
}

/// A connection handed out by a pool: the metadata its last user left
/// (empty for a new one), the stream's handle id, and whether it was
/// freshly dialed.
#[derive(Debug, Clone, PartialEq, Eq)]
pub struct PoolAcquireOk {
    pub metadata: Vec<u8>,
    pub stream: u64,
    pub fresh: bool,
}

pub type PoolAcquireResult = Result<PoolAcquireOk, String>;

/// A freshly dialed connection handed out: no metadata yet.
pub fn acquired_fresh(stream: u64) -> (r: PoolAcquireOk)
    ensures
        r.fresh,
        r.metadata@ == Seq::<u8>::empty(),
        r.stream == stream,
{
    PoolAcquireOk { metadata: Vec::new(), stream, fresh: true }
}

/// An idle connection handed out again, with the metadata its last user
/// left.
pub fn acquired_idle(conn: IdleConn, stream: u64) -> (r: PoolAcquireOk)
    ensures
        !r.fresh,
        r.metadata == conn.metadata,
        r.stream == stream,
{
    PoolAcquireOk { metadata: conn.metadata, stream, fresh: false }
}

/// How one round of an acquire ended, once the caller did what the
/// round's step asked: a stale idle connection discarded; an idle one
/// probed and found dead or live; a dial failed or succeeded; a wait for a
/// release; or the deadline passed.
#[derive(Debug, Clone, Copy, PartialEq, Eq)]
pub enum AcquireRound {
    Discarded,
    ProbedDead,
    ProbedLive,
    DialFailed,
    Dialed,
    Waited,
    TimedOut,
}

/// A round that ends the acquire.
pub open spec fn spec_round_ends(round: AcquireRound) -> bool {
    round is ProbedLive || round is Dialed || round is DialFailed || round is TimedOut
}

/// A round that hands a connection out.
pub open spec fn spec_round_hands_out(round: AcquireRound) -> bool {
    round is ProbedLive || round is Dialed
}

/// What a round changes in the connections checked out: the step checks
/// one out for a probe or a dial (`acquire_step`), and a dead probe or a
/// failed dial gives it back (`settle_probe`, `settle_dial`).
pub open spec fn spec_round_checked_out(checked_out: nat, round: AcquireRound) -> nat {
    match round {
        AcquireRound::ProbedDead => ((checked_out + 1) - 1) as nat,
        AcquireRound::ProbedLive => checked_out + 1,
        AcquireRound::DialFailed => ((checked_out + 1) - 1) as nat,
        AcquireRound::Dialed => checked_out + 1,
        _ => checked_out,
    }
}

/// The connections checked out after a run of rounds.
pub open spec fn spec_run_checked_out(checked_out: nat, rounds: Seq<AcquireRound>) -> nat
    decreases rounds.len(),
{
    if rounds.len() == 0 {
        checked_out
    } else {
        spec_run_checked_out(spec_round_checked_out(checked_out, rounds[0]), rounds.drop_first())
    }
}

/// Law: an acquire checks out exactly one connection when it hands one
/// out, and none when it fails. An acquire is a run of rounds of which
/// only the last ends it; whatever the rounds before it (discards, dead
/// probes, waits), the connections checked out afterwards are those
/// before plus one when the last round handed a connection out, and
/// unchanged when it failed or timed out.
pub proof fn lemma_acquire_adds_one_or_none(checked_out: nat, rounds: Seq<AcquireRound>)
    requires
        rounds.len() > 0,
        forall|i: int| 0 <= i < rounds.len() - 1 ==> !spec_round_ends(#[trigger] rounds[i]),
        spec_round_ends(rounds.last()),
    ensures
        spec_run_checked_out(checked_out, rounds) == checked_out + (if spec_round_hands_out(rounds.last()) {
            1int
        } else {
            0int
        }),
    decreases rounds.len(),
{
    let rest = rounds.drop_first();
    assert(spec_run_checked_out(checked_out, rounds) == spec_run_checked_out(
        spec_round_checked_out(checked_out, rounds[0]),
        rest,
    ));
    if rounds.len() == 1 {
        assert(rest.len() == 0);
        assert(rounds.last() == rounds[0]);
    } else {
        assert(!spec_round_ends(rounds[0]));
        assert(spec_round_checked_out(checked_out, rounds[0]) == checked_out);
        assert forall|i: int| 0 <= i < rest.len() - 1 implies !spec_round_ends(#[trigger] rest[i]) by {
            assert(rest[i] == rounds[i + 1]);
        }
        assert(rest.last() == rounds.last());
        lemma_acquire_adds_one_or_none(spec_round_checked_out(checked_out, rounds[0]), rest);
    }
}

pub fn try_pool_acquire_ok(value: PoolAcquireOk) -> (r: PoolAcquireResult)
    ensures
        r == Ok::<PoolAcquireOk, String>(value),
{
    Ok(value)
}

pub fn try_pool_acquire_err(error: String) -> (r: PoolAcquireResult)
    ensures
        r == Err::<PoolAcquireOk, String>(error),
{
    Err(error)
}

/// The text for an acquire that found the pool full until its deadline.
pub fn acquire_timed_out_text() -> (r: String)
    ensures
        r@ == "ErrorKind::TimedOut"@,
{
    String::from_str("ErrorKind::TimedOut")
}

/// Law: a connection returned to the pool as reusable is the next one an
/// acquire examines, with the metadata it was returned with.
pub proof fn lemma_returned_conn_is_next(before: Seq<IdleConn>, conn: IdleConn)
    ensures
        before.push(conn).len() > 0,
        before.push(conn).last() == conn,
        before.push(conn).drop_last() == before,
{
    assert(before.push(conn).drop_last() =~= before);
}

} // verus!
