//! TCP streams: error texts, deadlines, the buffered read and write loops as
//! state machines, and the bookkeeping of connection pools.
//!
//! The sockets themselves stay with the caller. Each loop here is driven by
//! feeding it what the socket produced; it answers how many bytes to consume
//! and whether to go on.
use vstd::prelude::*;
use crate::io_error::{
    IoError, IoErrorKind, error_of_kind, io_error_new, timed_out, kind_debug_name,
    kind_debug_name_string,
};

verus! {

// ---------------------------------------------------------------------------
// Error texts
// ---------------------------------------------------------------------------

/// The text that crosses to Roc for a failed connect.
pub open spec fn spec_tcp_connect_err(kind: IoErrorKind) -> Seq<char> {
    match kind {
        IoErrorKind::PermissionDenied => "ErrorKind::PermissionDenied"@,
        IoErrorKind::AddrInUse => "ErrorKind::AddrInUse"@,
        IoErrorKind::AddrNotAvailable => "ErrorKind::AddrNotAvailable"@,
        IoErrorKind::ConnectionRefused => "ErrorKind::ConnectionRefused"@,
        IoErrorKind::Interrupted => "ErrorKind::Interrupted"@,
        IoErrorKind::TimedOut => "ErrorKind::TimedOut"@,
        IoErrorKind::WouldBlock => "ErrorKind::TimedOut"@,
        IoErrorKind::Unsupported => "ErrorKind::Unsupported"@,
        other => kind_debug_name(other),
    }
}

/// The text that crosses to Roc for a failed read or write.
pub open spec fn spec_tcp_stream_err(kind: IoErrorKind) -> Seq<char> {
    match kind {
        IoErrorKind::PermissionDenied => "ErrorKind::PermissionDenied"@,
        IoErrorKind::ConnectionRefused => "ErrorKind::ConnectionRefused"@,
        IoErrorKind::ConnectionReset => "ErrorKind::ConnectionReset"@,
        IoErrorKind::Interrupted => "ErrorKind::Interrupted"@,
        IoErrorKind::TimedOut => "ErrorKind::TimedOut"@,
        IoErrorKind::WouldBlock => "ErrorKind::TimedOut"@,
        IoErrorKind::OutOfMemory => "ErrorKind::OutOfMemory"@,
        IoErrorKind::BrokenPipe => "ErrorKind::BrokenPipe"@,
        other => kind_debug_name(other),
    }
}

/// Text of a failed connect: a tagged name for the kinds Roc knows, the
/// kind's `Debug` name otherwise. A wait that would block counts as a timeout.
pub fn to_tcp_connect_err(err: &IoError) -> (r: String)
    ensures
        r@ == spec_tcp_connect_err(err.kind),
{
    match &err.kind {
        IoErrorKind::PermissionDenied => String::from_str("ErrorKind::PermissionDenied"),
        IoErrorKind::AddrInUse => String::from_str("ErrorKind::AddrInUse"),
        IoErrorKind::AddrNotAvailable => String::from_str("ErrorKind::AddrNotAvailable"),
        IoErrorKind::ConnectionRefused => String::from_str("ErrorKind::ConnectionRefused"),
        IoErrorKind::Interrupted => String::from_str("ErrorKind::Interrupted"),
        IoErrorKind::TimedOut => String::from_str("ErrorKind::TimedOut"),
        IoErrorKind::WouldBlock => String::from_str("ErrorKind::TimedOut"),
        IoErrorKind::Unsupported => String::from_str("ErrorKind::Unsupported"),
        other => kind_debug_name_string(other),
    }
}

/// Text of a failed read or write on an open stream.
pub fn to_tcp_stream_err(err: &IoError) -> (r: String)
    ensures
        r@ == spec_tcp_stream_err(err.kind),
{
    match &err.kind {
        IoErrorKind::PermissionDenied => String::from_str("ErrorKind::PermissionDenied"),
        IoErrorKind::ConnectionRefused => String::from_str("ErrorKind::ConnectionRefused"),
        IoErrorKind::ConnectionReset => String::from_str("ErrorKind::ConnectionReset"),
        IoErrorKind::Interrupted => String::from_str("ErrorKind::Interrupted"),
        IoErrorKind::TimedOut => String::from_str("ErrorKind::TimedOut"),
        IoErrorKind::WouldBlock => String::from_str("ErrorKind::TimedOut"),
        IoErrorKind::OutOfMemory => String::from_str("ErrorKind::OutOfMemory"),
        IoErrorKind::BrokenPipe => String::from_str("ErrorKind::BrokenPipe"),
        other => kind_debug_name_string(other),
    }
}

/// Text for a handle whose socket went back to its pool.
pub fn stream_not_found() -> (r: String)
    ensures
        r@ == "StreamNotFound"@,
{
    String::from_str("StreamNotFound")
}

/// Text for a read that hit end of stream before it had all it asked for.
pub fn unexpected_eof_text() -> (r: String)
    ensures
        r@ == "UnexpectedEof"@,
{
    String::from_str("UnexpectedEof")
}

/// Text for a delimited read that reached its byte limit first.
pub fn limit_exceeded_text() -> (r: String)
    ensures
        r@ == "LimitExceeded"@,
{
    String::from_str("LimitExceeded")
}

// ---------------------------------------------------------------------------
// Deadlines
// ---------------------------------------------------------------------------

/// A point on the monotonic clock, in nanoseconds from a fixed origin.
#[derive(Debug, Clone, Copy, PartialEq, Eq)]
pub struct Moment {
    pub nanos: u128,
}

pub const NANOS_PER_MILLI: u128 = 1_000_000;

/// The deadline `timeout_ms` milliseconds after `now`. A zero timeout means
/// "fail at once"; a deadline past the end of the clock is refused.
pub fn deadline_from_timeout(now: Moment, timeout_ms: u64) -> (r: Result<Moment, IoError>)
    ensures
        timeout_ms == 0 ==> (r matches Err(e) && e.kind == IoErrorKind::TimedOut
            && e.message@ == "TCP operation timed out"@),
        timeout_ms != 0 && now.nanos + timeout_ms * NANOS_PER_MILLI <= u128::MAX ==> r
            == Ok::<Moment, IoError>(Moment { nanos: (now.nanos + timeout_ms * NANOS_PER_MILLI) as u128 }),
        timeout_ms != 0 && now.nanos + timeout_ms * NANOS_PER_MILLI > u128::MAX ==> (r matches Err(e)
            && e.kind == IoErrorKind::InvalidInput && e.message@ == "TCP timeout is too large"@),
{
    if timeout_ms == 0 {
        return Err(timed_out());
    }
    let span: u128 = (timeout_ms as u128) * NANOS_PER_MILLI;
    if now.nanos <= u128::MAX - span {
        Ok(Moment { nanos: now.nanos + span })
    } else {
        Err(io_error_new(IoErrorKind::InvalidInput, "TCP timeout is too large"))
    }
}

/// What is left before `deadline`, in nanoseconds; nothing left is a timeout.
pub fn remaining_time(deadline: Moment, now: Moment) -> (r: Result<u128, IoError>)
    ensures
        deadline.nanos > now.nanos ==> r == Ok::<u128, IoError>((deadline.nanos - now.nanos) as u128),
        deadline.nanos <= now.nanos ==> (r matches Err(e) && e.kind == IoErrorKind::TimedOut
            && e.message@ == "TCP operation timed out"@),
{
    if deadline.nanos > now.nanos {
        Ok(deadline.nanos - now.nanos)
    } else {
        Err(timed_out())
    }
}

/// A remaining span turned back into the millisecond timeout that the
/// connect path takes. Whole milliseconds only, capped at `u64::MAX`, and
/// never 0, which would read as "fail immediately".
pub open spec fn spec_timeout_ms_from(remaining_nanos: u128) -> u64 {
    let millis = remaining_nanos / NANOS_PER_MILLI;
    if millis > u64::MAX {
        u64::MAX
    } else if millis == 0 {
        1
    } else {
        millis as u64
    }
}

pub fn timeout_ms_from(remaining_nanos: u128) -> (r: u64)
    ensures
        r == spec_timeout_ms_from(remaining_nanos),
        r >= 1,
{
    let millis: u128 = remaining_nanos / NANOS_PER_MILLI;
    let capped: u64 = if millis > u64::MAX as u128 {
        u64::MAX
    } else {
        millis as u64
    };
    if capped < 1 {
        1
    } else {
        capped
    }
}

/// The timeout handed to a dial out of what is left of a budget never
/// means "fail at once", and it never outlasts the budget, except that a
/// budget under a millisecond becomes one millisecond.
pub proof fn lemma_timeout_within_budget(remaining_nanos: u128)
    ensures
        spec_timeout_ms_from(remaining_nanos) >= 1,
        spec_timeout_ms_from(remaining_nanos) * NANOS_PER_MILLI <= remaining_nanos
            || (remaining_nanos < NANOS_PER_MILLI && spec_timeout_ms_from(remaining_nanos) == 1),
{
    let r = remaining_nanos as int;
    let millis = r / 1_000_000;
    assert(millis * 1_000_000 <= r) by (nonlinear_arith)
        requires
            millis == r / 1_000_000,
            r >= 0,
    ;
    assert(millis == 0 ==> r < 1_000_000) by (nonlinear_arith)
        requires
            millis == r / 1_000_000,
            r >= 0,
    ;
    if millis > u64::MAX {
        assert((u64::MAX as int) * 1_000_000 <= millis * 1_000_000) by (nonlinear_arith)
            requires
                millis > u64::MAX,
        ;
    }
}

/// The outcome of an operation run under a temporary socket timeout, once
/// the previous timeout has been put back: the operation's own error wins;
/// on success, a failure to restore is the error.
pub fn restore_timeout<T>(result: Result<T, IoError>, restored: Result<(), IoError>) -> (r: Result<T, IoError>)
    ensures
        result is Err ==> r == result,
        result is Ok && restored is Ok ==> r == result,
        result is Ok && restored is Err ==> r == Err::<T, IoError>(restored->Err_0),
{
    match result {
        Err(error) => Err(error),
        Ok(value) => match restored {
            Ok(()) => Ok(value),
            Err(error) => Err(error),
        },
    }
}

// ---------------------------------------------------------------------------
// Reads
// ---------------------------------------------------------------------------

/// The part of the buffered bytes that a read of at most `bytes_to_read`
/// bytes hands out (all of it, up to the limit).
pub fn read_up_to_len(bytes_to_read: u64, available: usize) -> (r: usize)
    ensures
        r == (if (available as int) < (bytes_to_read as int) { available as int } else { bytes_to_read as int }),
{
    if (available as u64) < bytes_to_read {
        available
    } else {
        bytes_to_read as usize
    }
}

/// A read of at most `bytes_to_read` bytes from what the stream has
/// buffered. A request for no bytes never touches the stream.
pub fn tcp_read_up_to_impl(available: &[u8], bytes_to_read: u64) -> (r: Vec<u8>)
    ensures
        r@ == available@.take(
            if (available.len() as int) < (bytes_to_read as int) { available.len() as int } else { bytes_to_read as int },
        ),
{
    let used = read_up_to_len(bytes_to_read, available.len());
    let mut received: Vec<u8> = Vec::new();
    let mut i: usize = 0;
    while i < used
        invariant
            used <= available.len(),
            i <= used,
            received@ == available@.take(i as int),
        decreases used - i,
    {
        received.push(available[i]);
        i = i + 1;
        assert(received@ =~= available@.take(i as int));
    }
    received
}

/// Whether a byte sequence holds a byte.
pub open spec fn holds_byte(s: Seq<u8>, b: u8) -> bool {
    exists|j: int| 0 <= j < s.len() && s[j] == b
}

/// How one turn of a delimited read ended.
#[derive(Debug, Clone, Copy, PartialEq, Eq)]
pub enum ReadUntilOutcome {
    /// No delimiter yet and the limit not hit: fill the buffer again.
    Continue,
    /// The delimiter arrived, or the stream ended.
    Finished,
    /// The byte limit was reached without a delimiter.
    LimitExceeded,
}

/// One turn's answer: how many buffered bytes were taken, and how it ended.
#[derive(Debug, Clone, Copy, PartialEq, Eq)]
pub struct ReadUntilTurn {
    pub used: usize,
    pub outcome: ReadUntilOutcome,
}

/// A read up to and including a delimiter byte, with an optional cap on
/// the bytes collected. The delimiter, when found, is the last byte.
pub struct ReadUntil {
    delim: u8,
    max_bytes: Option<u64>,
    buffer: Vec<u8>,
}

/// How many of `available` bytes a turn may look at, given what is
/// collected so far and the cap.
pub open spec fn spec_allowed(max_bytes: Option<u64>, collected: nat, available: nat) -> nat {
    match max_bytes {
        Some(limit) => if limit - collected < available { (limit - collected) as nat } else { available },
        None => available,
    }
}

/// The index of the first `d` in `s`, or the length of `s` when there is none.
pub open spec fn first_index(s: Seq<u8>, d: u8) -> nat
    decreases s.len(),
{
    if s.len() == 0 {
        0
    } else if s[0] == d {
        0
    } else {
        1 + first_index(s.drop_first(), d)
    }
}

/// `first_index` is the first position of the byte, or the length when absent.
pub proof fn lemma_first_index(s: Seq<u8>, d: u8)
    ensures
        first_index(s, d) <= s.len(),
        first_index(s, d) < s.len() ==> s[first_index(s, d) as int] == d,
        !holds_byte(s.take(first_index(s, d) as int), d),
        first_index(s, d) == s.len() <==> !holds_byte(s, d),
    decreases s.len(),
{
    if s.len() == 0 {
        assert(s.take(0) =~= Seq::<u8>::empty());
    } else if s[0] == d {
        assert(s.take(0) =~= Seq::<u8>::empty());
    } else {
        let t = s.drop_first();
        lemma_first_index(t, d);
        let f = first_index(t, d);
        assert(s.take(f as int + 1) =~= seq![s[0]] + t.take(f as int));
        assert forall|j: int| 0 <= j < f + 1 implies #[trigger] s.take(f as int + 1)[j] != d by {
            if j > 0 {
                assert(s.take(f as int + 1)[j] == t.take(f as int)[j - 1]);
            }
        }
        if holds_byte(s, d) {
            let j = choose|j: int| 0 <= j < s.len() && s[j] == d;
            assert(j > 0);
            assert(t[j - 1] == d);
        }
        if holds_byte(t, d) {
            let j = choose|j: int| 0 <= j < t.len() && t[j] == d;
            assert(s[j + 1] == d);
        }
    }
}

/// A position holding the byte with none before it is the first index.
pub proof fn lemma_first_index_at(s: Seq<u8>, d: u8, i: int)
    requires
        0 <= i < s.len(),
        s[i] == d,
        !holds_byte(s.take(i), d),
    ensures
        first_index(s, d) == i,
{
    lemma_first_index(s, d);
    let f = first_index(s, d) as int;
    if f < i {
        assert(s.take(i)[f] == d);
    } else if f > i {
        assert(s.take(f)[i] == d);
    }
}

/// What one turn of a delimited read does, over plain values: the bytes
/// collected afterwards, how many buffered bytes it takes, and how it ends.
pub open spec fn spec_feed(collected: Seq<u8>, available: Seq<u8>, delim: u8, max_bytes: Option<u64>) -> (Seq<u8>, nat, ReadUntilOutcome) {
    let allowed = spec_allowed(max_bytes, collected.len(), available.len());
    let window = available.take(allowed as int);
    let p = first_index(window, delim);
    if p < allowed {
        (collected + available.take(p as int + 1), p + 1, ReadUntilOutcome::Finished)
    } else {
        (
            collected + window,
            allowed,
            if allowed < available.len() {
                ReadUntilOutcome::LimitExceeded
            } else if allowed == 0 {
                ReadUntilOutcome::Finished
            } else {
                ReadUntilOutcome::Continue
            },
        )
    }
}

/// What a whole delimited read of `stream` (its bytes up to the end)
/// gives: up to and including the first delimiter when it lies within the
/// cap; all of the stream when it holds no delimiter within the cap and is
/// shorter than the cap; otherwise the cap is exceeded (`None`).
pub open spec fn spec_read_until(stream: Seq<u8>, delim: u8, max_bytes: Option<u64>) -> Option<Seq<u8>> {
    let p = first_index(stream, delim);
    match max_bytes {
        None => if p < stream.len() { Some(stream.take(p as int + 1)) } else { Some(stream) },
        Some(m) => if p < stream.len() && p < m {
            Some(stream.take(p as int + 1))
        } else if stream.len() < m {
            Some(stream)
        } else {
            None
        },
    }
}

/// A delimited read gives the same answer however the stream's bytes are
/// split into buffer fills. Take any state reached on `stream`: the bytes
/// collected so far are a delimiter-free prefix of the stream within the
/// cap, and the next fill holds the bytes that follow (empty only at the
/// end of the stream). Then the check made before each fill fails exactly
/// when the whole read exceeds the cap, and otherwise the turn either ends
/// with what the whole read gives (`Finished`), ends with the cap exceeded
/// exactly when the whole read does (`LimitExceeded`), or takes at least
/// one byte and leaves a state of the same kind (`Continue`).
pub proof fn lemma_read_until_turn(
    stream: Seq<u8>,
    collected: Seq<u8>,
    available: Seq<u8>,
    delim: u8,
    max_bytes: Option<u64>,
)
    requires
        collected.len() <= stream.len(),
        collected == stream.take(collected.len() as int),
        !holds_byte(collected, delim),
        max_bytes matches Some(m) ==> collected.len() <= m,
        collected.len() + available.len() <= stream.len(),
        available == stream.subrange(collected.len() as int, collected.len() + available.len() as int),
        available.len() > 0 || collected.len() == stream.len(),
    ensures
        (max_bytes matches Some(m) && collected.len() >= m) ==> spec_read_until(stream, delim, max_bytes) is None,
        !(max_bytes matches Some(m) && collected.len() >= m) ==> ({
            let (next, used, outcome) = spec_feed(collected, available, delim, max_bytes);
            &&& outcome == ReadUntilOutcome::Finished ==> spec_read_until(stream, delim, max_bytes) == Some(next)
            &&& outcome == ReadUntilOutcome::LimitExceeded ==> spec_read_until(stream, delim, max_bytes) is None
            &&& outcome == ReadUntilOutcome::Continue ==> {
                &&& used > 0
                &&& next.len() <= stream.len()
                &&& next == stream.take(next.len() as int)
                &&& !holds_byte(next, delim)
                &&& (max_bytes matches Some(m) ==> next.len() <= m)
            }
        }),
{
    let k = collected.len() as int;
    let a = available.len() as int;
    lemma_first_index(stream, delim);
    let big_p = first_index(stream, delim) as int;
    // No delimiter among the bytes already collected.
    if big_p < k {
        assert(collected[big_p] == stream[big_p]);
    }
    assert(big_p >= k);
    if max_bytes is Some && k >= max_bytes->0 {
        return;
    }
    let allowed = spec_allowed(max_bytes, collected.len(), available.len()) as int;
    let window = available.take(allowed);
    lemma_first_index(window, delim);
    let pw = first_index(window, delim) as int;
    assert(window =~= stream.subrange(k, k + allowed));
    if pw < allowed {
        assert(stream[k + pw] == window[pw]);
        assert forall|j: int| 0 <= j < k + pw implies #[trigger] stream.take(k + pw)[j] != delim by {
            if j < k {
                assert(stream.take(k + pw)[j] == collected[j]);
            } else {
                assert(stream.take(k + pw)[j] == window.take(pw)[j - k]);
            }
        }
        lemma_first_index_at(stream, delim, k + pw);
        assert(collected + available.take(pw + 1) =~= stream.take(k + pw + 1));
    } else {
        let next = collected + window;
        assert(next =~= stream.take(k + allowed));
        assert forall|j: int| 0 <= j < k + allowed implies #[trigger] next[j] != delim by {
            if j >= k {
                assert(next[j] == window[j - k]);
            }
        }
        if big_p < k + allowed {
            assert(next[big_p] == stream[big_p]);
        }
        if allowed < a {
        } else if allowed == 0 {
            assert(collected =~= stream);
        } else {
        }
    }
}

/// What one buffer fill offers when the reader asks for up to `size`
/// bytes (at least one) of `stream` from `pos` on: the next bytes, fewer
/// only when the stream ends first.
pub open spec fn spec_fill(stream: Seq<u8>, pos: nat, size: nat) -> Seq<u8> {
    let want: int = if size == 0 { 1 } else { size as int };
    let end: int = if pos + want < stream.len() { pos + want } else { stream.len() as int };
    stream.subrange(pos as int, end)
}

/// A whole delimited read of `stream`, driven the way the socket loop
/// drives it: check the cap, fill, take a turn, and go on while the turn
/// says so. The fills offer `sizes[0]`, `sizes[1]`, ... bytes. The answer
/// is `None` when the fills run out first, else the read's outcome
/// (`Some(bytes)`, or `None` for the cap exceeded).
pub open spec fn spec_read_until_run(
    stream: Seq<u8>,
    collected: Seq<u8>,
    sizes: Seq<nat>,
    delim: u8,
    max_bytes: Option<u64>,
) -> Option<Option<Seq<u8>>>
    decreases sizes.len(),
{
    if max_bytes is Some && collected.len() >= max_bytes->0 {
        Some(None)
    } else if sizes.len() == 0 {
        None
    } else {
        let available = spec_fill(stream, collected.len(), sizes[0]);
        let (next, used, outcome) = spec_feed(collected, available, delim, max_bytes);
        match outcome {
            ReadUntilOutcome::Finished => Some(Some(next)),
            ReadUntilOutcome::LimitExceeded => Some(None),
            ReadUntilOutcome::Continue => spec_read_until_run(stream, next, sizes.drop_first(), delim, max_bytes),
        }
    }
}

/// A delimited read's answer does not depend on how the stream's bytes
/// are split into buffer fills: whatever the fill sizes, a read that
/// finishes gives what the whole stream gives, and one more fill than the
/// stream has bytes always suffices for it to finish.
pub proof fn lemma_read_until_any_split(stream: Seq<u8>, sizes: Seq<nat>, delim: u8, max_bytes: Option<u64>)
    ensures
        spec_read_until_run(stream, Seq::<u8>::empty(), sizes, delim, max_bytes) matches Some(outcome)
            ==> outcome == spec_read_until(stream, delim, max_bytes),
        sizes.len() > stream.len() ==> spec_read_until_run(stream, Seq::<u8>::empty(), sizes, delim, max_bytes) is Some,
{
    assert(stream.take(0) =~= Seq::<u8>::empty());
    lemma_read_until_run_from(stream, Seq::<u8>::empty(), sizes, delim, max_bytes);
}

proof fn lemma_read_until_run_from(
    stream: Seq<u8>,
    collected: Seq<u8>,
    sizes: Seq<nat>,
    delim: u8,
    max_bytes: Option<u64>,
)
    requires
        collected.len() <= stream.len(),
        collected == stream.take(collected.len() as int),
        !holds_byte(collected, delim),
        max_bytes matches Some(m) ==> collected.len() <= m,
    ensures
        spec_read_until_run(stream, collected, sizes, delim, max_bytes) matches Some(outcome)
            ==> outcome == spec_read_until(stream, delim, max_bytes),
        sizes.len() > stream.len() - collected.len() ==> spec_read_until_run(stream, collected, sizes, delim, max_bytes) is Some,
    decreases sizes.len(),
{
    let k = collected.len();
    if max_bytes is Some && k >= max_bytes->0 {
        let probe = spec_fill(stream, k, 1);
        assert(probe == stream.subrange(k as int, k + probe.len() as int));
        lemma_read_until_turn(stream, collected, probe, delim, max_bytes);
        return;
    }
    if sizes.len() == 0 {
        return;
    }
    let available = spec_fill(stream, k, sizes[0]);
    assert(available.len() > 0 || k == stream.len());
    assert(available == stream.subrange(k as int, k + available.len() as int));
    lemma_read_until_turn(stream, collected, available, delim, max_bytes);
    let (next, used, outcome) = spec_feed(collected, available, delim, max_bytes);
    if outcome == ReadUntilOutcome::Continue {
        lemma_read_until_run_from(stream, next, sizes.drop_first(), delim, max_bytes);
    }
}

/// What a delimited read returns is a prefix of the stream, never longer
/// than the cap; it holds a delimiter only as its last byte, and it lacks
/// one only when the stream holds none within it (the stream ended first).
pub proof fn lemma_read_until_result(stream: Seq<u8>, delim: u8, max_bytes: Option<u64>)
    ensures
        spec_read_until(stream, delim, max_bytes) matches Some(v) ==> {
            &&& v.len() <= stream.len()
            &&& v == stream.take(v.len() as int)
            &&& (max_bytes matches Some(m) ==> v.len() <= m)
            &&& (holds_byte(v, delim) ==> v.last() == delim && !holds_byte(v.drop_last(), delim))
            &&& (!holds_byte(v, delim) ==> v == stream)
        },
{
    lemma_first_index(stream, delim);
    let p = first_index(stream, delim) as int;
    if p < stream.len() {
        let v = stream.take(p + 1);
        assert(v.drop_last() =~= stream.take(p));
        assert(v[p] == delim);
    } else {
        assert(stream.take(stream.len() as int) =~= stream);
    }
}

impl ReadUntil {
    pub closed spec fn collected(&self) -> Seq<u8> {
        self.buffer@
    }

    pub closed spec fn delim(&self) -> u8 {
        self.delim
    }

    pub closed spec fn max_bytes(&self) -> Option<u64> {
        self.max_bytes
    }

    /// What every read keeps: no delimiter collected yet, and never more
    /// than the cap.
    pub open spec fn wf(&self) -> bool {
        &&& !holds_byte(self.collected(), self.delim())
        &&& (self.max_bytes() matches Some(limit) ==> self.collected().len() <= limit)
    }

    pub fn new(delim: u8, max_bytes: Option<u64>) -> (r: ReadUntil)
        ensures
            r.wf(),
            r.delim() == delim,
            r.max_bytes() == max_bytes,
            r.collected() == Seq::<u8>::empty(),
    {
        ReadUntil { delim, max_bytes, buffer: Vec::new() }
    }

    /// Checked before every fill: the cap is already reached.
    pub fn limit_reached(&self) -> (r: bool)
        ensures
            r == (self.max_bytes() matches Some(limit) && self.collected().len() >= limit),
    {
        match self.max_bytes {
            Some(limit) => (self.buffer.len() as u64) >= limit,
            None => false,
        }
    }

    /// Takes what the stream has buffered: up to and including the first
    /// delimiter within the allowed bytes, or all allowed bytes. An empty
    /// buffer is the end of the stream. Allowed bytes short of what is
    /// buffered mean the cap is hit.
    pub fn feed(&mut self, available: &[u8]) -> (r: ReadUntilTurn)
        requires
            old(self).wf(),
            !(old(self).max_bytes() matches Some(limit) && old(self).collected().len() >= limit),
        ensures
            final(self).delim() == old(self).delim(),
            final(self).max_bytes() == old(self).max_bytes(),
            ({
                let allowed = spec_allowed(old(self).max_bytes(), old(self).collected().len(), available@.len());
                let window = available@.take(allowed as int);
                if holds_byte(window, old(self).delim()) {
                    &&& r.outcome == ReadUntilOutcome::Finished
                    &&& 0 < r.used <= allowed
                    &&& available@[r.used - 1] == old(self).delim()
                    &&& !holds_byte(available@.take(r.used - 1), old(self).delim())
                    &&& final(self).collected() == old(self).collected() + available@.take(r.used as int)
                } else {
                    &&& r.used == allowed
                    &&& final(self).collected() == old(self).collected() + window
                    &&& r.outcome == (if allowed < available@.len() {
                        ReadUntilOutcome::LimitExceeded
                    } else if allowed == 0 {
                        ReadUntilOutcome::Finished
                    } else {
                        ReadUntilOutcome::Continue
                    })
                    &&& final(self).wf()
                }
            }),
            spec_feed(old(self).collected(), available@, old(self).delim(), old(self).max_bytes())
                == (final(self).collected(), r.used as nat, r.outcome),
    {
        let ghost allowed_spec = spec_allowed(self.max_bytes(), self.buffer@.len(), available@.len());
        let allowed: usize = match self.max_bytes {
            Some(limit) => {
                let room: u64 = limit - self.buffer.len() as u64;
                if room < available.len() as u64 {
                    room as usize
                } else {
                    available.len()
                }
            },
            None => available.len(),
        };
        assert(allowed == allowed_spec);
        let mut i: usize = 0;
        while i < allowed
            invariant
                allowed <= available.len(),
                allowed == spec_allowed(old(self).max_bytes(), old(self).collected().len(), available@.len()),
                i <= allowed,
                self.delim() == old(self).delim(),
                self.max_bytes() == old(self).max_bytes(),
                self.buffer@ == old(self).buffer@ + available@.take(i as int),
                !holds_byte(available@.take(i as int), self.delim()),
            decreases allowed - i,
        {
            let b = available[i];
            self.buffer.push(b);
            assert(available@.take(i + 1) =~= available@.take(i as int).push(b));
            assert(self.buffer@ =~= old(self).buffer@ + available@.take(i + 1));
            if b == self.delim {
                proof {
                    assert(available@.take(allowed as int).take(i + 1) =~= available@.take(i + 1));
                    assert(available@.take(allowed as int)[i as int] == self.delim());
                    assert(holds_byte(available@.take(allowed as int), self.delim()));
                    assert(available@[i as int] == self.delim());
                    assert(!holds_byte(available@.take(i as int), self.delim()));
                    assert(available@.take(allowed as int).take(i as int) =~= available@.take(i as int));
                    lemma_first_index_at(available@.take(allowed as int), self.delim(), i as int);
                }
                return ReadUntilTurn { used: i + 1, outcome: ReadUntilOutcome::Finished };
            }
            proof {
                assert forall|j: int| 0 <= j < i + 1 implies #[trigger] available@.take(i + 1)[j] != self.delim() by {
                    if j < i {
                        assert(available@.take(i + 1)[j] == available@.take(i as int)[j]);
                    }
                }
            }
            i = i + 1;
        }
        proof {
            assert(available@.take(allowed as int) =~= available@.take(i as int));
            assert forall|j: int| 0 <= j < self.buffer@.len() implies #[trigger] self.buffer@[j] != self.delim() by {
                if j < old(self).buffer@.len() {
                    assert(self.buffer@[j] == old(self).buffer@[j]);
                } else {
                    assert(self.buffer@[j] == available@.take(i as int)[j - old(self).buffer@.len()]);
                }
            }
        }
        proof {
            lemma_first_index(available@.take(allowed as int), self.delim());
        }
        let outcome = if allowed < available.len() {
            ReadUntilOutcome::LimitExceeded
        } else if allowed == 0 {
            ReadUntilOutcome::Finished
        } else {
            ReadUntilOutcome::Continue
        };
        ReadUntilTurn { used: allowed, outcome }
    }

    /// The bytes collected.
    pub fn into_bytes(self) -> (r: Vec<u8>)
        ensures
            r@ == self.collected(),
    {
        self.buffer
    }
}

/// The fixed chunk size of an exact read.
pub const EXACT_READ_CHUNK: usize = 8192;

/// A read of exactly `capacity` bytes, chunk by chunk.
pub struct ExactRead {
    capacity: usize,
    buffer: Vec<u8>,
}

impl ExactRead {
    pub closed spec fn collected(&self) -> Seq<u8> {
        self.buffer@
    }

    /// How many bytes the read wants in all.
    pub closed spec fn capacity(&self) -> nat {
        self.capacity as nat
    }

    pub open spec fn wf(&self) -> bool {
        self.collected().len() <= self.capacity()
    }

    /// Starts an exact read. A request larger than the address space, or
    /// one whose memory cannot be reserved, is out of memory.
    pub fn new(bytes_to_read: u64) -> (r: Result<ExactRead, IoError>)
        ensures
            (bytes_to_read as int) > (usize::MAX as int) ==> (r matches Err(e) && e.kind
                == IoErrorKind::OutOfMemory && e.message@ == "requested TCP read does not fit in memory"@),
            r matches Ok(x) ==> x.wf() && x.capacity() == bytes_to_read && x.collected()
                == Seq::<u8>::empty(),
            r matches Err(e) ==> e.kind == IoErrorKind::OutOfMemory,
            (r is Err && (bytes_to_read as int) <= (usize::MAX as int)) ==> r->Err_0.message@
                == "could not reserve memory for TCP read"@,
    {
        if bytes_to_read > usize::MAX as u64 {
            return Err(io_error_new(
                IoErrorKind::OutOfMemory,
                "requested TCP read does not fit in memory",
            ));
        }
        let capacity = bytes_to_read as usize;
        let mut buffer: Vec<u8> = Vec::new();
        if !try_reserve_exact(&mut buffer, capacity) {
            return Err(io_error_new(IoErrorKind::OutOfMemory, "could not reserve memory for TCP read"));
        }
        Ok(ExactRead { capacity, buffer })
    }

    /// All bytes have arrived.
    pub fn is_complete(&self) -> (r: bool)
        requires
            self.wf(),
        ensures
            r == (self.collected().len() == self.capacity()),
    {
        self.buffer.len() >= self.capacity
    }

    /// How many bytes the next read asks for: what is missing, at most one
    /// chunk.
    pub fn next_chunk_len(&self) -> (r: usize)
        requires
            self.wf(),
        ensures
            r == (if self.capacity() - self.collected().len() < EXACT_READ_CHUNK {
                self.capacity() - self.collected().len()
            } else {
                EXACT_READ_CHUNK as int
            }),
    {
        let remaining = self.capacity - self.buffer.len();
        if remaining < EXACT_READ_CHUNK {
            remaining
        } else {
            EXACT_READ_CHUNK
        }
    }

    /// Takes what one read returned. A read of nothing is the end of the
    /// stream before all bytes arrived.
    pub fn feed(&mut self, data: &[u8]) -> (r: Result<(), IoError>)
        requires
            old(self).wf(),
            old(self).collected().len() + data@.len() <= old(self).capacity(),
        ensures
            final(self).wf(),
            final(self).capacity() == old(self).capacity(),
            data@.len() == 0 ==> final(self).collected() == old(self).collected() && (r matches Err(e)
                && e.kind == IoErrorKind::UnexpectedEof
                && e.message@ == "TCP stream ended before the requested bytes arrived"@),
            data@.len() > 0 ==> r is Ok && final(self).collected() == old(self).collected() + data@,
    {
        if data.len() == 0 {
            return Err(io_error_new(
                IoErrorKind::UnexpectedEof,
                "TCP stream ended before the requested bytes arrived",
            ));
        }
        let mut i: usize = 0;
        while i < data.len()
            invariant
                i <= data.len(),
                self.capacity == old(self).capacity,
                self.buffer@ == old(self).buffer@ + data@.take(i as int),
            decreases data.len() - i,
        {
            self.buffer.push(data[i]);
            i = i + 1;
            assert(self.buffer@ =~= old(self).buffer@ + data@.take(i as int));
        }
        assert(data@.take(i as int) =~= data@);
        Ok(())
    }

    pub fn into_bytes(self) -> (r: Vec<u8>)
        ensures
            r@ == self.collected(),
    {
        self.buffer
    }
}

/// A whole exact read of `capacity` bytes from `stream`, driven the way
/// the socket loop drives it: while bytes are missing, ask for at most one
/// chunk of what is missing and take what the read returns. The reads
/// return up to `sizes[0]`, `sizes[1]`, ... bytes of what was asked (at
/// least one unless the stream has ended). The answer is `None` when the
/// reads run out first, else the bytes (`Some(bytes)`) or the stream's
/// early end (`None`).
pub open spec fn spec_exact_read_run(stream: Seq<u8>, collected: Seq<u8>, sizes: Seq<nat>, capacity: nat) -> Option<Option<Seq<u8>>>
    decreases sizes.len(),
{
    if collected.len() >= capacity {
        Some(Some(collected))
    } else if sizes.len() == 0 {
        None
    } else {
        let missing = capacity - collected.len();
        let chunk: nat = if missing < EXACT_READ_CHUNK { missing as nat } else { EXACT_READ_CHUNK as nat };
        let size: nat = if sizes[0] < chunk { sizes[0] } else { chunk };
        let data = spec_fill(stream, collected.len(), size);
        if data.len() == 0 {
            Some(None)
        } else {
            spec_exact_read_run(stream, collected + data, sizes.drop_first(), capacity)
        }
    }
}

/// An exact read's answer does not depend on how the stream's bytes
/// arrive: whatever the read sizes, a read that finishes gives the first
/// `capacity` bytes of the stream when it has that many, and reports the
/// early end otherwise; `capacity` reads always suffice for it to finish.
pub proof fn lemma_exact_read_any_split(stream: Seq<u8>, sizes: Seq<nat>, capacity: nat)
    ensures
        spec_exact_read_run(stream, Seq::<u8>::empty(), sizes, capacity) matches Some(outcome) ==> outcome == (
            if stream.len() >= capacity { Some(stream.take(capacity as int)) } else { None::<Seq<u8>> }),
        sizes.len() >= capacity ==> spec_exact_read_run(stream, Seq::<u8>::empty(), sizes, capacity) is Some,
{
    assert(stream.take(0) =~= Seq::<u8>::empty());
    lemma_exact_read_run_from(stream, Seq::<u8>::empty(), sizes, capacity);
}

proof fn lemma_exact_read_run_from(stream: Seq<u8>, collected: Seq<u8>, sizes: Seq<nat>, capacity: nat)
    requires
        collected.len() <= capacity,
        collected.len() <= stream.len(),
        collected == stream.take(collected.len() as int),
    ensures
        spec_exact_read_run(stream, collected, sizes, capacity) matches Some(outcome) ==> outcome == (
            if stream.len() >= capacity { Some(stream.take(capacity as int)) } else { None::<Seq<u8>> }),
        sizes.len() + collected.len() >= capacity ==> spec_exact_read_run(stream, collected, sizes, capacity) is Some,
    decreases sizes.len(),
{
    let k = collected.len();
    if k >= capacity {
        return;
    }
    if sizes.len() == 0 {
        return;
    }
    let missing = capacity - k;
    let chunk: nat = if missing < EXACT_READ_CHUNK { missing as nat } else { EXACT_READ_CHUNK as nat };
    let size: nat = if sizes[0] < chunk { sizes[0] } else { chunk };
    let data = spec_fill(stream, k, size);
    if data.len() == 0 {
        assert(k == stream.len());
    } else {
        let next = collected + data;
        assert(next =~= stream.take(next.len() as int));
        lemma_exact_read_run_from(stream, next, sizes.drop_first(), capacity);
    }
}

/// `Vec::try_reserve_exact`.
///
/// Whether the allocator grants the memory depends on the machine, so
/// nothing is promised of the answer; the contents are never changed.
#[verifier::external_body]
fn try_reserve_exact(v: &mut Vec<u8>, additional: usize) -> (ok: bool)
    ensures
        final(v)@ == old(v)@,
{
    v.try_reserve_exact(additional).is_ok()
}

/// One write of a full-buffer write loop returned `count`: the bytes now
/// written in all, or `WriteZero` when the socket took nothing.
pub fn tcp_write_progress(written: usize, total: usize, count: usize) -> (r: Result<usize, IoError>)
    requires
        written + count <= total,
    ensures
        count == 0 ==> (r matches Err(e) && e.kind == IoErrorKind::WriteZero),
        count > 0 ==> r == Ok::<usize, IoError>((written + count) as usize),
{
    if count == 0 {
        Err(error_of_kind(IoErrorKind::WriteZero))
    } else {
        Ok(written + count)
    }
}

// ---------------------------------------------------------------------------
// Connecting
// ---------------------------------------------------------------------------

/// The error of a name lookup that did not come back in time (the worker
/// ran out of time) or at all (the worker stopped).
pub fn resolve_wait_error(disconnected: bool) -> (r: IoError)
    ensures
        !disconnected ==> r.kind == IoErrorKind::TimedOut && r.message@ == "TCP operation timed out"@,
        disconnected ==> r.kind == IoErrorKind::Other && r.message@
            == "TCP address resolution worker stopped unexpectedly"@,
{
    if disconnected {
        io_error_new(IoErrorKind::Other, "TCP address resolution worker stopped unexpectedly")
    } else {
        timed_out()
    }
}

/// The failures of a connect that tries each resolved address in turn.
pub struct ConnectAttempts {
    last_error: Option<IoError>,
}

impl ConnectAttempts {
    /// The failure of the most recent attempt, if any was made.
    pub closed spec fn last_error(&self) -> Option<IoError> {
        self.last_error
    }

    pub fn new() -> (r: ConnectAttempts)
        ensures
            r.last_error() is None,
    {
        ConnectAttempts { last_error: None }
    }

    /// An address refused: its error replaces any earlier one.
    pub fn record_failure(&mut self, error: IoError)
        ensures
            final(self).last_error() == Some(error),
    {
        self.last_error = Some(error);
    }

    /// Every address failed: the connect reports the last failure, or,
    /// when the name resolved to no address at all, that.
    pub fn into_error(self) -> (r: IoError)
        ensures
            self.last_error() matches Some(e) ==> r == e,
            self.last_error() is None ==> r.kind == IoErrorKind::AddrNotAvailable && r.message@
                == "hostname resolved to no TCP addresses"@,
    {
        match self.last_error {
            Some(error) => error,
            None => io_error_new(IoErrorKind::AddrNotAvailable, "hostname resolved to no TCP addresses"),
        }
    }
}

// ---------------------------------------------------------------------------
// Results
// ---------------------------------------------------------------------------

/// Why a delimited read failed.
#[derive(Debug, Clone, PartialEq, Eq)]
pub enum ReadUntilError {
    Io(IoError),
    LimitExceeded,
}

pub type TcpConnectResult = Result<u64, String>;

pub type TcpReadResult = Result<Vec<u8>, String>;

pub type TcpWriteResult = Result<(), String>;

/// A connected stream, by its handle id.
pub fn try_tcp_connect_ok(handle: u64) -> (r: TcpConnectResult)
    ensures
        r == Ok::<u64, String>(handle),
{
    Ok(handle)
}

pub fn try_tcp_connect_err(error: String) -> (r: TcpConnectResult)
    ensures
        r == Err::<u64, String>(error),
{
    Err(error)
}

pub fn try_tcp_read_ok(bytes: Vec<u8>) -> (r: TcpReadResult)
    ensures
        r == Ok::<Vec<u8>, String>(bytes),
{
    Ok(bytes)
}

pub fn try_tcp_read_err(error: String) -> (r: TcpReadResult)
    ensures
        r == Err::<Vec<u8>, String>(error),
{
    Err(error)
}

pub fn try_tcp_write_ok() -> (r: TcpWriteResult)
    ensures
        r == Ok::<(), String>(()),
{
    Ok(())
}

pub fn try_tcp_write_err(error: String) -> (r: TcpWriteResult)
    ensures
        r == Err::<(), String>(error),
{
    Err(error)
}

/// The result of a connect.
pub fn tcp_connect_result(result: Result<u64, IoError>) -> (r: TcpConnectResult)
    ensures
        result is Ok ==> r == Ok::<u64, String>(result->Ok_0),
        result is Err ==> (r matches Err(m) && m@ == spec_tcp_connect_err(result->Err_0.kind)),
{
    match result {
        Ok(handle) => try_tcp_connect_ok(handle),
        Err(error) => try_tcp_connect_err(to_tcp_connect_err(&error)),
    }
}

/// The result of a read of at most some bytes.
pub fn tcp_read_result(result: Result<Vec<u8>, IoError>) -> (r: TcpReadResult)
    ensures
        result is Ok ==> r == Ok::<Vec<u8>, String>(result->Ok_0),
        result is Err ==> (r matches Err(m) && m@ == spec_tcp_stream_err(result->Err_0.kind)),
{
    match result {
        Ok(bytes) => try_tcp_read_ok(bytes),
        Err(error) => try_tcp_read_err(to_tcp_stream_err(&error)),
    }
}

/// The result of a read of exactly some bytes: a stream that ended first
/// is reported as such, whatever its message.
pub fn tcp_read_exactly_result(result: Result<Vec<u8>, IoError>) -> (r: TcpReadResult)
    ensures
        result is Ok ==> r == Ok::<Vec<u8>, String>(result->Ok_0),
        result is Err && result->Err_0.kind == IoErrorKind::UnexpectedEof ==> (r matches Err(m) && m@
            == "UnexpectedEof"@),
        result is Err && result->Err_0.kind != IoErrorKind::UnexpectedEof ==> (r matches Err(m) && m@
            == spec_tcp_stream_err(result->Err_0.kind)),
{
    match result {
        Ok(bytes) => try_tcp_read_ok(bytes),
        Err(error) => match error.kind {
            IoErrorKind::UnexpectedEof => try_tcp_read_err(unexpected_eof_text()),
            _ => try_tcp_read_err(to_tcp_stream_err(&error)),
        },
    }
}

/// The result of a delimited read.
pub fn tcp_read_until_result(result: Result<Vec<u8>, ReadUntilError>) -> (r: TcpReadResult)
    ensures
        result is Ok ==> r == Ok::<Vec<u8>, String>(result->Ok_0),
        result matches Err(ReadUntilError::LimitExceeded) ==> (r matches Err(m) && m@ == "LimitExceeded"@),
        result matches Err(ReadUntilError::Io(e)) ==> (r matches Err(m) && m@ == spec_tcp_stream_err(e.kind)),
{
    match result {
        Ok(bytes) => try_tcp_read_ok(bytes),
        Err(ReadUntilError::Io(error)) => try_tcp_read_err(to_tcp_stream_err(&error)),
        Err(ReadUntilError::LimitExceeded) => try_tcp_read_err(limit_exceeded_text()),
    }
}

/// The result of a write.
pub fn tcp_write_result(result: Result<(), IoError>) -> (r: TcpWriteResult)
    ensures
        result is Ok ==> r == Ok::<(), String>(()),
        result is Err ==> (r matches Err(m) && m@ == spec_tcp_stream_err(result->Err_0.kind)),
{
    match result {
        Ok(()) => try_tcp_write_ok(),
        Err(error) => try_tcp_write_err(to_tcp_stream_err(&error)),
    }
}

} // verus!
