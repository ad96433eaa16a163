//! Spawned children: the buffer a child's stdout or stderr is drained into,
//! the reads served from it, and the table of live children.
//!
//! Threads, pipes and processes stay with the caller; what is kept here is
//! the state they share and every decision taken on it.
use vstd::prelude::*;
use std::collections::VecDeque;
use std::collections::HashMap;
use vstd::std_specs::iter::IteratorSpec;
use vstd::std_specs::hash::{spec_keys_iter, axiom_spec_keys_iter};
use crate::io_error::{IoError, IoErrorKind, error_of_kind, std_kind_description, process_not_found};

verus! {

/// Reads one turn of the background reader may make before handing the
/// lock back.
pub const READ_BUDGET: usize = 8;

/// The upper bound of the fd sweep in a leash's watchdog: the soft limit
/// on open files (1024 when it cannot be read), at most 2^20 in case the
/// limit is unlimited.
pub fn fd_sweep_limit(soft_nofile: Option<u64>) -> (r: i32)
    ensures
        soft_nofile is None ==> r == 1024,
        soft_nofile matches Some(soft) ==> r == (if soft < 0x10_0000 { soft as int } else { 0x10_0000 }),
{
    let soft: u64 = match soft_nofile {
        Some(limit) => limit,
        None => 1024,
    };
    if soft < 0x10_0000 {
        soft as i32
    } else {
        0x10_0000
    }
}

/// What a read that refuses to wait found in the pipe.
#[derive(Debug, Clone, Copy, PartialEq, Eq)]
pub enum PipeRead {
    /// This many bytes arrived.
    Data(usize),
    /// Nothing there right now, though the pipe is still open.
    Empty,
    /// Every writer is gone.
    Closed,
}

/// What one read from a pipe that refuses to wait came to: `None` when it
/// was interrupted by a signal and must be made again (an empty answer
/// there would mislead a caller collecting a dead child's output).
pub fn classify_pipe_read(read: Result<usize, IoError>) -> (r: Option<Result<PipeRead, IoError>>)
    ensures
        read == Ok::<usize, IoError>(0) ==> r == Some(Ok::<PipeRead, IoError>(PipeRead::Closed)),
        (read matches Ok(n) && n > 0) ==> r == Some(Ok::<PipeRead, IoError>(PipeRead::Data(read->Ok_0))),
        (read matches Err(e) && e.kind == IoErrorKind::WouldBlock) ==> r == Some(
            Ok::<PipeRead, IoError>(PipeRead::Empty),
        ),
        (read matches Err(e) && e.kind == IoErrorKind::Interrupted) ==> r is None,
        (read matches Err(e) && e.kind != IoErrorKind::WouldBlock && e.kind != IoErrorKind::Interrupted) ==> r
            == Some(Err::<PipeRead, IoError>(read->Err_0)),
{
    match read {
        Ok(0) => Some(Ok(PipeRead::Closed)),
        Ok(n) => Some(Ok(PipeRead::Data(n))),
        Err(error) => match error.kind {
            IoErrorKind::WouldBlock => Some(Ok(PipeRead::Empty)),
            IoErrorKind::Interrupted => None,
            _ => Some(Err(error)),
        },
    }
}

/// How a turn of collecting from the pipe ended.
#[derive(Debug, Clone, Copy, PartialEq, Eq)]
pub enum Collected {
    /// The pipe ran dry.
    Drained,
    /// The turn's budget ran out with bytes still waiting.
    More,
    /// Every writer is gone.
    Closed,
}

/// What a child's reader thread does after a turn of collecting.
#[derive(Debug, Clone, Copy, PartialEq, Eq)]
pub enum ReaderNext {
    /// The stream has ended or failed: the thread stops.
    Retire,
    /// Bytes are still waiting: collect again at once.
    Again,
    /// The pipe ran dry: wait until it has something to say.
    WaitForPipe,
}

/// What an exact read can do now.
#[derive(Debug)]
pub enum ReadExactStep {
    /// The bytes, taken from the front of the buffer.
    Ready(Vec<u8>),
    /// The stream failed, or ended short.
    Failed(IoError),
    /// Not enough bytes yet: wait for the reader to bring more.
    Wait,
}

/// Whether a collecting turn that has made `reads` reads may make another.
/// With no budget a turn goes on until the pipe runs dry.
pub fn collect_may_read(reads: usize, budget: Option<usize>) -> (r: bool)
    ensures
        r == !(budget matches Some(b) && reads >= b),
{
    match budget {
        Some(b) => reads < b,
        None => true,
    }
}

/// The buffered output of one of a child's streams.
pub struct StreamState {
    data: VecDeque<u8>,
    eof: bool,
    stop: bool,
    err: Option<IoError>,
}

impl StreamState {
    /// The bytes buffered and not yet handed out, oldest first.
    pub closed spec fn data(&self) -> Seq<u8> {
        self.data@
    }

    /// The stream has ended (or failed).
    pub closed spec fn eof(&self) -> bool {
        self.eof
    }

    /// Nobody will look at the buffer again: the reader should retire.
    pub closed spec fn stop(&self) -> bool {
        self.stop
    }

    /// A failure not yet reported.
    pub closed spec fn err(&self) -> Option<IoError> {
        self.err
    }

    /// A fresh buffer; a stream with no pipe is closed from the start.
    pub fn new(has_pipe: bool) -> (r: StreamState)
        ensures
            r.data() == Seq::<u8>::empty(),
            r.eof() == !has_pipe,
            !r.stop(),
            r.err() is None,
    {
        StreamState { data: VecDeque::new(), eof: !has_pipe, stop: false, err: None }
    }

    pub fn is_eof(&self) -> (r: bool)
        ensures
            r == self.eof(),
    {
        self.eof
    }

    pub fn is_stopped(&self) -> (r: bool)
        ensures
            r == self.stop(),
    {
        self.stop
    }

    /// Bytes that arrived from the pipe go to the back of the buffer.
    pub fn append(&mut self, bytes: &[u8])
        ensures
            final(self).data() == old(self).data() + bytes@,
            final(self).eof() == old(self).eof(),
            final(self).stop() == old(self).stop(),
            final(self).err() == old(self).err(),
    {
        let mut i: usize = 0;
        while i < bytes.len()
            invariant
                i <= bytes@.len(),
                self.data@ == old(self).data@ + bytes@.take(i as int),
                self.eof == old(self).eof,
                self.stop == old(self).stop,
                self.err == old(self).err,
            decreases bytes@.len() - i,
        {
            self.data.push_back(bytes[i]);
            i = i + 1;
            assert(self.data@ =~= old(self).data@ + bytes@.take(i as int));
        }
        assert(bytes@.take(i as int) =~= bytes@);
    }

    /// The pipe closed: every byte there will ever be is buffered.
    pub fn mark_eof(&mut self)
        ensures
            final(self).eof(),
            final(self).data() == old(self).data(),
            final(self).stop() == old(self).stop(),
            final(self).err() == old(self).err(),
    {
        self.eof = true;
    }

    /// The reader failed: the error waits for the next read, and the
    /// stream counts as ended.
    pub fn fail(&mut self, error: IoError)
        ensures
            final(self).eof(),
            final(self).err() == Some(error),
            final(self).data() == old(self).data(),
            final(self).stop() == old(self).stop(),
    {
        self.err = Some(error);
        self.eof = true;
    }

    /// Takes the outcome of a reader thread's collecting turn into the
    /// buffer's state and says what the thread does next: a failure is kept
    /// for the next read and ends the stream, a closed pipe ends it, and
    /// otherwise nothing changes.
    pub fn settle_turn(&mut self, turn: Result<Collected, IoError>) -> (r: ReaderNext)
        ensures
            final(self).data() == old(self).data(),
            final(self).stop() == old(self).stop(),
            turn is Err ==> r == ReaderNext::Retire && final(self).eof() && final(self).err() == Some(turn->Err_0),
            turn == Ok::<Collected, IoError>(Collected::Closed) ==> r == ReaderNext::Retire && final(self).eof()
                && final(self).err() == old(self).err(),
            turn == Ok::<Collected, IoError>(Collected::More) ==> r == ReaderNext::Again && final(self).eof()
                == old(self).eof() && final(self).err() == old(self).err(),
            turn == Ok::<Collected, IoError>(Collected::Drained) ==> r == ReaderNext::WaitForPipe
                && final(self).eof() == old(self).eof() && final(self).err() == old(self).err(),
    {
        match turn {
            Err(error) => {
                self.fail(error);
                ReaderNext::Retire
            },
            Ok(Collected::Closed) => {
                self.mark_eof();
                ReaderNext::Retire
            },
            Ok(Collected::More) => ReaderNext::Again,
            Ok(Collected::Drained) => ReaderNext::WaitForPipe,
        }
    }

    /// Accounts for one read made without waiting: bytes are buffered and
    /// the turn goes on (`None`); an empty pipe ends the turn drained; a
    /// closed one ends it closed.
    pub fn absorb(&mut self, read: PipeRead, chunk: &[u8]) -> (r: Option<Collected>)
        requires
            read matches PipeRead::Data(n) ==> n == chunk@.len(),
        ensures
            read is Data ==> r is None && final(self).data() == old(self).data() + chunk@,
            read is Empty ==> r == Some(Collected::Drained) && final(self).data() == old(self).data(),
            read is Closed ==> r == Some(Collected::Closed) && final(self).data() == old(self).data(),
            final(self).eof() == old(self).eof(),
            final(self).stop() == old(self).stop(),
            final(self).err() == old(self).err(),
    {
        match read {
            PipeRead::Data(_) => {
                self.append(chunk);
                None
            },
            PipeRead::Empty => Some(Collected::Drained),
            PipeRead::Closed => Some(Collected::Closed),
        }
    }

    /// One look at the buffer for a read of exactly `num_bytes` bytes:
    /// enough bytes are handed out from the front; otherwise a pending
    /// failure is reported once; otherwise an ended stream is an unexpected
    /// end; otherwise the reader must wait.
    pub fn try_read_exact(&mut self, num_bytes: u64) -> (r: ReadExactStep)
        ensures
            final(self).eof() == old(self).eof(),
            final(self).stop() == old(self).stop(),
            old(self).data().len() >= num_bytes ==> (r matches ReadExactStep::Ready(bytes)
                && bytes@ == old(self).data().take(num_bytes as int) && final(self).data()
                == old(self).data().skip(num_bytes as int) && final(self).err() == old(self).err()),
            old(self).data().len() < num_bytes && old(self).err() is Some ==> (r matches ReadExactStep::Failed(e)
                && e == old(self).err()->Some_0 && final(self).err() is None && final(self).data()
                == old(self).data()),
            old(self).data().len() < num_bytes && old(self).err() is None && old(self).eof() ==> (r matches ReadExactStep::Failed(e)
                && e.kind == IoErrorKind::UnexpectedEof && e.message@ == std_kind_description(
                IoErrorKind::UnexpectedEof,
            ) && final(self).err() is None && final(self).data() == old(self).data()),
            old(self).data().len() < num_bytes && old(self).err() is None && !old(self).eof() ==> (r matches ReadExactStep::Wait
                && final(self).err() is None && final(self).data() == old(self).data()),
    {
        if (self.data.len() as u64) >= num_bytes {
            let n = num_bytes as usize;
            let mut bytes: Vec<u8> = Vec::new();
            let mut i: usize = 0;
            while i < n
                invariant
                    n == num_bytes,
                    n <= old(self).data@.len(),
                    i <= n,
                    bytes@ == old(self).data@.take(i as int),
                    self.data@ == old(self).data@.skip(i as int),
                    self.eof == old(self).eof,
                    self.stop == old(self).stop,
                    self.err == old(self).err,
                decreases n - i,
            {
                let b = self.data.pop_front().unwrap();
                bytes.push(b);
                i = i + 1;
                assert(bytes@ =~= old(self).data@.take(i as int));
                assert(self.data@ =~= old(self).data@.skip(i as int));
            }
            return ReadExactStep::Ready(bytes);
        }
        match self.err.take() {
            Some(err) => ReadExactStep::Failed(err),
            None => {
                if self.eof {
                    ReadExactStep::Failed(error_of_kind(IoErrorKind::UnexpectedEof))
                } else {
                    ReadExactStep::Wait
                }
            },
        }
    }

    /// Everything buffered, handed out at once; a pending failure instead,
    /// reported once.
    pub fn take_all(&mut self) -> (r: Result<Vec<u8>, IoError>)
        ensures
            final(self).eof() == old(self).eof(),
            final(self).stop() == old(self).stop(),
            final(self).err() is None,
            old(self).err() matches Some(e) ==> r == Err::<Vec<u8>, IoError>(e) && final(self).data()
                == old(self).data(),
            old(self).err() is None ==> (r matches Ok(bytes) && bytes@ == old(self).data()
                && final(self).data() == Seq::<u8>::empty()),
    {
        match self.err.take() {
            Some(err) => Err(err),
            None => {
                let mut bytes: Vec<u8> = Vec::new();
                while self.data.len() > 0
                    invariant
                        bytes@ + self.data@ == old(self).data@,
                        self.eof == old(self).eof,
                        self.stop == old(self).stop,
                        self.err is None,
                    decreases self.data@.len(),
                {
                    let ghost before = self.data@;
                    let b = self.data.pop_front().unwrap();
                    bytes.push(b);
                    assert(bytes@ + self.data@ =~= old(self).data@) by {
                        assert(before =~= seq![b] + self.data@);
                    }
                }
                assert(bytes@ =~= old(self).data@);
                Ok(bytes)
            },
        }
    }

    /// A final collection must first empty the pipe itself: there is a
    /// pipe, it has not closed, and the reader has not been retired.
    pub fn needs_final_collect(&self, has_pipe: bool) -> (r: bool)
        ensures
            r == (has_pipe && !self.eof() && !self.stop()),
    {
        has_pipe && !self.eof && !self.stop
    }

    /// Takes everything the child left without waiting for the pipe to
    /// close, once the child is known to be gone. `collected` is how the
    /// final collection went, if one was made. The reader is retired either
    /// way.
    pub fn finish_pending(&mut self, collected: Option<Result<Collected, IoError>>) -> (r: Result<Vec<u8>, IoError>)
        ensures
            final(self).stop(),
            collected matches Some(Err(e)) ==> r == Err::<Vec<u8>, IoError>(e) && final(self).data()
                == old(self).data() && final(self).err() == old(self).err(),
            !(collected matches Some(Err(_))) ==> {
                &&& final(self).eof() == (old(self).eof() || collected == Some(
                    Ok::<Collected, IoError>(Collected::Closed),
                ))
                &&& final(self).err() is None
                &&& (old(self).err() matches Some(e) ==> r == Err::<Vec<u8>, IoError>(e))
                &&& (old(self).err() is None ==> (r matches Ok(bytes) && bytes@ == old(self).data()
                    && final(self).data() == Seq::<u8>::empty()))
            },
    {
        match collected {
            Some(Err(e)) => {
                self.stop = true;
                return Err(e);
            },
            Some(Ok(Collected::Closed)) => {
                self.eof = true;
            },
            _ => {},
        }
        self.stop = true;
        self.take_all()
    }
}

/// What a stream buffer holding `data` hands out over `steps`, and what it
/// holds afterwards. In each step bytes arrive from the pipe (appended),
/// then an exact read of some count is tried: it takes that many bytes
/// from the front when they are there, and takes nothing otherwise.
pub open spec fn spec_serve(data: Seq<u8>, steps: Seq<(Seq<u8>, nat)>) -> (Seq<u8>, Seq<u8>)
    decreases steps.len(),
{
    if steps.len() == 0 {
        (Seq::<u8>::empty(), data)
    } else {
        let arrived = data + steps[0].0;
        let n = steps[0].1;
        let served = if arrived.len() >= n { arrived.take(n as int) } else { Seq::<u8>::empty() };
        let kept = if arrived.len() >= n { arrived.skip(n as int) } else { arrived };
        let (later, left) = spec_serve(kept, steps.drop_first());
        (served + later, left)
    }
}

/// Everything that arrives over `steps`, in order.
pub open spec fn spec_arrivals(steps: Seq<(Seq<u8>, nat)>) -> Seq<u8>
    decreases steps.len(),
{
    if steps.len() == 0 {
        Seq::<u8>::empty()
    } else {
        steps[0].0 + spec_arrivals(steps.drop_first())
    }
}

/// Law: a child's output leaves its buffer exactly once and in the order
/// it arrived. However arrivals and exact reads interleave, what the reads
/// handed out, followed by what is still buffered, is what was buffered at
/// the start followed by everything that arrived.
pub proof fn lemma_reads_keep_arrival_order(data: Seq<u8>, steps: Seq<(Seq<u8>, nat)>)
    ensures
        spec_serve(data, steps).0 + spec_serve(data, steps).1 == data + spec_arrivals(steps),
    decreases steps.len(),
{
    if steps.len() > 0 {
        let arrived = data + steps[0].0;
        let n = steps[0].1;
        let served = if arrived.len() >= n { arrived.take(n as int) } else { Seq::<u8>::empty() };
        let kept = if arrived.len() >= n { arrived.skip(n as int) } else { arrived };
        lemma_reads_keep_arrival_order(kept, steps.drop_first());
        assert(served + kept =~= arrived);
        let (later, left) = spec_serve(kept, steps.drop_first());
        assert(served + later + left =~= served + (later + left));
        assert(data + spec_arrivals(steps) =~= arrived + spec_arrivals(steps.drop_first()));
    } else {
        assert(data + Seq::<u8>::empty() =~= data);
        assert(Seq::<u8>::empty() + data =~= data);
    }
}

/// The table of live children, keyed by id. Each entry says whether the
/// child is leashed (its whole process tree dies with the host) and holds
/// whatever the caller keeps for it.
pub struct ProcessTable<P> {
    entries: HashMap<u64, (bool, P)>,
    next_id: u64,
}

impl<P> ProcessTable<P> {
    /// The live children.
    pub closed spec fn entries(&self) -> Map<u64, (bool, P)> {
        self.entries@
    }

    /// The id the next spawn receives.
    pub closed spec fn next_id(&self) -> u64 {
        self.next_id
    }

    /// Ids are handed out in increasing order and never reused: every live
    /// id is below the next one, and ids start at 1.
    pub open spec fn wf(&self) -> bool {
        &&& self.next_id() >= 1
        &&& forall|id: u64| #[trigger] self.entries().contains_key(id) ==> 1 <= id < self.next_id()
    }

    pub fn new() -> (r: ProcessTable<P>)
        ensures
            r.wf(),
            r.entries() == Map::<u64, (bool, P)>::empty(),
            r.next_id() == 1,
    {
        ProcessTable { entries: HashMap::new(), next_id: 1 }
    }

    /// Registers a new child under a fresh id. No id is ever given twice;
    /// the table refuses once the ids run out.
    pub fn insert_new(&mut self, leashed: bool, process: P) -> (r: Option<u64>)
        requires
            old(self).wf(),
        ensures
            final(self).wf(),
            old(self).next_id() < u64::MAX ==> r == Some(old(self).next_id()) && final(self).entries()
                == old(self).entries().insert(old(self).next_id(), (leashed, process))
                && final(self).next_id() == old(self).next_id() + 1,
            old(self).next_id() == u64::MAX ==> r is None && final(self).entries() == old(self).entries()
                && final(self).next_id() == old(self).next_id(),
            r matches Some(id) ==> !old(self).entries().contains_key(id),
            r matches Some(id) ==> id < final(self).next_id(),
            final(self).next_id() >= old(self).next_id(),
    {
        broadcast use vstd::std_specs::hash::group_hash_axioms;
        if self.next_id == u64::MAX {
            return None;
        }
        let id = self.next_id;
        self.entries.insert(id, (leashed, process));
        self.next_id = id + 1;
        assert forall|k: u64| #[trigger] self.entries().contains_key(k) implies 1 <= k < self.next_id() by {
            if k != id {
                assert(old(self).entries().contains_key(k));
            }
        }
        Some(id)
    }

    /// Registers a new child under a fresh id, or, once the ids have run
    /// out, hands the child back untouched so that the caller can take it
    /// down rather than leave it running with no id to reach it by.
    pub fn insert_or_return(&mut self, leashed: bool, process: P) -> (r: Result<u64, P>)
        requires
            old(self).wf(),
        ensures
            final(self).wf(),
            old(self).next_id() < u64::MAX ==> r == Ok::<u64, P>(old(self).next_id()) && final(self).entries()
                == old(self).entries().insert(old(self).next_id(), (leashed, process))
                && final(self).next_id() == old(self).next_id() + 1,
            old(self).next_id() == u64::MAX ==> r == Err::<u64, P>(process) && final(self).entries()
                == old(self).entries() && final(self).next_id() == old(self).next_id(),
    {
        if self.next_id == u64::MAX {
            return Err(process);
        }
        match self.insert_new(leashed, process) {
            Some(id) => Ok(id),
            None => {
                assert(false);
                Ok(0)
            },
        }
    }

    /// Law: ids are never handed out twice. Take the ids a table has
    /// handed out so far: each went out as the next id of its moment, and
    /// no operation ever lowers the next id (each states so), so all of
    /// them are below it. Then the id the next insertion hands out is
    /// larger than every one of them and names no live child, and once it
    /// has gone out, every id handed out is again below the next id.
    pub proof fn lemma_ids_never_reissued(before: ProcessTable<P>, after: ProcessTable<P>, issued: Set<u64>)
        requires
            before.wf(),
            forall|id: u64| #[trigger] issued.contains(id) ==> id < before.next_id(),
            after.next_id() == before.next_id() + 1,
        ensures
            !issued.contains(before.next_id()),
            forall|id: u64| #[trigger] issued.contains(id) ==> id < before.next_id(),
            !before.entries().contains_key(before.next_id()),
            before.next_id() >= 1,
            forall|id: u64| #[trigger] issued.insert(before.next_id()).contains(id) ==> id < after.next_id(),
    {
    }

    /// Whether an id was handed out by this table (live or not).
    pub fn was_issued(&self, id: u64) -> (r: bool)
        ensures
            r == (1 <= id && id < self.next_id()),
    {
        1 <= id && id < self.next_id
    }

    /// How many children are live.
    pub fn len(&self) -> (r: usize)
        ensures
            r == self.entries().len(),
    {
        broadcast use vstd::std_specs::hash::group_hash_axioms;
        self.entries.len()
    }

    /// Whether a child with this id is live.
    pub fn contains(&self, id: u64) -> (r: bool)
        ensures
            r == self.entries().contains_key(id),
    {
        broadcast use vstd::std_specs::hash::group_hash_axioms;
        self.entries.contains_key(&id)
    }

    /// The entry of a live child, or "Process not found".
    pub fn get(&self, id: u64) -> (r: Result<&(bool, P), IoError>)
        ensures
            self.entries().contains_key(id) ==> r == Ok::<&(bool, P), IoError>(&self.entries()[id]),
            !self.entries().contains_key(id) ==> (r matches Err(e) && e.kind == IoErrorKind::NotFound
                && e.message@ == "Process not found"@),
    {
        broadcast use vstd::std_specs::hash::group_hash_axioms;
        match self.entries.get(&id) {
            Some(entry) => Ok(entry),
            None => Err(process_not_found()),
        }
    }

    /// Takes a child out of the table (it is being waited for or killed),
    /// or "Process not found".
    pub fn remove(&mut self, id: u64) -> (r: Result<(bool, P), IoError>)
        requires
            old(self).wf(),
        ensures
            final(self).wf(),
            final(self).next_id() == old(self).next_id(),
            final(self).entries() == old(self).entries().remove(id),
            old(self).entries().contains_key(id) ==> r == Ok::<(bool, P), IoError>(old(self).entries()[id]),
            !old(self).entries().contains_key(id) ==> (r matches Err(e) && e.kind == IoErrorKind::NotFound
                && e.message@ == "Process not found"@),
    {
        broadcast use vstd::std_specs::hash::group_hash_axioms;
        let removed = self.entries.remove(&id);
        assert forall|k: u64| #[trigger] self.entries().contains_key(k) implies 1 <= k < self.next_id() by {
            assert(old(self).entries().contains_key(k));
        }
        match removed {
            Some(entry) => Ok(entry),
            None => Err(process_not_found()),
        }
    }

    /// Puts back a child that outlived an attempt to kill it, under its own
    /// id, where a later sweep can still find it.
    pub fn put_back(&mut self, id: u64, leashed: bool, process: P)
        requires
            old(self).wf(),
            1 <= id < old(self).next_id(),
        ensures
            final(self).wf(),
            final(self).next_id() == old(self).next_id(),
            final(self).entries() == old(self).entries().insert(id, (leashed, process)),
    {
        broadcast use vstd::std_specs::hash::group_hash_axioms;
        self.entries.insert(id, (leashed, process));
        assert forall|k: u64| #[trigger] self.entries().contains_key(k) implies 1 <= k < self.next_id() by {
            if k != id {
                assert(old(self).entries().contains_key(k));
            }
        }
    }

    /// The ids of the leashed children.
    pub fn leashed_ids(&self) -> (r: Vec<u64>)
        ensures
            forall|id: u64| r@.contains(id) <==> (#[trigger] self.entries().contains_key(id)
                && self.entries()[id].0),
            r@.no_duplicates(),
    {
        broadcast use vstd::std_specs::hash::group_hash_axioms;
        let mut ids: Vec<u64> = Vec::new();
        let ghost keys = spec_keys_iter(&self.entries).remaining().unref();
        proof {
            axiom_spec_keys_iter(&self.entries);
        }
        for k in it: self.entries.keys()
            invariant
                keys.no_duplicates(),
                keys.to_set() == self.entries().dom(),
                it.seq().unref() == keys,
                ids@.no_duplicates(),
                forall|x: u64| ids@.contains(x) <==> (exists|i: int| 0 <= i < it.index() && keys[i] == x)
                    && self.entries().contains_key(x) && self.entries()[x].0,
        {
            let ghost before = ids@;
            let ghost idx = it.index();
            assert(*k == keys[idx]);
            match self.entries.get(k) {
                Some(entry) => {
                    if entry.0 {
                        ids.push(*k);
                    }
                },
                None => {},
            }
            proof {
                let key = *k;
                if before.contains(key) {
                    let i = choose|i: int| 0 <= i < idx && keys[i] == key;
                    assert(keys[i] == keys[idx]);
                }
                assert forall|x: u64| ids@.contains(x) <==> (exists|i: int| 0 <= i < idx + 1 && keys[i] == x)
                    && self.entries().contains_key(x) && self.entries()[x].0 by {
                    if x == key {
                        if self.entries().contains_key(x) && self.entries()[x].0 {
                            assert(ids@[ids@.len() - 1] == x);
                        }
                    } else {
                        if ids@.contains(x) {
                            let j = choose|j: int| 0 <= j < ids@.len() && ids@[j] == x;
                            assert(j < before.len());
                            assert(before[j] == x);
                        }
                        if (exists|i: int| 0 <= i < idx + 1 && keys[i] == x) {
                            let i = choose|i: int| 0 <= i < idx + 1 && keys[i] == x;
                            assert(i < idx);
                        }
                        if before.contains(x) {
                            let j = choose|j: int| 0 <= j < before.len() && before[j] == x;
                            assert(ids@[j] == x);
                        }
                    }
                }
            }
        }
        proof {
            assert forall|x: u64| ids@.contains(x) <==> (#[trigger] self.entries().contains_key(x)
                && self.entries()[x].0) by {
                if self.entries().contains_key(x) {
                    assert(keys.to_set().contains(x));
                    let i = choose|i: int| 0 <= i < keys.len() && keys[i] == x;
                }
            }
        }
        ids
    }

    /// Takes every leashed child out of the table, for the caller to kill;
    /// the others stay.
    pub fn remove_leashed(&mut self) -> (r: Vec<(u64, P)>)
        requires
            old(self).wf(),
        ensures
            final(self).wf(),
            final(self).next_id() == old(self).next_id(),
            forall|id: u64| #[trigger] final(self).entries().contains_key(id) <==> (old(self).entries().contains_key(id)
                && !old(self).entries()[id].0),
            forall|id: u64| #[trigger] final(self).entries().contains_key(id) ==> final(self).entries()[id]
                == old(self).entries()[id],
            forall|i: int| 0 <= i < r@.len() ==> old(self).entries().contains_key(#[trigger] r@[i].0)
                && old(self).entries()[r@[i].0].0 && old(self).entries()[r@[i].0].1 == r@[i].1,
            forall|id: u64| old(self).entries().contains_key(id) && #[trigger] old(self).entries()[id].0
                ==> exists|i: int| 0 <= i < r@.len() && r@[i].0 == id,
    {
        let ids = self.leashed_ids();
        let mut removed: Vec<(u64, P)> = Vec::new();
        let mut i: usize = 0;
        while i < ids.len()
            invariant
                self.wf(),
                self.next_id() == old(self).next_id(),
                i <= ids@.len(),
                ids@.no_duplicates(),
                forall|id: u64| ids@.contains(id) <==> (#[trigger] old(self).entries().contains_key(id)
                    && old(self).entries()[id].0),
                forall|id: u64| #[trigger] self.entries().contains_key(id) <==> (old(self).entries().contains_key(id)
                    && !ids@.take(i as int).contains(id)),
                forall|id: u64| #[trigger] self.entries().contains_key(id) ==> self.entries()[id]
                    == old(self).entries()[id],
                removed@.len() == i,
                forall|j: int| #![trigger removed@[j]] 0 <= j < i ==> removed@[j].0 == ids@[j]
                    && old(self).entries().contains_key(ids@[j]) && old(self).entries()[ids@[j]].0
                    && old(self).entries()[ids@[j]].1 == removed@[j].1,
            decreases ids@.len() - i,
        {
            let id = ids[i];
            assert(ids@.contains(id));
            assert(!ids@.take(i as int).contains(id)) by {
                if ids@.take(i as int).contains(id) {
                    let k = choose|k: int| 0 <= k < i && ids@.take(i as int)[k] == id;
                    assert(ids@[k] == ids@[i as int]);
                }
            }
            assert(self.entries().contains_key(id));
            let ghost before = self.entries();
            let entry = self.remove(id);
            match entry {
                Ok((_, process)) => {
                    removed.push((id, process));
                },
                Err(_) => {},
            }
            assert(ids@.take(i + 1) =~= ids@.take(i as int).push(id));
            assert forall|x: u64| #[trigger] self.entries().contains_key(x) <==> (old(self).entries().contains_key(x)
                && !ids@.take(i + 1).contains(x)) by {
                if x == id {
                    assert(ids@.take(i + 1)[i as int] == id);
                } else {
                    assert(before.contains_key(x) == self.entries().contains_key(x));
                    if ids@.take(i + 1).contains(x) {
                        let k = choose|k: int| 0 <= k < i + 1 && #[trigger] ids@.take(i + 1)[k] == x;
                        assert(ids@.take(i as int)[k] == x);
                    }
                    if ids@.take(i as int).contains(x) {
                        let k = choose|k: int| 0 <= k < i && #[trigger] ids@.take(i as int)[k] == x;
                        assert(ids@.take(i + 1)[k] == x);
                    }
                }
            }
            i = i + 1;
        }
        proof {
            assert(ids@.take(ids@.len() as int) =~= ids@);
            assert forall|id: u64| old(self).entries().contains_key(id) && #[trigger] old(self).entries()[id].0
                implies exists|i: int| 0 <= i < removed@.len() && removed@[i].0 == id by {
                assert(ids@.contains(id));
                let k = choose|k: int| 0 <= k < ids@.len() && ids@[k] == id;
                assert(removed@[k].0 == ids@[k]);
            }
        }
        removed
    }
}

} // verus!
