//! Commands: how a Roc command record becomes a process description, how a
//! finished process is reported, and the results of the child-process calls.
use vstd::prelude::*;
use crate::io_error::{IOErr, IoError, IoErrorKind, io_error_new, spec_cmd_io_err, cmd_io_err_from_io, cmd_output_io_err_from_io, cmd_output_io_err_other};

verus! {

/// A process to start: program, arguments, whether the inherited
/// environment is cleared first, and the variables to set.
#[derive(Debug, Clone, PartialEq, Eq)]
pub struct CmdSpec {
    pub program: String,
    pub args: Vec<String>,
    pub clear_envs: bool,
    pub envs: Vec<(String, String)>,
}

/// What a command that exited with code 0 printed.
#[derive(Debug, Clone, PartialEq, Eq)]
pub struct CmdOutputSuccess {
    pub stderr_bytes: Vec<u8>,
    pub stdout_bytes: Vec<u8>,
}

/// What a command that exited with another code printed, and that code.
#[derive(Debug, Clone, PartialEq, Eq)]
pub struct CmdOutputFailure {
    pub stderr_bytes: Vec<u8>,
    pub stdout_bytes: Vec<u8>,
    pub exit_code: i32,
}

/// Why an output-collecting run did not succeed.
#[derive(Debug, Clone, PartialEq, Eq)]
pub enum CmdOutputError {
    FailedToGetExitCode(IOErr),
    NonZeroExitCode(CmdOutputFailure),
}

/// How a spawned child ended: what it printed and its exit code (-1 when a
/// signal ended it).
#[derive(Debug, Clone, PartialEq, Eq)]
pub struct ChildExit {
    pub stderr_bytes: Vec<u8>,
    pub stdout_bytes: Vec<u8>,
    pub exit_code: i32,
}

/// A poll of a spawned child.
#[derive(Debug, Clone, PartialEq, Eq)]
pub enum ExitedOrRunning {
    Exited(ChildExit),
    Running,
}

pub type CmdExitResult = Result<i32, IOErr>;

pub type CmdOutputResult = Result<CmdOutputSuccess, CmdOutputError>;

pub type CmdUnitResult = Result<(), IOErr>;

pub type CmdBytesResult = Result<Vec<u8>, IOErr>;

pub type ChildExitResult = Result<ChildExit, IOErr>;

pub type ChildPollResult = Result<ExitedOrRunning, IOErr>;

pub type CmdSpawnResult = Result<u64, IOErr>;

/// The key/value pairs of a flat environment list: items 2i and 2i+1 form
/// pair i; an odd item at the end has no partner and is dropped.
pub open spec fn spec_env_pairs(envs: Seq<String>) -> Seq<(String, String)> {
    Seq::new(envs.len() / 2, |i: int| (envs[2 * i], envs[2 * i + 1]))
}

/// Law: every complete key/value pair of a flat environment list is set,
/// in order: pair `i` is items `2i` and `2i + 1`, and there are as many
/// pairs as the list holds whole pairs (only an unpaired last key is
/// dropped).
pub proof fn lemma_env_pairs_keep_every_pair(envs: Seq<String>)
    ensures
        spec_env_pairs(envs).len() == envs.len() / 2,
        forall|i: int| 0 <= i < envs.len() / 2 ==> #[trigger] spec_env_pairs(envs)[i] == (envs[2 * i], envs[2 * i + 1]),
        envs.len() % 2 == 0 ==> 2 * spec_env_pairs(envs).len() == envs.len(),
{
}

/// Pairs a flat environment list `[k0, v0, k1, v1, ...]`.
pub fn env_pairs(envs: &Vec<String>) -> (r: Vec<(String, String)>)
    ensures
        r@ == spec_env_pairs(envs@),
        r@.len() == envs@.len() / 2,
        forall|i: int| 0 <= i < envs@.len() / 2 ==> #[trigger] r@[i] == (envs@[2 * i], envs@[2 * i + 1]),
{
    let mut pairs: Vec<(String, String)> = Vec::new();
    let n = envs.len() / 2;
    let mut i: usize = 0;
    while i < n
        invariant
            n == envs@.len() / 2,
            envs@.len() <= usize::MAX,
            i <= n,
            pairs@ == spec_env_pairs(envs@).take(i as int),
        decreases n - i,
    {
        assert(2 * i + 1 < envs@.len()) by (nonlinear_arith)
            requires
                i < n,
                n == envs@.len() / 2,
        ;
        let key = envs[2 * i].clone();
        let value = envs[2 * i + 1].clone();
        pairs.push((key, value));
        i = i + 1;
        assert(pairs@ =~= spec_env_pairs(envs@).take(i as int));
    }
    assert(spec_env_pairs(envs@).take(n as int) =~= spec_env_pairs(envs@));
    pairs
}

/// The first item of a list that is an error, if any.
pub open spec fn spec_first_err<T>(items: Seq<Result<T, IoError>>, i: int) -> bool {
    &&& 0 <= i < items.len()
    &&& items[i] is Err
    &&& forall|j: int| 0 <= j < i ==> items[j] is Ok
}

/// Every item converted: the values in order, or the first failure.
pub fn take_arg_list(items: Vec<Result<String, IoError>>) -> (r: Result<Vec<String>, IoError>)
    ensures
        (forall|j: int| 0 <= j < items@.len() ==> items@[j] is Ok) ==> (r matches Ok(values)
            && values@.len() == items@.len() && forall|j: int|
            0 <= j < items@.len() ==> values@[j] == items@[j]->Ok_0),
        (exists|i: int| spec_first_err(items@, i)) ==> (r matches Err(e) && exists|i: int|
            spec_first_err(items@, i) && e == items@[i]->Err_0),
{
    let mut values: Vec<String> = Vec::new();
    let mut k: usize = 0;
    let mut failed = false;
    while !failed && k < items.len()
        invariant
            k <= items@.len(),
            values@.len() == k,
            forall|j: int| 0 <= j < k ==> (#[trigger] items@[j]) is Ok,
            forall|j: int| 0 <= j < k ==> #[trigger] values@[j] == items@[j]->Ok_0,
            failed ==> k < items@.len() && items@[k as int] is Err,
        decreases items@.len() - k + (if failed { 0int } else { 1int }),
    {
        match &items[k] {
            Ok(value) => {
                let ghost before = values@;
                values.push(value.clone());
                proof {
                    assert forall|j: int| 0 <= j < k + 1 implies #[trigger] values@[j]
                        == items@[j]->Ok_0 by {
                        if j < k {
                            assert(values@[j] == before[j]);
                        }
                    }
                }
                k = k + 1;
            },
            Err(_) => {
                failed = true;
            },
        }
    }
    if failed {
        // The walk stopped at the first failure.
        let ghost orig = items@;
        proof {
            assert(spec_first_err(orig, k as int));
            assert forall|i: int| spec_first_err(orig, i) implies i == k by {
                if i < k {
                    assert(orig[i] is Ok);
                }
                if k < i {
                    assert(orig[k as int] is Ok);
                }
            }
        }
        let mut items = items;
        match items.remove(k) {
            Err(error) => Err(error),
            Ok(_) => Ok(values),
        }
    } else {
        proof {
            assert forall|i: int| !spec_first_err(items@, i) by {
                if 0 <= i < items@.len() {
                    assert(items@[i] is Ok);
                }
            }
        }
        Ok(values)
    }
}

/// A command record turned into a process description. The program, the
/// arguments and the environment list were each converted from native
/// strings; the first conversion that failed, in that order, is the error.
pub fn cmd_to_std(
    program: Result<String, IoError>,
    args: Result<Vec<String>, IoError>,
    envs: Result<Vec<String>, IoError>,
    clear_envs: bool,
) -> (r: Result<CmdSpec, IoError>)
    ensures
        program is Err ==> r == Err::<CmdSpec, IoError>(program->Err_0),
        program is Ok && args is Err ==> r == Err::<CmdSpec, IoError>(args->Err_0),
        program is Ok && args is Ok && envs is Err ==> r == Err::<CmdSpec, IoError>(envs->Err_0),
        program is Ok && args is Ok && envs is Ok ==> (r matches Ok(spec) && spec.program
            == program->Ok_0 && spec.args == args->Ok_0 && spec.clear_envs == clear_envs
            && spec.envs@ == spec_env_pairs(envs->Ok_0@)),
{
    let program = match program {
        Ok(program) => program,
        Err(error) => return Err(error),
    };
    let args = match args {
        Ok(args) => args,
        Err(error) => return Err(error),
    };
    let envs = match envs {
        Ok(envs) => envs,
        Err(error) => return Err(error),
    };
    let pairs = env_pairs(&envs);
    Ok(CmdSpec { program, args, clear_envs, envs: pairs })
}

/// Whether a polled child stays in the table: only one that has exited
/// and whose output was collected leaves it; a child still running, or
/// one whose poll failed, stays where a later call can reach it.
pub fn poll_keeps_child(outcome: &Result<Option<(Option<i32>, Vec<u8>, Vec<u8>)>, IoError>) -> (r: bool)
    ensures
        r == !(outcome is Ok && outcome->Ok_0 is Some),
{
    match outcome {
        Ok(Some(_)) => false,
        _ => true,
    }
}

/// The error for a write to a child whose stdin was already closed.
pub fn stdin_not_available() -> (r: IoError)
    ensures
        r.kind == IoErrorKind::Other,
        r.message@ == "Process stdin not available"@,
{
    io_error_new(IoErrorKind::Other, "Process stdin not available")
}

/// The message for a process that a signal ended.
pub open spec fn killed_by_signal() -> Seq<char> {
    "Process was killed by signal"@
}

pub fn try_cmd_exit_ok(value: i32) -> (r: CmdExitResult)
    ensures
        r == Ok::<i32, IOErr>(value),
{
    Ok(value)
}

pub fn try_cmd_exit_err(error: IOErr) -> (r: CmdExitResult)
    ensures
        r == Err::<i32, IOErr>(error),
{
    Err(error)
}

/// The result of running a command to completion: its exit code, or an
/// error when a signal ended it (this call treats that as a failure).
pub fn exit_code_result(code: Option<i32>) -> (r: CmdExitResult)
    ensures
        code matches Some(c) ==> r == Ok::<i32, IOErr>(c),
        code is None ==> (r matches Err(IOErr::Other(m)) && m@ == killed_by_signal()),
{
    match code {
        Some(code) => try_cmd_exit_ok(code),
        None => try_cmd_exit_err(cmd_output_io_err_other("Process was killed by signal")),
    }
}

/// The result of a command that could not be started.
pub fn exit_code_spawn_failed(error: &IoError) -> (r: CmdExitResult)
    ensures
        r == Err::<i32, IOErr>(spec_cmd_io_err(*error)),
{
    try_cmd_exit_err(cmd_output_io_err_from_io(error))
}

pub fn try_cmd_output_ok(value: CmdOutputSuccess) -> (r: CmdOutputResult)
    ensures
        r == Ok::<CmdOutputSuccess, CmdOutputError>(value),
{
    Ok(value)
}

pub fn try_cmd_output_err(error: CmdOutputError) -> (r: CmdOutputResult)
    ensures
        r == Err::<CmdOutputSuccess, CmdOutputError>(error),
{
    Err(error)
}

/// The failure side of an output-collecting run in the form the host's
/// single-call output API hands it over: the failed run, or the error that
/// kept the command from reporting one.
pub type CmdOutputFailureResult = Result<CmdOutputFailure, IOErr>;

pub fn try_cmd_output_failure_ok(value: CmdOutputFailure) -> (r: CmdOutputFailureResult)
    ensures
        r == Ok::<CmdOutputFailure, IOErr>(value),
{
    Ok(value)
}

pub fn try_cmd_output_failure_err(error: IOErr) -> (r: CmdOutputFailureResult)
    ensures
        r == Err::<CmdOutputFailure, IOErr>(error),
{
    Err(error)
}

pub fn cmd_output_nonzero_error(value: CmdOutputFailure) -> (r: CmdOutputError)
    ensures
        r == CmdOutputError::NonZeroExitCode(value),
{
    CmdOutputError::NonZeroExitCode(value)
}

pub fn cmd_output_failed_to_get_exit_code(error: IOErr) -> (r: CmdOutputError)
    ensures
        r == CmdOutputError::FailedToGetExitCode(error),
{
    CmdOutputError::FailedToGetExitCode(error)
}

/// The result of running a command and collecting its output: success
/// only for exit code 0; another code carries the output and the code; a
/// signal death drops the output and says so.
pub fn exec_output_result(code: Option<i32>, stdout_bytes: Vec<u8>, stderr_bytes: Vec<u8>) -> (r: CmdOutputResult)
    ensures
        code == Some(0i32) ==> r == Ok::<CmdOutputSuccess, CmdOutputError>(
            CmdOutputSuccess { stderr_bytes, stdout_bytes },
        ),
        (code matches Some(c) && c != 0) ==> r == Err::<CmdOutputSuccess, CmdOutputError>(
            CmdOutputError::NonZeroExitCode(CmdOutputFailure { stderr_bytes, stdout_bytes, exit_code: code->Some_0 }),
        ),
        code is None ==> (r matches Err(CmdOutputError::FailedToGetExitCode(IOErr::Other(m)))
            && m@ == killed_by_signal()),
{
    match code {
        Some(0) => try_cmd_output_ok(CmdOutputSuccess { stderr_bytes, stdout_bytes }),
        Some(exit_code) => try_cmd_output_err(
            cmd_output_nonzero_error(CmdOutputFailure { stderr_bytes, stdout_bytes, exit_code }),
        ),
        None => try_cmd_output_err(
            cmd_output_failed_to_get_exit_code(cmd_output_io_err_other("Process was killed by signal")),
        ),
    }
}

/// The result of an output-collecting run that could not start or wait.
pub fn exec_output_failed(error: &IoError) -> (r: CmdOutputResult)
    ensures
        r == Err::<CmdOutputSuccess, CmdOutputError>(
            CmdOutputError::FailedToGetExitCode(spec_cmd_io_err(*error)),
        ),
{
    try_cmd_output_err(cmd_output_failed_to_get_exit_code(cmd_output_io_err_from_io(error)))
}

pub fn cmd_unit_ok() -> (r: CmdUnitResult)
    ensures
        r == Ok::<(), IOErr>(()),
{
    Ok(())
}

pub fn cmd_unit_err(error: IOErr) -> (r: CmdUnitResult)
    ensures
        r == Err::<(), IOErr>(error),
{
    Err(error)
}

/// The result of a child call that returns nothing.
pub fn cmd_unit_result(result: Result<(), IoError>) -> (r: CmdUnitResult)
    ensures
        result is Ok ==> r == Ok::<(), IOErr>(()),
        result is Err ==> r == Err::<(), IOErr>(spec_cmd_io_err(result->Err_0)),
{
    match result {
        Ok(()) => cmd_unit_ok(),
        Err(e) => cmd_unit_err(cmd_io_err_from_io(&e)),
    }
}

/// The result of a child read.
pub fn cmd_bytes_result(result: Result<Vec<u8>, IoError>) -> (r: CmdBytesResult)
    ensures
        result is Ok ==> r == Ok::<Vec<u8>, IOErr>(result->Ok_0),
        result is Err ==> r == Err::<Vec<u8>, IOErr>(spec_cmd_io_err(result->Err_0)),
{
    match result {
        Ok(bytes) => Ok(bytes),
        Err(e) => Err(cmd_output_io_err_from_io(&e)),
    }
}

/// How a spawned child ended; a signal death reports exit code -1.
pub fn child_exit_from(code: Option<i32>, stdout_bytes: Vec<u8>, stderr_bytes: Vec<u8>) -> (r: ChildExit)
    ensures
        r == (ChildExit {
            stderr_bytes,
            stdout_bytes,
            exit_code: match code {
                Some(c) => c,
                None => -1i32,
            },
        }),
{
    let exit_code = match code {
        Some(c) => c,
        None => -1,
    };
    ChildExit { stderr_bytes, stdout_bytes, exit_code }
}

/// The result of waiting for a spawned child.
pub fn child_exit_result(result: Result<(Option<i32>, Vec<u8>, Vec<u8>), IoError>) -> (r: ChildExitResult)
    ensures
        result matches Ok((code, out, err)) ==> r == Ok::<ChildExit, IOErr>(
            ChildExit {
                stderr_bytes: err,
                stdout_bytes: out,
                exit_code: match code {
                    Some(c) => c,
                    None => -1i32,
                },
            },
        ),
        result is Err ==> r == Err::<ChildExit, IOErr>(spec_cmd_io_err(result->Err_0)),
{
    match result {
        Ok((code, stdout, stderr)) => Ok(child_exit_from(code, stdout, stderr)),
        Err(e) => Err(cmd_output_io_err_from_io(&e)),
    }
}

/// The result of polling a spawned child: `None` is still running.
pub fn child_poll_result(result: Result<Option<(Option<i32>, Vec<u8>, Vec<u8>)>, IoError>) -> (r: ChildPollResult)
    ensures
        result matches Ok(Some((code, out, err))) ==> r == Ok::<ExitedOrRunning, IOErr>(
            ExitedOrRunning::Exited(
                ChildExit {
                    stderr_bytes: err,
                    stdout_bytes: out,
                    exit_code: match code {
                        Some(c) => c,
                        None => -1i32,
                    },
                },
            ),
        ),
        result matches Ok(None) ==> r == Ok::<ExitedOrRunning, IOErr>(ExitedOrRunning::Running),
        result is Err ==> r == Err::<ExitedOrRunning, IOErr>(spec_cmd_io_err(result->Err_0)),
{
    match result {
        Ok(Some((code, stdout, stderr))) => Ok(ExitedOrRunning::Exited(child_exit_from(code, stdout, stderr))),
        Ok(None) => Ok(ExitedOrRunning::Running),
        Err(e) => Err(cmd_output_io_err_from_io(&e)),
    }
}

/// The result of spawning a child: its id, or why it could not start.
pub fn spawn_result(result: Result<u64, IoError>) -> (r: CmdSpawnResult)
    ensures
        result is Ok ==> r == Ok::<u64, IOErr>(result->Ok_0),
        result is Err ==> r == Err::<u64, IOErr>(spec_cmd_io_err(result->Err_0)),
{
    match result {
        Ok(id) => Ok(id),
        Err(e) => Err(cmd_output_io_err_from_io(&e)),
    }
}

/// Whether a kill that failed still counts as done: it does when the
/// child had already exited on its own (a kill of a finished child is
/// refused on some platforms). `exited` is what a non-blocking wait saw
/// right after the failed kill.
pub fn kill_outcome(kill_error: IoError, exited: Result<bool, IoError>) -> (r: Result<(), IoError>)
    ensures
        exited == Ok::<bool, IoError>(true) ==> r is Ok,
        exited == Ok::<bool, IoError>(false) ==> r == Err::<(), IoError>(kill_error),
        exited is Err ==> r == Err::<(), IoError>(exited->Err_0),
{
    match exited {
        Ok(true) => Ok(()),
        Ok(false) => Err(kill_error),
        Err(wait_error) => Err(wait_error),
    }
}

} // verus!
