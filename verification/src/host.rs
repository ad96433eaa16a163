//! The host's own decisions around files, directories, the environment,
//! standard input and its command line.
use vstd::prelude::*;
use crate::io_error::{IOErr, IoError, IoErrorKind, spec_common_io_err, common_io_err_from_io};
use crate::results::{
    EnvPathResult, EnvVarResult, PathType, PathTypeResult, StdinBytesResult, StdinLineResult,
    StdinReadErr, stdin_bytes_eof_or_err_eof, stdin_bytes_eof_or_err_io, stdin_line_eof_or_err_eof,
    stdin_line_eof_or_err_io, try_env_str_err, try_env_str_ok, try_path_type_err, try_path_type_ok,
    try_stdin_bytes_err, try_stdin_bytes_ok, try_stdin_line_err, try_stdin_line_ok,
};
use crate::text::{spec_strip_line_ending, strip_line_ending};

verus! {

/// The code the host exits with: a program that called `dbg` or failed an
/// `expect` never reports success.
pub fn exit_code_for(debug_or_expect_called: bool, code: i32) -> (r: i32)
    ensures
        r == (if debug_or_expect_called && code == 0 { 1 } else { code }),
{
    if debug_or_expect_called && code == 0 {
        1
    } else {
        code
    }
}

/// The program's arguments, from `argc` and the entries of `argv` (`None`
/// for a null entry). A non-positive count or a missing vector gives no
/// arguments; otherwise the arguments run up to the count, or up to the
/// first null entry.
pub fn args_from_argv(argc: i32, argv: Option<Vec<Option<String>>>) -> (r: Vec<String>)
    ensures
        (argc <= 0 || argv is None) ==> r@.len() == 0,
        argc > 0 && argv is Some ==> {
            let entries = argv->Some_0@;
            &&& r@.len() <= argc
            &&& r@.len() <= entries.len()
            &&& forall|i: int| 0 <= i < r@.len() ==> entries[i] == Some(#[trigger] r@[i])
            &&& (r@.len() < argc && r@.len() < entries.len()) ==> entries[r@.len() as int] is None
        },
{
    if argc <= 0 {
        return Vec::new();
    }
    let entries = match argv {
        Some(entries) => entries,
        None => return Vec::new(),
    };
    let mut args: Vec<String> = Vec::new();
    let count = argc as usize;
    let mut i: usize = 0;
    while i < count && i < entries.len()
        invariant
            count == argc,
            argc > 0,
            argv == Some(entries),
            i <= count,
            i <= entries@.len(),
            args@.len() == i,
            forall|j: int| 0 <= j < i ==> entries@[j] == Some(#[trigger] args@[j]),
        decreases count - i,
    {
        match &entries[i] {
            Some(arg) => {
                args.push(arg.clone());
            },
            None => {
                return args;
            },
        }
        i = i + 1;
    }
    args
}

/// An I/O outcome as a file, directory, path or standard-stream result.
pub fn common_io_result<T>(result: Result<T, IoError>) -> (r: Result<T, IOErr>)
    ensures
        result is Ok ==> r == Ok::<T, IOErr>(result->Ok_0),
        result is Err ==> r == Err::<T, IOErr>(spec_common_io_err(result->Err_0)),
{
    match result {
        Ok(value) => Ok(value),
        Err(error) => Err(common_io_err_from_io(&error)),
    }
}

/// An environment variable: its value, or, when it is unset, the name that
/// was asked for.
pub fn env_var_result(name: String, value: Option<String>) -> (r: EnvVarResult)
    ensures
        value is Some ==> r == Ok::<String, String>(value->Some_0),
        value is None ==> r == Err::<String, String>(name),
{
    match value {
        Some(value) => try_env_str_ok(value),
        None => try_env_str_err(name),
    }
}

/// A path of the running process (working directory or executable), or
/// nothing when the system cannot tell.
pub fn env_path_result(path: Option<String>) -> (r: EnvPathResult)
    ensures
        path is Some ==> r == Ok::<String, ()>(path->Some_0),
        path is None ==> r == Err::<String, ()>(()),
{
    match path {
        Some(p) => Ok(p),
        None => Err(()),
    }
}

/// The capacity of a buffered file reader: the default for 0.
pub fn reader_capacity(capacity: u64) -> (r: Option<usize>)
    requires
        capacity <= usize::MAX,
    ensures
        capacity == 0 ==> r is None,
        capacity > 0 ==> r == Some(capacity as usize),
{
    if capacity == 0 {
        None
    } else {
        Some(capacity as usize)
    }
}

/// The mode bits that make a file executable by someone.
pub const EXECUTABLE_BITS: u32 = 0o111;

/// The mode bit that makes a file readable by its owner.
pub const READABLE_BITS: u32 = 0o400;

/// The mode bit that makes a file writable by its owner.
pub const WRITABLE_BITS: u32 = 0o200;

/// Whether any of the given bits is set in a file's mode.
pub fn permission_bit_set(mode: u32, bit: u32) -> (r: bool)
    ensures
        r == (mode & bit != 0),
{
    mode & bit != 0
}

/// A permission query on a file: its mode, if it could be read, tested
/// against the bits.
pub fn file_permission_bit(mode: Result<u32, IoError>, bit: u32) -> (r: Result<bool, IoError>)
    ensures
        mode is Ok ==> r == Ok::<bool, IoError>(mode->Ok_0 & bit != 0),
        mode is Err ==> r == Err::<bool, IoError>(mode->Err_0),
{
    match mode {
        Ok(m) => Ok(permission_bit_set(m, bit)),
        Err(e) => Err(e),
    }
}

/// A time as nanoseconds since the Unix epoch. `since_epoch` is the span
/// from the epoch in nanoseconds, or the message of the error a time
/// before the epoch gives; that error becomes an I/O error of kind `Other`.
pub fn nanos_since_epoch(since_epoch: Result<u128, String>) -> (r: Result<u128, IoError>)
    ensures
        since_epoch is Ok ==> r == Ok::<u128, IoError>(since_epoch->Ok_0),
        since_epoch is Err ==> r == Err::<u128, IoError>(
            IoError { kind: IoErrorKind::Other, message: since_epoch->Err_0 },
        ),
{
    match since_epoch {
        Ok(nanos) => Ok(nanos),
        Err(message) => Err(IoError { kind: IoErrorKind::Other, message }),
    }
}

/// What a path names, from its metadata (not following a final link).
pub fn path_type_result(metadata: Result<(bool, bool, bool), IoError>) -> (r: PathTypeResult)
    ensures
        metadata matches Ok((d, f, l)) ==> r == Ok::<PathType, IOErr>(
            PathType { is_dir: d, is_file: f, is_sym_link: l },
        ),
        metadata is Err ==> r == Err::<PathType, IOErr>(spec_common_io_err(metadata->Err_0)),
{
    match metadata {
        Ok((is_dir, is_file, is_sym_link)) => try_path_type_ok(PathType { is_dir, is_file, is_sym_link }),
        Err(error) => try_path_type_err(common_io_err_from_io(&error)),
    }
}

/// The size of the buffer one read of standard input fills.
pub const STDIN_CHUNK: usize = 16_384;

/// A line of standard input: `read` is how many bytes `read_line` took
/// and the text it appended. Nothing read is the end of input; a line is
/// handed out without its line ending.
pub fn stdin_line_result(read: Result<(usize, String), IoError>) -> (r: StdinLineResult)
    ensures
        read is Ok && read->Ok_0.0 == 0 ==> r == Err::<String, StdinReadErr>(StdinReadErr::EndOfFile),
        read is Ok && read->Ok_0.0 > 0 ==> (r matches Ok(s) && s@ == spec_strip_line_ending(read->Ok_0.1@)),
        read is Err ==> r == Err::<String, StdinReadErr>(
            StdinReadErr::StdinErr(spec_common_io_err(read->Err_0)),
        ),
{
    match read {
        Ok((n, line)) => {
            if n == 0 {
                try_stdin_line_err(stdin_line_eof_or_err_eof())
            } else {
                try_stdin_line_ok(strip_line_ending(line.as_str()))
            }
        },
        Err(error) => try_stdin_line_err(stdin_line_eof_or_err_io(common_io_err_from_io(&error))),
    }
}

/// A chunk of standard input: the bytes one read returned. No bytes is
/// the end of input.
pub fn stdin_bytes_result(read: Result<Vec<u8>, IoError>) -> (r: StdinBytesResult)
    ensures
        read is Ok && read->Ok_0@.len() == 0 ==> r == Err::<Vec<u8>, StdinReadErr>(StdinReadErr::EndOfFile),
        read is Ok && read->Ok_0@.len() > 0 ==> r == Ok::<Vec<u8>, StdinReadErr>(read->Ok_0),
        read is Err ==> r == Err::<Vec<u8>, StdinReadErr>(
            StdinReadErr::StdinErr(spec_common_io_err(read->Err_0)),
        ),
{
    match read {
        Ok(bytes) => {
            if bytes.len() == 0 {
                try_stdin_bytes_err(stdin_bytes_eof_or_err_eof())
            } else {
                try_stdin_bytes_ok(bytes)
            }
        },
        Err(error) => try_stdin_bytes_err(stdin_bytes_eof_or_err_io(common_io_err_from_io(&error))),
    }
}

} // verus!
