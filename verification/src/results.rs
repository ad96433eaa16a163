//! The results handed back to Roc by the file, directory, environment,
//! path, random-seed and standard-stream calls.
use vstd::prelude::*;
use crate::io_error::IOErr;

verus! {

/// What a path names, without following a final symbolic link.
#[derive(Debug, Clone, Copy, PartialEq, Eq)]
pub struct PathType {
    pub is_dir: bool,
    pub is_file: bool,
    pub is_sym_link: bool,
}

/// Why a read from standard input gave nothing.
#[derive(Debug, Clone, PartialEq, Eq)]
pub enum StdinReadErr {
    EndOfFile,
    StdinErr(IOErr),
}

pub type DirUnitResult = Result<(), IOErr>;

pub type DirListResult = Result<Vec<String>, IOErr>;

/// A variable's value, or (when it is unset) the name asked for.
pub type EnvVarResult = Result<String, String>;

/// A path of the running process, or nothing when it is unknown.
pub type EnvPathResult = Result<String, ()>;

pub type FileBytesResult = Result<Vec<u8>, IOErr>;

/// An open buffered reader, by its handle id.
pub type FileReaderOpenResult = Result<u64, IOErr>;

pub type FileUnitResult = Result<(), IOErr>;

pub type FileStrResult = Result<String, IOErr>;

pub type FileSizeResult = Result<u64, IOErr>;

pub type FileBoolResult = Result<bool, IOErr>;

/// A time, in nanoseconds since the Unix epoch.
pub type FileTimeResult = Result<u128, IOErr>;

pub type PathTypeResult = Result<PathType, IOErr>;

pub type RandomU64Result = Result<u64, IOErr>;

pub type RandomU32Result = Result<u32, IOErr>;

pub type StreamUnitResult = Result<(), IOErr>;

pub type StdinLineResult = Result<String, StdinReadErr>;

pub type StdinBytesResult = Result<Vec<u8>, StdinReadErr>;

pub fn stdin_line_eof_or_err_eof() -> (r: StdinReadErr)
    ensures
        r == StdinReadErr::EndOfFile,
{
    StdinReadErr::EndOfFile
}

pub fn stdin_line_eof_or_err_io(error: IOErr) -> (r: StdinReadErr)
    ensures
        r == StdinReadErr::StdinErr(error),
{
    StdinReadErr::StdinErr(error)
}

pub fn stdin_bytes_eof_or_err_eof() -> (r: StdinReadErr)
    ensures
        r == StdinReadErr::EndOfFile,
{
    StdinReadErr::EndOfFile
}

pub fn stdin_bytes_eof_or_err_io(error: IOErr) -> (r: StdinReadErr)
    ensures
        r == StdinReadErr::StdinErr(error),
{
    StdinReadErr::StdinErr(error)
}

pub fn try_dir_unit_ok() -> (r: DirUnitResult)
    ensures
        r == Ok::<(), IOErr>(()),
{
    Ok(())
}

pub fn try_dir_unit_err(error: IOErr) -> (r: DirUnitResult)
    ensures
        r == Err::<(), IOErr>(error),
{
    Err(error)
}

pub fn try_dir_list_ok(value: Vec<String>) -> (r: DirListResult)
    ensures
        r == Ok::<Vec<String>, IOErr>(value),
{
    Ok(value)
}

pub fn try_dir_list_err(error: IOErr) -> (r: DirListResult)
    ensures
        r == Err::<Vec<String>, IOErr>(error),
{
    Err(error)
}

pub fn try_env_str_ok(value: String) -> (r: EnvVarResult)
    ensures
        r == Ok::<String, String>(value),
{
    Ok(value)
}

pub fn try_env_str_err(error: String) -> (r: EnvVarResult)
    ensures
        r == Err::<String, String>(error),
{
    Err(error)
}

pub fn try_env_cwd_ok(value: String) -> (r: EnvPathResult)
    ensures
        r == Ok::<String, ()>(value),
{
    Ok(value)
}

pub fn try_env_cwd_err() -> (r: EnvPathResult)
    ensures
        r == Err::<String, ()>(()),
{
    Err(())
}

pub fn try_env_exe_path_ok(value: String) -> (r: EnvPathResult)
    ensures
        r == Ok::<String, ()>(value),
{
    Ok(value)
}

pub fn try_env_exe_path_err() -> (r: EnvPathResult)
    ensures
        r == Err::<String, ()>(()),
{
    Err(())
}

pub fn try_file_bytes_ok(value: Vec<u8>) -> (r: FileBytesResult)
    ensures
        r == Ok::<Vec<u8>, IOErr>(value),
{
    Ok(value)
}

pub fn try_file_bytes_err(error: IOErr) -> (r: FileBytesResult)
    ensures
        r == Err::<Vec<u8>, IOErr>(error),
{
    Err(error)
}

pub fn try_file_reader_ok(value: u64) -> (r: FileReaderOpenResult)
    ensures
        r == Ok::<u64, IOErr>(value),
{
    Ok(value)
}

pub fn try_file_reader_err(error: IOErr) -> (r: FileReaderOpenResult)
    ensures
        r == Err::<u64, IOErr>(error),
{
    Err(error)
}

pub fn try_file_reader_line_ok(value: Vec<u8>) -> (r: FileBytesResult)
    ensures
        r == Ok::<Vec<u8>, IOErr>(value),
{
    Ok(value)
}

pub fn try_file_reader_line_err(error: IOErr) -> (r: FileBytesResult)
    ensures
        r == Err::<Vec<u8>, IOErr>(error),
{
    Err(error)
}

pub fn try_file_write_bytes_ok() -> (r: FileUnitResult)
    ensures
        r == Ok::<(), IOErr>(()),
{
    Ok(())
}

pub fn try_file_write_bytes_err(error: IOErr) -> (r: FileUnitResult)
    ensures
        r == Err::<(), IOErr>(error),
{
    Err(error)
}

pub fn try_file_str_ok(value: String) -> (r: FileStrResult)
    ensures
        r == Ok::<String, IOErr>(value),
{
    Ok(value)
}

pub fn try_file_str_err(error: IOErr) -> (r: FileStrResult)
    ensures
        r == Err::<String, IOErr>(error),
{
    Err(error)
}

pub fn try_file_write_utf8_ok() -> (r: FileUnitResult)
    ensures
        r == Ok::<(), IOErr>(()),
{
    Ok(())
}

pub fn try_file_write_utf8_err(error: IOErr) -> (r: FileUnitResult)
    ensures
        r == Err::<(), IOErr>(error),
{
    Err(error)
}

pub fn try_file_delete_ok() -> (r: FileUnitResult)
    ensures
        r == Ok::<(), IOErr>(()),
{
    Ok(())
}

pub fn try_file_delete_err(error: IOErr) -> (r: FileUnitResult)
    ensures
        r == Err::<(), IOErr>(error),
{
    Err(error)
}

pub fn try_file_size_ok(value: u64) -> (r: FileSizeResult)
    ensures
        r == Ok::<u64, IOErr>(value),
{
    Ok(value)
}

pub fn try_file_size_err(error: IOErr) -> (r: FileSizeResult)
    ensures
        r == Err::<u64, IOErr>(error),
{
    Err(error)
}

pub fn try_file_bool_ok(value: bool) -> (r: FileBoolResult)
    ensures
        r == Ok::<bool, IOErr>(value),
{
    Ok(value)
}

pub fn try_file_bool_err(error: IOErr) -> (r: FileBoolResult)
    ensures
        r == Err::<bool, IOErr>(error),
{
    Err(error)
}

pub fn try_file_time_ok(value: u128) -> (r: FileTimeResult)
    ensures
        r == Ok::<u128, IOErr>(value),
{
    Ok(value)
}

pub fn try_file_time_err(error: IOErr) -> (r: FileTimeResult)
    ensures
        r == Err::<u128, IOErr>(error),
{
    Err(error)
}

pub fn try_path_type_ok(value: PathType) -> (r: PathTypeResult)
    ensures
        r == Ok::<PathType, IOErr>(value),
{
    Ok(value)
}

pub fn try_path_type_err(error: IOErr) -> (r: PathTypeResult)
    ensures
        r == Err::<PathType, IOErr>(error),
{
    Err(error)
}

pub fn try_random_u64_ok(value: u64) -> (r: RandomU64Result)
    ensures
        r == Ok::<u64, IOErr>(value),
{
    Ok(value)
}

pub fn try_random_u64_err(error: IOErr) -> (r: RandomU64Result)
    ensures
        r == Err::<u64, IOErr>(error),
{
    Err(error)
}

pub fn try_random_u32_ok(value: u32) -> (r: RandomU32Result)
    ensures
        r == Ok::<u32, IOErr>(value),
{
    Ok(value)
}

pub fn try_random_u32_err(error: IOErr) -> (r: RandomU32Result)
    ensures
        r == Err::<u32, IOErr>(error),
{
    Err(error)
}

pub fn try_stderr_unit_ok() -> (r: StreamUnitResult)
    ensures
        r == Ok::<(), IOErr>(()),
{
    Ok(())
}

pub fn try_stderr_unit_err(error: IOErr) -> (r: StreamUnitResult)
    ensures
        r == Err::<(), IOErr>(error),
{
    Err(error)
}

pub fn try_stderr_bytes_ok() -> (r: StreamUnitResult)
    ensures
        r == Ok::<(), IOErr>(()),
{
    Ok(())
}

pub fn try_stderr_bytes_err(error: IOErr) -> (r: StreamUnitResult)
    ensures
        r == Err::<(), IOErr>(error),
{
    Err(error)
}

pub fn try_stdin_line_ok(value: String) -> (r: StdinLineResult)
    ensures
        r == Ok::<String, StdinReadErr>(value),
{
    Ok(value)
}

pub fn try_stdin_line_err(error: StdinReadErr) -> (r: StdinLineResult)
    ensures
        r == Err::<String, StdinReadErr>(error),
{
    Err(error)
}

pub fn try_stdin_bytes_ok(value: Vec<u8>) -> (r: StdinBytesResult)
    ensures
        r == Ok::<Vec<u8>, StdinReadErr>(value),
{
    Ok(value)
}

pub fn try_stdin_bytes_err(error: StdinReadErr) -> (r: StdinBytesResult)
    ensures
        r == Err::<Vec<u8>, StdinReadErr>(error),
{
    Err(error)
}

pub fn try_stdin_read_to_end_ok(value: Vec<u8>) -> (r: FileBytesResult)
    ensures
        r == Ok::<Vec<u8>, IOErr>(value),
{
    Ok(value)
}

pub fn try_stdin_read_to_end_err(error: IOErr) -> (r: FileBytesResult)
    ensures
        r == Err::<Vec<u8>, IOErr>(error),
{
    Err(error)
}

pub fn try_stdout_unit_ok() -> (r: StreamUnitResult)
    ensures
        r == Ok::<(), IOErr>(()),
{
    Ok(())
}

pub fn try_stdout_unit_err(error: IOErr) -> (r: StreamUnitResult)
    ensures
        r == Err::<(), IOErr>(error),
{
    Err(error)
}

pub fn try_stdout_bytes_ok() -> (r: StreamUnitResult)
    ensures
        r == Ok::<(), IOErr>(()),
{
    Ok(())
}

pub fn try_stdout_bytes_err(error: IOErr) -> (r: StreamUnitResult)
    ensures
        r == Err::<(), IOErr>(error),
{
    Err(error)
}

} // verus!
