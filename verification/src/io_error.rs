//! Operating-system errors as plain values, and the error tags that the Roc
//! side of the platform understands.
use vstd::prelude::*;

verus! {

/// The kinds of `std::io::Error` that the platform tells apart. Every other
/// kind travels as `Unlisted`, carrying the name that its `Debug` form prints.
#[derive(Debug, Clone, PartialEq, Eq)]
pub enum IoErrorKind {
    NotFound,
    PermissionDenied,
    ConnectionRefused,
    ConnectionReset,
    AddrInUse,
    AddrNotAvailable,
    BrokenPipe,
    AlreadyExists,
    WouldBlock,
    NotADirectory,
    IsADirectory,
    InvalidInput,
    TimedOut,
    WriteZero,
    Interrupted,
    Unsupported,
    UnexpectedEof,
    OutOfMemory,
    Other,
    Unlisted(String),
}

/// An operating-system error: its kind and the text its `Display` prints.
#[derive(Debug, Clone, PartialEq, Eq)]
pub struct IoError {
    pub kind: IoErrorKind,
    pub message: String,
}

/// The error tag union handed to Roc for file, directory, command and
/// standard-stream failures.
#[derive(Debug, Clone, PartialEq, Eq)]
pub enum IOErr {
    AlreadyExists,
    BrokenPipe,
    Interrupted,
    IsADirectory,
    NotFound,
    NotADirectory,
    OutOfMemory,
    PermissionDenied,
    Unsupported,
    Other(String),
}

/// The name that `Debug` prints for an error kind.
pub open spec fn kind_debug_name(kind: IoErrorKind) -> Seq<char> {
    match kind {
        IoErrorKind::NotFound => "NotFound"@,
        IoErrorKind::PermissionDenied => "PermissionDenied"@,
        IoErrorKind::ConnectionRefused => "ConnectionRefused"@,
        IoErrorKind::ConnectionReset => "ConnectionReset"@,
        IoErrorKind::AddrInUse => "AddrInUse"@,
        IoErrorKind::AddrNotAvailable => "AddrNotAvailable"@,
        IoErrorKind::BrokenPipe => "BrokenPipe"@,
        IoErrorKind::AlreadyExists => "AlreadyExists"@,
        IoErrorKind::WouldBlock => "WouldBlock"@,
        IoErrorKind::NotADirectory => "NotADirectory"@,
        IoErrorKind::IsADirectory => "IsADirectory"@,
        IoErrorKind::InvalidInput => "InvalidInput"@,
        IoErrorKind::TimedOut => "TimedOut"@,
        IoErrorKind::WriteZero => "WriteZero"@,
        IoErrorKind::Interrupted => "Interrupted"@,
        IoErrorKind::Unsupported => "Unsupported"@,
        IoErrorKind::UnexpectedEof => "UnexpectedEof"@,
        IoErrorKind::OutOfMemory => "OutOfMemory"@,
        IoErrorKind::Other => "Other"@,
        IoErrorKind::Unlisted(name) => name@,
    }
}

/// The `Debug` name of an error kind.
pub fn kind_debug_name_string(kind: &IoErrorKind) -> (r: String)
    ensures
        r@ == kind_debug_name(*kind),
{
    match kind {
        IoErrorKind::NotFound => String::from_str("NotFound"),
        IoErrorKind::PermissionDenied => String::from_str("PermissionDenied"),
        IoErrorKind::ConnectionRefused => String::from_str("ConnectionRefused"),
        IoErrorKind::ConnectionReset => String::from_str("ConnectionReset"),
        IoErrorKind::AddrInUse => String::from_str("AddrInUse"),
        IoErrorKind::AddrNotAvailable => String::from_str("AddrNotAvailable"),
        IoErrorKind::BrokenPipe => String::from_str("BrokenPipe"),
        IoErrorKind::AlreadyExists => String::from_str("AlreadyExists"),
        IoErrorKind::WouldBlock => String::from_str("WouldBlock"),
        IoErrorKind::NotADirectory => String::from_str("NotADirectory"),
        IoErrorKind::IsADirectory => String::from_str("IsADirectory"),
        IoErrorKind::InvalidInput => String::from_str("InvalidInput"),
        IoErrorKind::TimedOut => String::from_str("TimedOut"),
        IoErrorKind::WriteZero => String::from_str("WriteZero"),
        IoErrorKind::Interrupted => String::from_str("Interrupted"),
        IoErrorKind::Unsupported => String::from_str("Unsupported"),
        IoErrorKind::UnexpectedEof => String::from_str("UnexpectedEof"),
        IoErrorKind::OutOfMemory => String::from_str("OutOfMemory"),
        IoErrorKind::Other => String::from_str("Other"),
        IoErrorKind::Unlisted(name) => name.clone(),
    }
}

/// The tag that an error of this kind becomes in a command result (the
/// command module's mapping): nine kinds have a tag of their own, every
/// other error is `Other` with the error's text.
pub open spec fn spec_cmd_io_err(error: IoError) -> IOErr {
    match error.kind {
        IoErrorKind::AlreadyExists => IOErr::AlreadyExists,
        IoErrorKind::BrokenPipe => IOErr::BrokenPipe,
        IoErrorKind::Interrupted => IOErr::Interrupted,
        IoErrorKind::IsADirectory => IOErr::IsADirectory,
        IoErrorKind::NotFound => IOErr::NotFound,
        IoErrorKind::NotADirectory => IOErr::NotADirectory,
        IoErrorKind::OutOfMemory => IOErr::OutOfMemory,
        IoErrorKind::PermissionDenied => IOErr::PermissionDenied,
        IoErrorKind::Unsupported => IOErr::Unsupported,
        _ => IOErr::Other(error.message),
    }
}

/// The tag that an error of this kind becomes in a file, directory, path,
/// random-seed or standard-stream result: seven kinds have a tag of their
/// own, every other error (directories included) is `Other` with its text.
pub open spec fn spec_common_io_err(error: IoError) -> IOErr {
    match error.kind {
        IoErrorKind::AlreadyExists => IOErr::AlreadyExists,
        IoErrorKind::BrokenPipe => IOErr::BrokenPipe,
        IoErrorKind::Interrupted => IOErr::Interrupted,
        IoErrorKind::NotFound => IOErr::NotFound,
        IoErrorKind::OutOfMemory => IOErr::OutOfMemory,
        IoErrorKind::PermissionDenied => IOErr::PermissionDenied,
        IoErrorKind::Unsupported => IOErr::Unsupported,
        _ => IOErr::Other(error.message),
    }
}

/// `Other` carrying a message of the host's own.
pub fn cmd_io_err_other(message: &str) -> (r: IOErr)
    ensures
        r matches IOErr::Other(m) && m@ == message@,
{
    IOErr::Other(String::from_str(message))
}

/// `Other` carrying a message, for the output-collecting command calls.
pub fn cmd_output_io_err_other(message: &str) -> (r: IOErr)
    ensures
        r matches IOErr::Other(m) && m@ == message@,
{
    IOErr::Other(String::from_str(message))
}

/// Maps an operating-system error to its command-result tag.
pub fn cmd_io_err_from_io(error: &IoError) -> (r: IOErr)
    ensures
        r == spec_cmd_io_err(*error),
{
    match &error.kind {
        IoErrorKind::AlreadyExists => IOErr::AlreadyExists,
        IoErrorKind::BrokenPipe => IOErr::BrokenPipe,
        IoErrorKind::Interrupted => IOErr::Interrupted,
        IoErrorKind::IsADirectory => IOErr::IsADirectory,
        IoErrorKind::NotFound => IOErr::NotFound,
        IoErrorKind::NotADirectory => IOErr::NotADirectory,
        IoErrorKind::OutOfMemory => IOErr::OutOfMemory,
        IoErrorKind::PermissionDenied => IOErr::PermissionDenied,
        IoErrorKind::Unsupported => IOErr::Unsupported,
        _ => IOErr::Other(error.message.clone()),
    }
}

/// Maps an operating-system error to its tag for the output-collecting
/// command calls (the same mapping as [`cmd_io_err_from_io`]).
pub fn cmd_output_io_err_from_io(error: &IoError) -> (r: IOErr)
    ensures
        r == spec_cmd_io_err(*error),
{
    match &error.kind {
        IoErrorKind::AlreadyExists => IOErr::AlreadyExists,
        IoErrorKind::BrokenPipe => IOErr::BrokenPipe,
        IoErrorKind::Interrupted => IOErr::Interrupted,
        IoErrorKind::IsADirectory => IOErr::IsADirectory,
        IoErrorKind::NotFound => IOErr::NotFound,
        IoErrorKind::NotADirectory => IOErr::NotADirectory,
        IoErrorKind::OutOfMemory => IOErr::OutOfMemory,
        IoErrorKind::PermissionDenied => IOErr::PermissionDenied,
        IoErrorKind::Unsupported => IOErr::Unsupported,
        _ => IOErr::Other(error.message.clone()),
    }
}

/// `Other` carrying a message, for the file, directory, path, random-seed
/// and standard-stream results.
pub fn common_io_err_other(message: &str) -> (r: IOErr)
    ensures
        r matches IOErr::Other(m) && m@ == message@,
{
    IOErr::Other(String::from_str(message))
}

/// Maps an operating-system error to its tag in a file, directory, path,
/// random-seed or standard-stream result.
pub fn common_io_err_from_io(error: &IoError) -> (r: IOErr)
    ensures
        r == spec_common_io_err(*error),
{
    match &error.kind {
        IoErrorKind::AlreadyExists => IOErr::AlreadyExists,
        IoErrorKind::BrokenPipe => IOErr::BrokenPipe,
        IoErrorKind::Interrupted => IOErr::Interrupted,
        IoErrorKind::NotFound => IOErr::NotFound,
        IoErrorKind::OutOfMemory => IOErr::OutOfMemory,
        IoErrorKind::PermissionDenied => IOErr::PermissionDenied,
        IoErrorKind::Unsupported => IOErr::Unsupported,
        _ => IOErr::Other(error.message.clone()),
    }
}

/// An error with a kind and a message of the host's own.
pub fn io_error_new(kind: IoErrorKind, message: &str) -> (r: IoError)
    ensures
        r.kind == kind,
        r.message@ == message@,
{
    IoError { kind, message: String::from_str(message) }
}

/// The error for a child process id that names no live child.
pub fn process_not_found() -> (r: IoError)
    ensures
        r.kind == IoErrorKind::NotFound,
        r.message@ == "Process not found"@,
{
    io_error_new(IoErrorKind::NotFound, "Process not found")
}

/// The error for a TCP operation that ran out of time.
pub fn timed_out() -> (r: IoError)
    ensures
        r.kind == IoErrorKind::TimedOut,
        r.message@ == "TCP operation timed out"@,
{
    io_error_new(IoErrorKind::TimedOut, "TCP operation timed out")
}

/// The error for a permission query on a host without Unix permission bits.
pub fn unsupported_file_permission_error() -> (r: IoError)
    ensures
        r.kind == IoErrorKind::Unsupported,
        r.message@ == "file permission checks are not implemented on this platform"@,
{
    io_error_new(
        IoErrorKind::Unsupported,
        "file permission checks are not implemented on this platform",
    )
}

/// The text that `std::io::Error::from(kind)` displays: std's own
/// description of the kind.
pub uninterp spec fn std_kind_description(kind: IoErrorKind) -> Seq<char>;

/// `std::io::Error::from(kind)` for the two kinds that the host raises
/// without a message of its own, turned into a plain error.
///
/// The contract claims that the kind is kept and that the text is std's
/// description of that kind, which it names without stating.
#[verifier::external_body]
pub(crate) fn error_of_kind(kind: IoErrorKind) -> (r: IoError)
    requires
        kind is UnexpectedEof || kind is WriteZero,
    ensures
        r.kind == kind,
        r.message@ == std_kind_description(kind),
{
    let std_kind = match kind {
        IoErrorKind::UnexpectedEof => std::io::ErrorKind::UnexpectedEof,
        _ => std::io::ErrorKind::WriteZero,
    };
    IoError { kind, message: std::io::Error::from(std_kind).to_string() }
}

} // verus!
