use basic_cli::io_error::{
    cmd_io_err_from_io, cmd_io_err_other, cmd_output_io_err_from_io, cmd_output_io_err_other,
    common_io_err_from_io, common_io_err_other, kind_debug_name_string,
    process_not_found, timed_out, unsupported_file_permission_error, IOErr, IoError, IoErrorKind,
};

fn err(kind: IoErrorKind, message: &str) -> IoError {
    IoError { kind, message: message.to_string() }
}

#[test]
fn command_errors_have_nine_tags() {
    assert_eq!(cmd_io_err_from_io(&err(IoErrorKind::AlreadyExists, "x")), IOErr::AlreadyExists);
    assert_eq!(cmd_io_err_from_io(&err(IoErrorKind::IsADirectory, "x")), IOErr::IsADirectory);
    assert_eq!(cmd_io_err_from_io(&err(IoErrorKind::NotADirectory, "x")), IOErr::NotADirectory);
    assert_eq!(cmd_output_io_err_from_io(&err(IoErrorKind::Unsupported, "x")), IOErr::Unsupported);
    assert_eq!(
        cmd_output_io_err_from_io(&err(IoErrorKind::TimedOut, "timed out")),
        IOErr::Other("timed out".to_string())
    );
    assert_eq!(cmd_io_err_other("m"), IOErr::Other("m".to_string()));
    assert_eq!(cmd_output_io_err_other("n"), IOErr::Other("n".to_string()));
}

#[test]
fn common_errors_fold_directories_into_other() {
    assert_eq!(common_io_err_from_io(&err(IoErrorKind::OutOfMemory, "x")), IOErr::OutOfMemory);
    assert_eq!(
        common_io_err_from_io(&err(IoErrorKind::NotADirectory, "Not a directory")),
        IOErr::Other("Not a directory".to_string())
    );
    assert_eq!(common_io_err_other("z"), IOErr::Other("z".to_string()));
}

#[test]
fn host_errors() {
    assert_eq!(process_not_found(), err(IoErrorKind::NotFound, "Process not found"));
    assert_eq!(timed_out(), err(IoErrorKind::TimedOut, "TCP operation timed out"));
    assert_eq!(unsupported_file_permission_error().kind, IoErrorKind::Unsupported);
    let write_zero = basic_cli::tcp::tcp_write_progress(0, 4, 0).err().unwrap();
    assert_eq!(write_zero.kind, IoErrorKind::WriteZero);
    assert_eq!(write_zero.message, std::io::Error::from(std::io::ErrorKind::WriteZero).to_string());
    assert_eq!(kind_debug_name_string(&IoErrorKind::WouldBlock), "WouldBlock");
    assert_eq!(kind_debug_name_string(&IoErrorKind::Unlisted("Deadlock".to_string())), "Deadlock");
}
