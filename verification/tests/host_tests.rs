use basic_cli::host::{
    args_from_argv, common_io_result, env_path_result, env_var_result, exit_code_for,
    file_permission_bit, nanos_since_epoch, path_type_result, permission_bit_set, reader_capacity,
    stdin_bytes_result, stdin_line_result, EXECUTABLE_BITS, READABLE_BITS, WRITABLE_BITS,
};
use basic_cli::io_error::{IOErr, IoError, IoErrorKind};
use basic_cli::random::{random_seed_u32, random_seed_u64, random_u32_result, random_u64_result};
use basic_cli::results::{PathType, StdinReadErr};

fn err(kind: IoErrorKind, message: &str) -> IoError {
    IoError { kind, message: message.to_string() }
}

#[test]
fn a_program_that_called_dbg_never_succeeds() {
    assert_eq!(exit_code_for(true, 0), 1);
    assert_eq!(exit_code_for(true, 3), 3);
    assert_eq!(exit_code_for(false, 0), 0);
}

#[test]
fn arguments_stop_at_the_count_or_a_null() {
    let argv = Some(vec![Some("prog".to_string()), Some("a".to_string()), None, Some("b".to_string())]);
    assert_eq!(args_from_argv(4, argv), vec!["prog".to_string(), "a".to_string()]);
    let argv = Some(vec![Some("prog".to_string()), Some("a".to_string())]);
    assert_eq!(args_from_argv(1, argv), vec!["prog".to_string()]);
    assert!(args_from_argv(0, Some(vec![Some("x".to_string())])).is_empty());
    assert!(args_from_argv(3, None).is_empty());
}

#[test]
fn common_errors_have_seven_tags() {
    assert_eq!(common_io_result::<u8>(Err(err(IoErrorKind::NotFound, "x"))), Err(IOErr::NotFound));
    assert_eq!(
        common_io_result::<u8>(Err(err(IoErrorKind::IsADirectory, "Is a directory"))),
        Err(IOErr::Other("Is a directory".to_string()))
    );
    assert_eq!(common_io_result(Ok(5u8)), Ok(5));
}

#[test]
fn environment_results() {
    assert_eq!(env_var_result("HOME".to_string(), Some("/root".to_string())), Ok("/root".to_string()));
    assert_eq!(env_var_result("NOPE".to_string(), None), Err("NOPE".to_string()));
    assert_eq!(env_path_result(None), Err(()));
    assert_eq!(env_path_result(Some("/tmp".to_string())), Ok("/tmp".to_string()));
}

#[test]
fn permissions_and_capacity() {
    assert!(permission_bit_set(0o755, EXECUTABLE_BITS));
    assert!(!permission_bit_set(0o644, EXECUTABLE_BITS));
    assert!(permission_bit_set(0o400, READABLE_BITS));
    assert!(!permission_bit_set(0o444, WRITABLE_BITS));
    assert_eq!(file_permission_bit(Ok(0o600), WRITABLE_BITS).unwrap(), true);
    assert_eq!(file_permission_bit(Err(err(IoErrorKind::NotFound, "x")), WRITABLE_BITS).unwrap_err().kind, IoErrorKind::NotFound);
    assert_eq!(reader_capacity(0), None);
    assert_eq!(reader_capacity(64), Some(64));
}

#[test]
fn times_and_path_types() {
    assert_eq!(nanos_since_epoch(Ok(42)).unwrap(), 42);
    let e = nanos_since_epoch(Err("second time provided was later than self".to_string())).unwrap_err();
    assert_eq!(e.kind, IoErrorKind::Other);
    assert_eq!(
        path_type_result(Ok((true, false, false))),
        Ok(PathType { is_dir: true, is_file: false, is_sym_link: false })
    );
    assert_eq!(path_type_result(Err(err(IoErrorKind::PermissionDenied, "x"))), Err(IOErr::PermissionDenied));
}

#[test]
fn standard_input() {
    assert_eq!(stdin_line_result(Ok((0, String::new()))), Err(StdinReadErr::EndOfFile));
    assert_eq!(stdin_line_result(Ok((6, "hello\n".to_string()))), Ok("hello".to_string()));
    assert_eq!(
        stdin_line_result(Err(err(IoErrorKind::Interrupted, "x"))),
        Err(StdinReadErr::StdinErr(IOErr::Interrupted))
    );
    assert_eq!(stdin_bytes_result(Ok(vec![])), Err(StdinReadErr::EndOfFile));
    assert_eq!(stdin_bytes_result(Ok(vec![1, 2])), Ok(vec![1, 2]));
}

#[test]
fn random_seeds_come_from_the_system() {
    let a = random_seed_u64().unwrap();
    let b = random_seed_u64().unwrap();
    let c = random_seed_u64().unwrap();
    assert!(a != b || b != c);
    assert!(random_seed_u32().is_ok());
}

#[test]
fn random_source_outcomes() {
    assert_eq!(random_u32_result(Ok(7)), Ok(7));
    assert_eq!(random_u64_result(Ok(u64::MAX)), Ok(u64::MAX));
    assert_eq!(random_u32_result(Err("no entropy".to_string())), Err(IOErr::Other("no entropy".to_string())));
    assert_eq!(random_u64_result(Err("gone".to_string())), Err(IOErr::Other("gone".to_string())));
}
