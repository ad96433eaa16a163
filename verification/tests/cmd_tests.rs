use basic_cli::cmd::{
    child_exit_from, child_exit_result, child_poll_result, cmd_bytes_result, cmd_to_std,
    cmd_unit_result, env_pairs, exec_output_failed, exec_output_result, exit_code_result,
    exit_code_spawn_failed, kill_outcome, poll_keeps_child, spawn_result, stdin_not_available, take_arg_list,
    try_cmd_output_failure_err, try_cmd_output_failure_ok, ChildExit, CmdOutputError,
    CmdOutputFailure, CmdOutputSuccess, ExitedOrRunning,
};
use basic_cli::io_error::{IOErr, IoError, IoErrorKind};

fn err(kind: IoErrorKind, message: &str) -> IoError {
    IoError { kind, message: message.to_string() }
}

fn strings(items: &[&str]) -> Vec<String> {
    items.iter().map(|s| s.to_string()).collect()
}

#[test]
fn envs_come_in_pairs_and_a_trailing_key_is_dropped() {
    let pairs = env_pairs(&strings(&["A", "1", "B", "2", "C"]));
    assert_eq!(pairs, vec![("A".to_string(), "1".to_string()), ("B".to_string(), "2".to_string())]);
    assert!(env_pairs(&Vec::new()).is_empty());
}

#[test]
fn take_arg_list_reports_the_first_failure() {
    let items = vec![
        Ok("a".to_string()),
        Err(err(IoErrorKind::InvalidInput, "first")),
        Ok("b".to_string()),
        Err(err(IoErrorKind::InvalidInput, "second")),
    ];
    assert_eq!(take_arg_list(items).unwrap_err().message, "first");
    let items = vec![Ok("a".to_string()), Ok("b".to_string())];
    assert_eq!(take_arg_list(items).unwrap(), strings(&["a", "b"]));
}

#[test]
fn command_description_errors_in_order() {
    let spec = cmd_to_std(Ok("ls".to_string()), Ok(strings(&["-l"])), Ok(strings(&["K", "V"])), true).unwrap();
    assert_eq!(spec.program, "ls");
    assert_eq!(spec.args, strings(&["-l"]));
    assert!(spec.clear_envs);
    assert_eq!(spec.envs, vec![("K".to_string(), "V".to_string())]);
    let failed = cmd_to_std(
        Err(err(IoErrorKind::InvalidInput, "program")),
        Err(err(IoErrorKind::InvalidInput, "args")),
        Ok(vec![]),
        false,
    );
    assert_eq!(failed.unwrap_err().message, "program");
    let failed = cmd_to_std(
        Ok("ls".to_string()),
        Err(err(IoErrorKind::InvalidInput, "args")),
        Err(err(IoErrorKind::InvalidInput, "envs")),
        false,
    );
    assert_eq!(failed.unwrap_err().message, "args");
}

#[test]
fn exit_codes() {
    assert_eq!(exit_code_result(Some(3)), Ok(3));
    assert_eq!(exit_code_result(None), Err(IOErr::Other("Process was killed by signal".to_string())));
    assert_eq!(exit_code_spawn_failed(&err(IoErrorKind::NotFound, "nope")), Err(IOErr::NotFound));
}

#[test]
fn output_classification() {
    assert_eq!(
        exec_output_result(Some(0), vec![1], vec![2]),
        Ok(CmdOutputSuccess { stderr_bytes: vec![2], stdout_bytes: vec![1] })
    );
    assert_eq!(
        exec_output_result(Some(4), vec![1], vec![2]),
        Err(CmdOutputError::NonZeroExitCode(CmdOutputFailure { stderr_bytes: vec![2], stdout_bytes: vec![1], exit_code: 4 }))
    );
    assert_eq!(
        exec_output_result(None, vec![1], vec![2]),
        Err(CmdOutputError::FailedToGetExitCode(IOErr::Other("Process was killed by signal".to_string())))
    );
    assert_eq!(
        exec_output_failed(&err(IoErrorKind::PermissionDenied, "no")),
        Err(CmdOutputError::FailedToGetExitCode(IOErr::PermissionDenied))
    );
}

#[test]
fn a_signal_death_of_a_spawned_child_is_minus_one() {
    assert_eq!(child_exit_from(None, vec![], vec![]).exit_code, -1);
    assert_eq!(child_exit_from(Some(2), vec![9], vec![]).stdout_bytes, vec![9]);
    assert_eq!(
        child_exit_result(Ok((Some(0), vec![1], vec![2]))),
        Ok(ChildExit { stderr_bytes: vec![2], stdout_bytes: vec![1], exit_code: 0 })
    );
    assert_eq!(child_exit_result(Err(err(IoErrorKind::IsADirectory, "d"))), Err(IOErr::IsADirectory));
}

#[test]
fn poll_results() {
    assert_eq!(child_poll_result(Ok(None)), Ok(ExitedOrRunning::Running));
    assert_eq!(
        child_poll_result(Ok(Some((None, vec![], vec![])))),
        Ok(ExitedOrRunning::Exited(ChildExit { stderr_bytes: vec![], stdout_bytes: vec![], exit_code: -1 }))
    );
    assert_eq!(
        child_poll_result(Err(err(IoErrorKind::NotFound, "Process not found"))),
        Err(IOErr::NotFound)
    );
}

#[test]
fn unit_and_bytes_results() {
    assert_eq!(cmd_unit_result(Ok(())), Ok(()));
    assert_eq!(cmd_unit_result(Err(err(IoErrorKind::BrokenPipe, "p"))), Err(IOErr::BrokenPipe));
    assert_eq!(
        cmd_unit_result(Err(err(IoErrorKind::Other, "Process stdin not available"))),
        Err(IOErr::Other("Process stdin not available".to_string()))
    );
    assert_eq!(cmd_bytes_result(Ok(vec![5])), Ok(vec![5]));
    assert_eq!(
        cmd_bytes_result(Err(err(IoErrorKind::UnexpectedEof, "unexpected end of file"))),
        Err(IOErr::Other("unexpected end of file".to_string()))
    );
    assert_eq!(spawn_result(Ok(4)), Ok(4));
    assert_eq!(spawn_result(Err(err(IoErrorKind::NotFound, "x"))), Err(IOErr::NotFound));
}

#[test]
fn kill_of_an_exited_child_is_not_an_error() {
    assert!(kill_outcome(err(IoErrorKind::Other, "kill"), Ok(true)).is_ok());
    assert_eq!(kill_outcome(err(IoErrorKind::Other, "kill"), Ok(false)).unwrap_err().message, "kill");
    assert_eq!(
        kill_outcome(err(IoErrorKind::Other, "kill"), Err(err(IoErrorKind::Other, "wait"))).unwrap_err().message,
        "wait"
    );
}

#[test]
fn writing_to_a_closed_stdin_is_an_other_error() {
    let error = stdin_not_available();
    assert_eq!(error.kind, IoErrorKind::Other);
    assert_eq!(error.message, "Process stdin not available");
    assert_eq!(cmd_unit_result(Err(error)), Err(IOErr::Other("Process stdin not available".to_string())));
}

#[test]
fn output_failure_results() {
    let failure = CmdOutputFailure { stderr_bytes: b"e".to_vec(), stdout_bytes: b"o".to_vec(), exit_code: 3 };
    assert_eq!(try_cmd_output_failure_ok(failure.clone()), Ok(failure));
    assert_eq!(try_cmd_output_failure_err(IOErr::NotFound), Err(IOErr::NotFound));
}

#[test]
fn only_a_collected_exit_leaves_the_table() {
    assert!(poll_keeps_child(&Ok(None)));
    assert!(poll_keeps_child(&Err(err(IoErrorKind::Other, "wait failed"))));
    assert!(!poll_keeps_child(&Ok(Some((Some(0), vec![], vec![])))));
}
