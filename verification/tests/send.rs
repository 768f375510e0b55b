use commander::commander::child_ext::{Child, ExitStatus, Poll, SendStep};
use commander::commander::common::send_pw;
use commander::commander::errors::{IoError, IoErrorKind};
use commander::CommandResult;

fn refusal(step: SendStep) -> IoError {
    match step {
        SendStep::Done(Err(error)) => error,
        other => panic!("the send was not refused: {:?}", other),
    }
}

#[test]
fn exit_status_tells_success() {
    assert!(ExitStatus::from_code(0).success());
    assert!(!ExitStatus::from_code(1).success());
    assert!(!ExitStatus::signaled().success());
    assert_eq!(ExitStatus::from_code(3).code(), Some(3));
    assert_eq!(ExitStatus::signaled().code(), None);
}

#[test]
fn new_child_holds_the_pipes_it_was_given() {
    let child = Child::new(true, false, true);
    assert!(child.has_stdin());
    assert!(!child.has_stdout());
    assert!(child.has_stderr());
    assert_eq!(child.exit_status(), None);
}

#[test]
fn send_to_running_process_writes_a_terminated_line() {
    let mut child = Child::new(true, true, false);
    match child.send(Poll::Running, String::from("secret")) {
        SendStep::Write { stdin, line } => {
            assert_eq!(line, "secret\n");
            assert!(!child.has_stdin());
            assert_eq!(child.finish_send(stdin, Ok(())), Ok(()));
        }
        other => panic!("nothing to write: {:?}", other),
    }
    assert!(child.has_stdin());
    assert!(child.has_stdout());
    assert_eq!(child.exit_status(), None);
}

#[test]
fn send_of_empty_input_writes_a_bare_line_terminator() {
    let mut child = Child::new(true, false, false);
    match child.send(Poll::Running, String::new()) {
        SendStep::Write { stdin: _, line } => assert_eq!(line, "\n"),
        other => panic!("nothing to write: {:?}", other),
    }
}

#[test]
fn write_failure_is_passed_on_and_the_pipe_restored() {
    let mut child = Child::new(true, false, false);
    let stdin = match child.send(Poll::Running, String::from("x")) {
        SendStep::Write { stdin, line: _ } => stdin,
        other => panic!("nothing to write: {:?}", other),
    };
    let failure = IoError::new(IoErrorKind::Os, "broken pipe");
    assert_eq!(child.finish_send(stdin, Err(failure.clone())), Err(failure));
    assert!(child.has_stdin());
}

#[test]
fn send_to_exited_process_is_refused() {
    let mut child = Child::new(true, true, false);
    let error = refusal(child.send(Poll::Exited(ExitStatus::from_code(0)), String::from("late")));
    assert_eq!(error.kind, IoErrorKind::ProcessAlreadyExited);
    assert_eq!(error.message, "Process already exited!");
    // the handle can still be inspected
    assert!(child.has_stdin());
    assert!(child.has_stdout());
    assert_eq!(child.exit_status(), Some(ExitStatus::from_code(0)));
}

#[test]
fn send_after_recorded_exit_is_refused_whatever_the_query_says() {
    let mut child = Child::new(true, true, false);
    assert_eq!(
        child.try_wait(Poll::Exited(ExitStatus::from_code(7))),
        Poll::Exited(ExitStatus::from_code(7))
    );
    let error = refusal(child.send(Poll::Running, String::from("late")));
    assert_eq!(error.kind, IoErrorKind::ProcessAlreadyExited);
    let again = refusal(child.send(Poll::Failed(IoError::new(IoErrorKind::Os, "gone")), String::new()));
    assert_eq!(again.kind, IoErrorKind::ProcessAlreadyExited);
    assert_eq!(child.exit_status(), Some(ExitStatus::from_code(7)));
    assert!(child.has_stdin());
}

#[test]
fn send_without_input_pipe_is_refused() {
    let mut child = Child::new(false, true, false);
    let error = refusal(child.send(Poll::Running, String::from("secret")));
    assert_eq!(error.kind, IoErrorKind::NoStdinConfigured);
    assert_eq!(error.message, "No stdin to pass input to");
    assert!(child.has_stdout());
}

#[test]
fn send_passes_on_a_failed_status_query() {
    let mut child = Child::new(true, true, false);
    let failure = IoError::new(IoErrorKind::Os, "no child process");
    assert_eq!(
        child.send(Poll::Failed(failure.clone()), String::from("secret")),
        SendStep::Done(Err(failure))
    );
    assert!(child.has_stdin());
    assert_eq!(child.exit_status(), None);
}

#[test]
fn recorded_status_is_never_replaced() {
    let mut child = Child::new(false, false, false);
    child.try_wait(Poll::Exited(ExitStatus::from_code(2)));
    assert_eq!(child.try_wait(Poll::Running), Poll::Exited(ExitStatus::from_code(2)));
    assert_eq!(
        child.try_wait(Poll::Exited(ExitStatus::from_code(0))),
        Poll::Exited(ExitStatus::from_code(2))
    );
    assert_eq!(child.exit_status(), Some(ExitStatus::from_code(2)));
}

#[test]
fn running_query_records_nothing() {
    let mut child = Child::new(true, true, true);
    assert_eq!(child.try_wait(Poll::Running), Poll::Running);
    assert_eq!(child.exit_status(), None);
}

#[test]
fn send_pw_without_input_does_nothing() {
    let mut child = Child::new(false, false, false);
    assert_eq!(
        send_pw(&mut child, Poll::Exited(ExitStatus::from_code(0)), None),
        SendStep::Done(Ok(()))
    );
    assert_eq!(child.exit_status(), None);
}

#[test]
fn send_pw_with_input_sends_it() {
    let mut child = Child::new(true, false, false);
    match send_pw(&mut child, Poll::Running, Some(String::from("pass"))) {
        SendStep::Write { stdin: _, line } => assert_eq!(line, "pass\n"),
        other => panic!("nothing to write: {:?}", other),
    }
}

#[test]
fn result_send_without_process_does_nothing() {
    let mut subproc: Option<Child> = None;
    assert_eq!(
        CommandResult::send(&mut subproc, Poll::Running, String::from("x")),
        SendStep::Done(Ok(()))
    );
    assert!(subproc.is_none());
}

#[test]
fn result_send_keeps_the_handle() {
    let mut subproc = Some(Child::new(true, true, false));
    let stdin = match CommandResult::send(&mut subproc, Poll::Running, String::from("x")) {
        SendStep::Write { stdin, line } => {
            assert_eq!(line, "x\n");
            stdin
        }
        other => panic!("nothing to write: {:?}", other),
    };
    assert!(subproc.is_some());
    assert_eq!(CommandResult::finish_send(&mut subproc, stdin, Ok(())), Ok(()));
    let child = subproc.expect("the handle is kept");
    assert!(child.has_stdin());
    assert!(child.has_stdout());
}

#[test]
fn result_send_to_exited_process_keeps_the_handle_usable() {
    let mut subproc = Some(Child::new(true, true, false));
    let step = CommandResult::send(
        &mut subproc,
        Poll::Exited(ExitStatus::from_code(0)),
        String::from("late"),
    );
    assert_eq!(refusal(step).kind, IoErrorKind::ProcessAlreadyExited);
    let child = subproc.expect("the handle is kept");
    assert_eq!(child.exit_status(), Some(ExitStatus::from_code(0)));
    assert!(child.has_stdin());
}
