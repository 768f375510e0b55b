use commander::commander::child_ext::{Child, ExitStatus, Poll};
use commander::commander::common::{Action, Event, RunOpts};
use commander::commander::errors::{IoError, IoErrorKind};
use commander::{run_async, run_thread};

#[test]
fn failed_spawn_is_passed_on_at_once() {
    let failure = IoError::new(IoErrorKind::Os, "No such file or directory");
    let started = run_thread(Err(failure.clone()), RunOpts::default());
    assert_eq!(started.expect_err("nothing was spawned"), failure);
}

#[test]
fn worker_runs_the_loop_and_hands_out_the_handle() {
    let mut worker =
        run_thread(Ok(Child::new(false, true, false)), RunOpts::default()).expect("spawned");
    let mut screen = String::new();
    assert_eq!(worker.pending(), Action::Poll);
    assert_eq!(worker.step(Event::Polled(Poll::Running), &mut screen), Action::Read);
    assert_eq!(worker.step(Event::Read(Ok(b"hello\n".to_vec())), &mut screen), Action::Read);
    assert_eq!(worker.step(Event::Read(Ok(vec![])), &mut screen), Action::Sleep(100));
    assert_eq!(worker.step(Event::Slept, &mut screen), Action::Poll);
    assert!(!worker.is_finished());
    assert_eq!(
        worker.step(Event::Polled(Poll::Exited(ExitStatus::from_code(0))), &mut screen),
        Action::Read
    );
    assert_eq!(worker.step(Event::Read(Ok(vec![])), &mut screen), Action::Done);
    assert!(worker.is_finished());
    let result = worker.join().expect("the run came to its end");
    assert_eq!(result.status, Some(ExitStatus::from_code(0)));
    assert_eq!(result.output, "hello\n");
    assert_eq!(screen, "hello\n");
    let child = result.child.expect("the handle comes with the result");
    assert!(child.has_stdout());
    assert_eq!(child.exit_status(), Some(ExitStatus::from_code(0)));
}

#[test]
fn worker_whose_run_was_given_up_yields_the_opaque_error() {
    let opts = RunOpts::new(Some(String::from("pw")), false);
    let mut worker = run_thread(Ok(Child::new(false, true, false)), opts).expect("spawned");
    let mut screen = String::new();
    assert_eq!(worker.step(Event::Polled(Poll::Running), &mut screen), Action::Abort);
    let error = worker.join().expect_err("the input could not be passed");
    assert_eq!(error.message(), "error executing sub process");
}

#[test]
fn test_async() {
    let stat = run_async(Ok(Child::new(false, true, false)), RunOpts::default());
    match stat {
        Ok(result) => {
            assert_eq!(result.status, None);
            if let Some(mut child) = result.child {
                assert!(!child.has_stdout());
                let status = match child.try_wait(Poll::Exited(ExitStatus::from_code(0))) {
                    Poll::Exited(status) => status,
                    _ => panic!("No child process"),
                };
                assert!(status.success());
            } else {
                assert!(false);
            }
        }
        Err(e) => {
            println!("Error: {}", e.message());
            assert!(false);
        }
    };
}

#[test]
fn async_start_needs_an_output_pipe() {
    let started = run_async(Ok(Child::new(true, false, false)), RunOpts::default());
    assert_eq!(started.expect_err("no pipe to read from").message(), "error executing sub process");
}

#[test]
fn async_start_after_a_failed_spawn_yields_the_opaque_error() {
    let failure = IoError::new(IoErrorKind::Os, "No such file or directory");
    assert!(run_async(Err(failure), RunOpts::default()).is_err());
}
