//! The process handle as the engine sees it, and the channel that passes one line of input
//! to a live process.
use vstd::prelude::*;
use vstd::string::StringExecFns;
use crate::commander::errors::{exited_text, no_stdin_text, IoError, IoErrorKind, IoResult};

verus! {

/// How a process ended: its exit code, or none when a signal ended it.
#[derive(Debug, Clone, Copy, PartialEq, Eq)]
pub struct ExitStatus {
    pub code: Option<i32>,
}

impl ExitStatus {
    /// The status of a process that ended with the given code.
    pub fn from_code(code: i32) -> (status: ExitStatus)
        ensures
            status.code == Some(code),
    {
        ExitStatus { code: Some(code) }
    }

    /// The status of a process that a signal ended.
    pub fn signaled() -> (status: ExitStatus)
        ensures
            status.code is None,
    {
        ExitStatus { code: None }
    }

    pub open spec fn is_success(self) -> bool {
        self.code == Some(0i32)
    }

    /// Whether the process ended with code zero.
    pub fn success(&self) -> (ok: bool)
        ensures
            ok == self.is_success(),
    {
        match self.code {
            Some(code) => code == 0,
            None => false,
        }
    }

    /// The exit code, if the process ended with one.
    pub fn code(&self) -> (code: Option<i32>)
        ensures
            code == self.code,
    {
        self.code
    }
}

/// What one status query of the operating system answered. The query never blocks.
#[derive(Debug, PartialEq, Eq)]
pub enum Poll {
    /// The process has not ended yet.
    Running,
    /// The process has ended with this status.
    Exited(ExitStatus),
    /// The query itself failed.
    Failed(IoError),
}

/// The input pipe of a process. Whoever holds the value holds the pipe.
#[derive(Debug, PartialEq, Eq)]
pub struct ChildStdin {
    held: (),
}

/// The output pipe of a process.
#[derive(Debug, PartialEq, Eq)]
pub struct ChildStdout {
    held: (),
}

/// The error pipe of a process.
#[derive(Debug, PartialEq, Eq)]
pub struct ChildStderr {
    held: (),
}

/// What the engine knows of a spawned process: which pipes its handle holds, and its
/// terminal status once that was seen.
pub struct ChildView {
    pub stdin: bool,
    pub stdout: bool,
    pub stderr: bool,
    pub status: Option<ExitStatus>,
}

impl ChildView {
    /// What a status query means to the handle: one that has recorded a terminal status
    /// answers with it, whatever the operating system says now.
    pub open spec fn observe(self, observed: Poll) -> Poll {
        match self.status {
            Some(status) => Poll::Exited(status),
            None => observed,
        }
    }

    /// The handle once it has seen `observed`: the first terminal status is recorded for
    /// good.
    pub open spec fn saw(self, observed: Poll) -> ChildView {
        match self.observe(observed) {
            Poll::Exited(status) => ChildView { status: Some(status), ..self },
            _ => self,
        }
    }
}

/// A spawned process: the pipes it was given, and its terminal status once that was seen.
///
/// A pipe is checked out by moving it out of the handle and restored by moving it back.
/// The recorded status is written once and never changes afterwards.
#[derive(Debug)]
pub struct Child {
    stdin: Option<ChildStdin>,
    stdout: Option<ChildStdout>,
    stderr: Option<ChildStderr>,
    status: Option<ExitStatus>,
}

impl View for Child {
    type V = ChildView;

    closed spec fn view(&self) -> ChildView {
        ChildView {
            stdin: self.stdin is Some,
            stdout: self.stdout is Some,
            stderr: self.stderr is Some,
            status: self.status,
        }
    }
}

/// What `Child::send` asks of its caller.
#[derive(Debug, PartialEq, Eq)]
pub enum SendStep {
    /// Write `line` to the process's input, then hand `stdin` and the outcome to
    /// `Child::finish_send`.
    Write { stdin: ChildStdin, line: String },
    /// Nothing is to be written: this is the result of the send.
    Done(IoResult<()>),
}

/// Something that one line of input can be sent to.
pub trait Communicate {
    fn send(&mut self, input: String) -> IoResult<()>;
}

/// The text handed to a process for `input`: the input and a line terminator.
pub open spec fn line_of(input: Seq<char>) -> Seq<char> {
    input.push('\n')
}

/// Why a send to the handle `child` fails when a status query made now answers
/// `observed`, or nothing where the input is to be written.
pub open spec fn send_refusal(child: ChildView, observed: Poll) -> Option<(IoErrorKind, Seq<char>)> {
    match child.observe(observed) {
        Poll::Running => if child.stdin {
            None
        } else {
            Some((IoErrorKind::NoStdinConfigured, no_stdin_text()))
        },
        Poll::Exited(_) => Some((IoErrorKind::ProcessAlreadyExited, exited_text())),
        Poll::Failed(error) => Some(error@),
    }
}

impl Child {
    /// A process that was just spawned, with the pipes that were configured for it.
    pub fn new(stdin: bool, stdout: bool, stderr: bool) -> (child: Child)
        ensures
            child@ == (ChildView { stdin, stdout, stderr, status: None }),
    {
        Child {
            stdin: if stdin { Some(ChildStdin { held: () }) } else { None },
            stdout: if stdout { Some(ChildStdout { held: () }) } else { None },
            stderr: if stderr { Some(ChildStderr { held: () }) } else { None },
            status: None,
        }
    }

    /// Whether the handle holds an input pipe.
    pub fn has_stdin(&self) -> (held: bool)
        ensures
            held == self@.stdin,
    {
        self.stdin.is_some()
    }

    /// Whether the handle holds an output pipe.
    pub fn has_stdout(&self) -> (held: bool)
        ensures
            held == self@.stdout,
    {
        self.stdout.is_some()
    }

    /// Whether the handle holds an error pipe.
    pub fn has_stderr(&self) -> (held: bool)
        ensures
            held == self@.stderr,
    {
        self.stderr.is_some()
    }

    /// The recorded terminal status.
    pub fn exit_status(&self) -> (status: Option<ExitStatus>)
        ensures
            status == self@.status,
    {
        self.status
    }

    /// Checks the output pipe out of the handle, if it holds one.
    pub fn take_stdout(&mut self) -> (pipe: Option<ChildStdout>)
        ensures
            pipe is Some == old(self)@.stdout,
            final(self)@ == (ChildView { stdout: false, ..old(self)@ }),
    {
        self.stdout.take()
    }

    /// Restores the output pipe to the handle.
    pub fn restore_stdout(&mut self, pipe: ChildStdout)
        ensures
            final(self)@ == (ChildView { stdout: true, ..old(self)@ }),
    {
        self.stdout = Some(pipe);
    }

    /// Takes in the answer of a status query and returns what it means to this handle.
    /// The first terminal status seen is recorded for good.
    pub fn try_wait(&mut self, observed: Poll) -> (seen: Poll)
        ensures
            seen == old(self)@.observe(observed),
            final(self)@ == old(self)@.saw(observed),
    {
        match self.status {
            Some(status) => Poll::Exited(status),
            None => {
                if let Poll::Exited(status) = &observed {
                    self.status = Some(*status);
                }
                observed
            },
        }
    }

    /// Begins to send `input` to the process, given the answer of a status query made now.
    ///
    /// To a running process with an input pipe, the input and a line terminator are to be
    /// written; the pipe is checked out for the write. Otherwise the send has failed:
    /// the process has ended, the query failed, or there is no input pipe.
    pub fn send(&mut self, observed: Poll, input: String) -> (step: SendStep)
        ensures
            match send_refusal(old(self)@, observed) {
                None => {
                    &&& step matches SendStep::Write { stdin, line }
                    &&& line@ == line_of(input@)
                    &&& final(self)@ == (ChildView { stdin: false, ..old(self)@.saw(observed) })
                },
                Some(refusal) => {
                    &&& step matches SendStep::Done(Err(error))
                    &&& error@ == refusal
                    &&& final(self)@ == old(self)@.saw(observed)
                },
            },
            old(self)@.observe(observed) matches Poll::Failed(error) ==> step == SendStep::Done(
                Err(error),
            ),
    {
        match self.try_wait(observed) {
            Poll::Running => match self.stdin.take() {
                Some(stdin) => {
                    let mut line = input;
                    line.append("\n");
                    proof {
                        reveal_strlit("\n");
                        assert(line@ =~= line_of(input@));
                    }
                    SendStep::Write { stdin, line }
                },
                None => SendStep::Done(Err(IoError::no_stdin())),
            },
            Poll::Exited(_) => SendStep::Done(Err(IoError::process_exited())),
            Poll::Failed(error) => SendStep::Done(Err(error)),
        }
    }

    /// Ends a send: restores the input pipe and passes on the outcome of the write.
    pub fn finish_send(&mut self, stdin: ChildStdin, written: IoResult<()>) -> (result: IoResult<()>)
        ensures
            result == written,
            final(self)@ == (ChildView { stdin: true, ..old(self)@ }),
    {
        self.stdin = Some(stdin);
        written
    }
}

/// Sending to a process that has exited always fails with the process-exited error.
///
/// Whether the handle has the exit on record or the status query made for the send finds
/// it, nothing is written. The handle keeps its pipes and holds the terminal status, so
/// that it can be inspected afterwards; and a send tried again fails in the same way,
/// whatever a status query answers then.
pub proof fn lemma_send_to_exited(child: ChildView, observed: Poll, later: Poll)
    requires
        child.observe(observed) is Exited,
    ensures
        send_refusal(child, observed) == Some((IoErrorKind::ProcessAlreadyExited, exited_text())),
        child.saw(observed) == (ChildView {
            status: Some(child.observe(observed)->Exited_0),
            ..child
        }),
        send_refusal(child.saw(observed), later) == send_refusal(child, observed),
        child.saw(observed).saw(later) == child.saw(observed),
{
}

/// A recorded terminal status never changes, and the pipes are untouched by a status query.
pub proof fn lemma_status_is_final(child: ChildView, observed: Poll)
    ensures
        child.status is Some ==> child.saw(observed).status == child.status,
        child.saw(observed).stdin == child.stdin,
        child.saw(observed).stdout == child.stdout,
        child.saw(observed).stderr == child.stderr,
{
}

} // verus!
