//! The two error kinds that cross the engine's boundary.
use vstd::prelude::*;

verus! {

/// What went wrong in an I/O-class failure.
#[derive(Debug, Clone, Copy, PartialEq, Eq, Structural)]
pub enum IoErrorKind {
    /// Input was offered to a process that had already terminated.
    ProcessAlreadyExited,
    /// Input was offered to a process that was started without an input pipe.
    NoStdinConfigured,
    /// The operating system refused a spawn, a write or a status query.
    Os,
    /// Anything else, such as a wrapped `CommandError`.
    Other,
}

/// An I/O-class error: its kind, and whatever detail was available when it arose.
#[derive(Debug, Clone, PartialEq, Eq)]
pub struct IoError {
    pub kind: IoErrorKind,
    pub message: String,
}

/// The engine's result type for operations that can fail with an `IoError`.
pub type IoResult<T> = Result<T, IoError>;

/// The text that every `CommandError` carries.
pub open spec fn command_error_text() -> Seq<char> {
    "error executing sub process"@
}

/// The text of the error returned when input is offered to a terminated process.
pub open spec fn exited_text() -> Seq<char> {
    "Process already exited!"@
}

/// The text of the error returned when input is offered to a process without an input pipe.
pub open spec fn no_stdin_text() -> Seq<char> {
    "No stdin to pass input to"@
}

impl View for IoError {
    type V = (IoErrorKind, Seq<char>);

    open spec fn view(&self) -> (IoErrorKind, Seq<char>) {
        (self.kind, self.message@)
    }
}

impl IoError {
    /// An error of the given kind with the given detail.
    pub fn new(kind: IoErrorKind, message: &str) -> (e: IoError)
        ensures
            e.kind == kind,
            e.message@ == message@,
    {
        IoError { kind, message: message.to_owned() }
    }

    /// The error for input offered to a terminated process.
    pub fn process_exited() -> (e: IoError)
        ensures
            e.kind == IoErrorKind::ProcessAlreadyExited,
            e.message@ == exited_text(),
    {
        IoError::new(IoErrorKind::ProcessAlreadyExited, "Process already exited!")
    }

    /// The error for input offered to a process that has no input pipe.
    pub fn no_stdin() -> (e: IoError)
        ensures
            e.kind == IoErrorKind::NoStdinConfigured,
            e.message@ == no_stdin_text(),
    {
        IoError::new(IoErrorKind::NoStdinConfigured, "No stdin to pass input to")
    }
}

/// The opaque error of a worker that ended abnormally. It keeps no cause.
#[derive(Debug, Clone)]
pub struct CommandError;

impl CommandError {
    pub fn new() -> (e: CommandError)
        ensures
            e == CommandError,
    {
        CommandError {  }
    }

    /// The fixed text of the error.
    pub fn description(&self) -> (text: &'static str)
        ensures
            text@ == command_error_text(),
    {
        "error executing sub process"
    }

    /// The text shown for the error: its description.
    pub fn message(&self) -> (text: String)
        ensures
            text@ == command_error_text(),
    {
        self.description().to_owned()
    }

    /// The underlying cause, which is never tracked.
    pub fn cause(&self) -> (cause: Option<IoError>)
        ensures
            cause is None,
    {
        None
    }
}

impl From<CommandError> for IoError {
    /// A command error seen as an I/O-class error: kind `Other`, with the fixed text.
    fn from(item: CommandError) -> (e: IoError)
        ensures
            e.kind == IoErrorKind::Other,
            e.message@ == command_error_text(),
    {
        IoError::new(IoErrorKind::Other, item.description())
    }
}

impl vstd::std_specs::convert::FromSpecImpl<CommandError> for IoError {
    open spec fn obeys_from_spec() -> bool {
        false
    }

    open spec fn from_spec(item: CommandError) -> IoError {
        arbitrary()
    }
}

impl From<IoError> for CommandError {
    /// Any I/O-class error becomes the one opaque command error; its detail is lost.
    fn from(item: IoError) -> (e: CommandError) {
        CommandError::new()
    }
}

impl vstd::std_specs::convert::FromSpecImpl<IoError> for CommandError {
    open spec fn obeys_from_spec() -> bool {
        true
    }

    open spec fn from_spec(item: IoError) -> CommandError {
        CommandError
    }
}

} // verus!
