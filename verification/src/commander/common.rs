//! Run options, the output drainer and the execution loop.
use vstd::prelude::*;
use vstd::string::StringExecFns;
use vstd::utf8::{decode_utf8, encode_utf8, valid_utf8};
use crate::commander::child_ext::{
    line_of, send_refusal, Child, ChildStdin, ChildStdout, ChildView, ExitStatus, Poll, SendStep,
};
use crate::commander::errors::{IoError, IoErrorKind, IoResult};

verus! {

/// How a command is to be run.
#[derive(Debug, Clone)]
pub struct RunOpts {
    /// Text to pass to the process once, before anything is read from it.
    pub pw: Option<String>,
    /// Whether drained output is also shown on this process's own standard output.
    pub showout: bool,
}

impl RunOpts {
    /// The text that is to be passed to the process, if any.
    pub open spec fn input(&self) -> Option<Seq<char>> {
        match self.pw {
            Some(text) => Some(text@),
            None => None,
        }
    }

    pub fn new(pw: Option<String>, showout: bool) -> (opts: RunOpts)
        ensures
            opts.pw == pw,
            opts.showout == showout,
    {
        RunOpts { pw, showout }
    }
}

impl Default for RunOpts {
    /// No input, and output is shown.
    fn default() -> (opts: RunOpts)
        ensures
            opts.pw is None,
            opts.showout,
    {
        RunOpts { pw: None, showout: true }
    }
}

/// The most bytes that one read of the drainer asks for.
pub const CHUNK_SIZE: usize = 512;

/// The outcome of one read from a pipe: the bytes that were there, none when nothing is
/// buffered, or a failure.
pub type ReadOutcome = IoResult<Vec<u8>>;

/// The text that one chunk contributes: what it decodes to where it is valid text on its
/// own, and nothing otherwise.
pub open spec fn chunk_text(bytes: Seq<u8>) -> Seq<char> {
    if valid_utf8(bytes) {
        decode_utf8(bytes)
    } else {
        Seq::empty()
    }
}

/// Whether a read ends a drain: it brought no bytes, or it failed.
pub open spec fn ends_drain(read: ReadOutcome) -> bool {
    match read {
        Ok(bytes) => bytes@.len() == 0,
        Err(_) => true,
    }
}

/// The text that one read contributes to a drain: the text of its chunk, or nothing where
/// the read ends the drain.
pub open spec fn read_text_of(read: ReadOutcome) -> Seq<char> {
    if ends_drain(read) {
        Seq::empty()
    } else {
        chunk_text(read->Ok_0@)
    }
}

/// The text that a drain collects from the given reads: the text of each chunk in order,
/// up to the first read that ends the drain.
pub open spec fn drained(reads: Seq<ReadOutcome>) -> Seq<char>
    decreases reads.len(),
{
    if reads.len() == 0 || ends_drain(reads[0]) {
        Seq::empty()
    } else {
        read_text_of(reads[0]) + drained(reads.drop_first())
    }
}

/// `String::from_utf8`: the text that the bytes encode, or nothing where the bytes are not
/// UTF-8.
#[verifier::external_body]
fn decode_chunk(bytes: Vec<u8>) -> (text: Option<String>)
    ensures
        text is Some == valid_utf8(bytes@),
        text matches Some(body) ==> body@ == decode_utf8(bytes@),
{
    match String::from_utf8(bytes) {
        Ok(body) => Some(body),
        Err(_) => None,
    }
}

/// Takes one read into a drain. Returns whether the drain goes on with another read.
///
/// A chunk that is valid text on its own is appended to `out` and, with `showout`, to
/// `screen`, which collects what is to appear on this process's standard output. A chunk
/// that is not is dropped. A read that brought nothing, or failed, ends the drain.
pub fn absorb(out: &mut String, read: ReadOutcome, showout: bool, screen: &mut String) -> (more: bool)
    ensures
        more == !ends_drain(read),
        final(out)@ == old(out)@ + read_text_of(read),
        final(screen)@ == old(screen)@ + (if showout {
            read_text_of(read)
        } else {
            Seq::empty()
        }),
{
    match read {
        Ok(bytes) => {
            if bytes.len() != 0 {
                match decode_chunk(bytes) {
                    Some(body) => {
                        if showout {
                            screen.append(body.as_str());
                        }
                        out.append(body.as_str());
                    },
                    None => {},
                }
                true
            } else {
                false
            }
        },
        Err(_) => false,
    }
}

/// Drains a pipe, given the outcomes of the reads made on it: collects the text that is
/// buffered now, without waiting for more. Reads that come after the one that ends the
/// drain are not looked at.
pub fn read_from(reads: Vec<ReadOutcome>, showout: bool, screen: &mut String) -> (out: Option<String>)
    ensures
        out matches Some(text) && text@ == drained(reads@),
        final(screen)@ == old(screen)@ + (if showout {
            drained(reads@)
        } else {
            Seq::empty()
        }),
        reads@.len() == 0 || ends_drain(reads@[0]) ==> out->Some_0@ == Seq::<char>::empty(),
{
    let mut out = String::new();
    let mut more = true;
    proof {
        assert(reads@.skip(0) =~= reads@);
        assert(drained(reads@) =~= out@ + drained(reads@.skip(0)));
        assert(screen@ =~= old(screen)@ + Seq::<char>::empty());
    }
    for read in iter: reads
        invariant
            iter.seq() == reads@,
            drained(reads@) == out@ + (if more {
                drained(reads@.skip(iter.index() as int))
            } else {
                Seq::empty()
            }),
            screen@ == old(screen)@ + (if showout {
                out@
            } else {
                Seq::empty()
            }),
    {
        if more {
            let ghost i = iter.index() as int;
            proof {
                assert(reads@.skip(i).drop_first() =~= reads@.skip(i + 1));
            }
            more = absorb(&mut out, read, showout, screen);
            proof {
                if more {
                    assert(drained(reads@) =~= out@ + drained(reads@.skip(i + 1)));
                } else {
                    assert(drained(reads@) =~= out@ + Seq::<char>::empty());
                }
                if showout {
                    assert(screen@ =~= old(screen)@ + out@);
                } else {
                    assert(screen@ =~= old(screen)@ + Seq::<char>::empty());
                }
            }
        }
    }
    proof {
        if more {
            assert(drained(reads@.skip(reads@.len() as int)) =~= Seq::<char>::empty());
        }
        assert(out@ =~= drained(reads@));
    }
    Some(out)
}

/// How long the execution loop pauses between two status queries, in milliseconds.
pub const POLL_INTERVAL_MS: u64 = 100;

/// Something that the operating system did, reported to the engine.
#[derive(Debug, PartialEq, Eq)]
pub enum Event {
    /// A status query was answered.
    Polled(Poll),
    /// A write to the process's input ended.
    Written(IoResult<()>),
    /// A read from the process's output ended.
    Read(ReadOutcome),
    /// A pause is over.
    Slept,
    /// The time since the wait began, in whole milliseconds.
    Clock(u64),
}

/// What the engine asks its driver to do next. The driver reports the outcome as an
/// `Event`.
#[derive(Debug, PartialEq, Eq)]
pub enum Action {
    /// Query the status of the process without blocking; report `Event::Polled`.
    Poll,
    /// Write this text to the process's input; report `Event::Written`.
    Write(String),
    /// Read at most `CHUNK_SIZE` bytes that are buffered on the process's output, without
    /// waiting for more; report `Event::Read`.
    Read,
    /// Pause for this many milliseconds; report `Event::Slept`.
    Sleep(u64),
    /// Tell the time since the wait began; report `Event::Clock`.
    Clock,
    /// Nothing is left to do: the result is ready.
    Done,
    /// The input could not be passed to the process: the run is given up.
    Abort,
}

/// An `Action` with its text as a sequence of characters.
pub enum ActionView {
    Poll,
    Write(Seq<char>),
    Read,
    Sleep(u64),
    Clock,
    Done,
    Abort,
}

impl View for Action {
    type V = ActionView;

    open spec fn view(&self) -> ActionView {
        match *self {
            Action::Poll => ActionView::Poll,
            Action::Write(line) => ActionView::Write(line@),
            Action::Read => ActionView::Read,
            Action::Sleep(millis) => ActionView::Sleep(millis),
            Action::Clock => ActionView::Clock,
            Action::Done => ActionView::Done,
            Action::Abort => ActionView::Abort,
        }
    }
}

/// Where an execution loop stands.
pub enum Stage {
    /// The input is to be sent; the status query that comes first is under way.
    SendPoll(Seq<char>),
    /// This line is being written to the process's input, whose pipe is checked out.
    SendWrite(Seq<char>),
    /// A status query is under way.
    Polling,
    /// The output pipe is checked out and being drained. The status is that of a process
    /// that has exited: this drain is then the last one.
    Draining(Option<ExitStatus>),
    /// A pause is under way.
    Sleeping,
    /// The loop has ended.
    Done,
    /// The input could not be passed: the run was given up.
    Aborted,
}

/// The state of an execution loop.
pub struct RunState {
    pub stage: Stage,
    pub showout: bool,
    /// The terminal status, once the loop has seen the process exit and drained it.
    pub exit_code: Option<ExitStatus>,
    /// All the text drained so far, in the order in which it was read.
    pub output: Seq<char>,
    /// Why the input could not be passed, where it could not.
    pub failure: Option<(IoErrorKind, Seq<char>)>,
}

/// The state in which a loop starts.
pub open spec fn run_start(pw: Option<Seq<char>>, showout: bool) -> RunState {
    RunState {
        stage: match pw {
            Some(input) => Stage::SendPoll(input),
            None => Stage::Polling,
        },
        showout,
        exit_code: None,
        output: Seq::empty(),
        failure: None,
    }
}

/// What a loop in the given state asks of its driver.
pub open spec fn run_action(state: RunState) -> ActionView {
    match state.stage {
        Stage::SendPoll(_) => ActionView::Poll,
        Stage::SendWrite(line) => ActionView::Write(line),
        Stage::Polling => ActionView::Poll,
        Stage::Draining(_) => ActionView::Read,
        Stage::Sleeping => ActionView::Sleep(POLL_INTERVAL_MS),
        Stage::Done => ActionView::Done,
        Stage::Aborted => ActionView::Abort,
    }
}

/// Whether an event reports the outcome of the given action. A read brings at most
/// `CHUNK_SIZE` bytes.
pub open spec fn answers(action: ActionView, event: Event) -> bool {
    match (action, event) {
        (ActionView::Poll, Event::Polled(_)) => true,
        (ActionView::Write(_), Event::Written(_)) => true,
        (ActionView::Read, Event::Read(read)) => read matches Ok(bytes) ==> bytes@.len()
            <= CHUNK_SIZE,
        (ActionView::Sleep(_), Event::Slept) => true,
        (ActionView::Clock, Event::Clock(_)) => true,
        _ => false,
    }
}

/// The loop and the process handle after one event. An event that does not report the
/// outcome of what the loop asked for changes nothing.
pub open spec fn run_step(state: RunState, child: ChildView, event: Event) -> (RunState, ChildView) {
    match (state.stage, event) {
        (Stage::SendPoll(input), Event::Polled(observed)) => match send_refusal(child, observed) {
            None => (
                RunState { stage: Stage::SendWrite(line_of(input)), ..state },
                ChildView { stdin: false, ..child.saw(observed) },
            ),
            Some(refusal) => (
                RunState { stage: Stage::Aborted, failure: Some(refusal), ..state },
                child.saw(observed),
            ),
        },
        (Stage::SendWrite(_), Event::Written(written)) => match written {
            Ok(_) => (RunState { stage: Stage::Polling, ..state }, ChildView { stdin: true, ..child }),
            Err(error) => (
                RunState { stage: Stage::Aborted, failure: Some(error@), ..state },
                ChildView { stdin: true, ..child },
            ),
        },
        (Stage::Polling, Event::Polled(observed)) => match child.observe(observed) {
            Poll::Running => if child.stdout {
                (
                    RunState { stage: Stage::Draining(None), ..state },
                    ChildView { stdout: false, ..child.saw(observed) },
                )
            } else {
                (RunState { stage: Stage::Sleeping, ..state }, child.saw(observed))
            },
            Poll::Exited(status) => if child.stdout {
                (
                    RunState { stage: Stage::Draining(Some(status)), ..state },
                    ChildView { stdout: false, ..child.saw(observed) },
                )
            } else {
                (
                    RunState { stage: Stage::Done, exit_code: Some(status), ..state },
                    child.saw(observed),
                )
            },
            Poll::Failed(_) => (RunState { stage: Stage::Done, ..state }, child.saw(observed)),
        },
        (Stage::Draining(last), Event::Read(read)) => if ends_drain(read) {
            (
                match last {
                    Some(status) => RunState {
                        stage: Stage::Done,
                        exit_code: Some(status),
                        ..state
                    },
                    None => RunState { stage: Stage::Sleeping, ..state },
                },
                ChildView { stdout: true, ..child },
            )
        } else {
            (RunState { output: state.output + chunk_text(read->Ok_0@), ..state }, child)
        },
        (Stage::Sleeping, Event::Slept) => (RunState { stage: Stage::Polling, ..state }, child),
        _ => (state, child),
    }
}

/// What one event adds to this process's own standard output: the text of a chunk that
/// was drained, where output is shown.
pub open spec fn run_echo(state: RunState, event: Event) -> Seq<char> {
    match (state.stage, event) {
        (Stage::Draining(_), Event::Read(read)) => if state.showout && !ends_drain(read) {
            chunk_text(read->Ok_0@)
        } else {
            Seq::empty()
        },
        _ => Seq::empty(),
    }
}

/// The loop and the process handle after a sequence of events, taken in order.
pub open spec fn run_all(state: RunState, child: ChildView, events: Seq<Event>) -> (
    RunState,
    ChildView,
)
    decreases events.len(),
{
    if events.len() == 0 {
        (state, child)
    } else {
        let before = run_all(state, child, events.drop_last());
        run_step(before.0, before.1, events.last())
    }
}

/// What a sequence of events adds to this process's own standard output.
pub open spec fn run_shown(state: RunState, child: ChildView, events: Seq<Event>) -> Seq<char>
    decreases events.len(),
{
    if events.len() == 0 {
        Seq::empty()
    } else {
        let before = run_all(state, child, events.drop_last());
        run_shown(state, child, events.drop_last()) + run_echo(before.0, events.last())
    }
}

/// Where the loop stands, with the pipe that it holds while one is checked out.
#[derive(Debug)]
enum Phase {
    SendPoll(String),
    SendWrite(ChildStdin, String),
    Polling,
    Draining(ChildStdout, Option<ExitStatus>),
    Sleeping,
    Done,
    Aborted,
}

impl View for Phase {
    type V = Stage;

    closed spec fn view(&self) -> Stage {
        match *self {
            Phase::SendPoll(input) => Stage::SendPoll(input@),
            Phase::SendWrite(_, line) => Stage::SendWrite(line@),
            Phase::Polling => Stage::Polling,
            Phase::Draining(_, last) => Stage::Draining(last),
            Phase::Sleeping => Stage::Sleeping,
            Phase::Done => Stage::Done,
            Phase::Aborted => Stage::Aborted,
        }
    }
}

/// The execution loop of one command, as a machine that is driven from outside: it says
/// what is to be done next, and takes in what came of it.
///
/// The loop passes the input, if there is any, and then queries the process's status
/// again and again. While the process runs, it drains the output and pauses. Once the
/// process has exited, it drains the output a last time and records the status. A status
/// query that fails ends the loop with no status.
#[derive(Debug)]
pub struct RunLoop {
    phase: Phase,
    showout: bool,
    exit_code: Option<ExitStatus>,
    saved_output: String,
    failure: Option<IoError>,
}

impl View for RunLoop {
    type V = RunState;

    closed spec fn view(&self) -> RunState {
        RunState {
            stage: self.phase@,
            showout: self.showout,
            exit_code: self.exit_code,
            output: self.saved_output@,
            failure: match self.failure {
                Some(error) => Some(error@),
                None => None,
            },
        }
    }
}

impl RunLoop {
    /// A loop that has not begun.
    pub fn new(opts: RunOpts) -> (machine: RunLoop)
        ensures
            machine@ == run_start(opts.input(), opts.showout),
    {
        let phase = match opts.pw {
            Some(input) => Phase::SendPoll(input),
            None => Phase::Polling,
        };
        RunLoop {
            phase,
            showout: opts.showout,
            exit_code: None,
            saved_output: String::new(),
            failure: None,
        }
    }

    /// What the loop asks of its driver now.
    pub fn pending(&self) -> (action: Action)
        ensures
            action@ == run_action(self@),
    {
        match &self.phase {
            Phase::SendPoll(_) => Action::Poll,
            Phase::SendWrite(_, line) => Action::Write(line.clone()),
            Phase::Polling => Action::Poll,
            Phase::Draining(_, _) => Action::Read,
            Phase::Sleeping => Action::Sleep(POLL_INTERVAL_MS),
            Phase::Done => Action::Done,
            Phase::Aborted => Action::Abort,
        }
    }

    /// Whether the loop has ended, with or without a result.
    pub fn is_finished(&self) -> (finished: bool)
        ensures
            finished == (self@.stage is Done || self@.stage is Aborted),
    {
        match &self.phase {
            Phase::Done => true,
            Phase::Aborted => true,
            _ => false,
        }
    }

    /// Ends the loop and hands out what it found: the terminal status, if one was seen,
    /// and all the output that was drained; or the reason why the input could not be
    /// passed.
    pub fn finish(self) -> (result: IoResult<(Option<ExitStatus>, String)>)
        ensures
            match result {
                Ok((status, output)) => {
                    &&& self@.failure is None
                    &&& status == self@.exit_code
                    &&& output@ == self@.output
                },
                Err(error) => self@.failure == Some(error@),
            },
    {
        match self.failure {
            Some(error) => Err(error),
            None => Ok((self.exit_code, self.saved_output)),
        }
    }

    /// Takes in an event and returns what is to be done next.
    ///
    /// `process` is the handle of the process that the loop runs, and `screen` collects
    /// what is to appear on this process's own standard output.
    pub fn step(&mut self, process: &mut Child, event: Event, screen: &mut String) -> (action: Action)
        ensures
            (final(self)@, final(process)@) == run_step(old(self)@, old(process)@, event),
            final(screen)@ == old(screen)@ + run_echo(old(self)@, event),
            action@ == run_action(final(self)@),
    {
        let mut phase = Phase::Done;
        core::mem::swap(&mut self.phase, &mut phase);
        let ghost shown = run_echo(old(self)@, event);
        match (phase, event) {
            (Phase::SendPoll(input), Event::Polled(observed)) => {
                match send_pw(process, observed, Some(input)) {
                    SendStep::Write { stdin, line } => {
                        self.phase = Phase::SendWrite(stdin, line);
                    },
                    SendStep::Done(Err(error)) => {
                        self.failure = Some(error);
                        self.phase = Phase::Aborted;
                    },
                    SendStep::Done(Ok(_)) => {
                        self.phase = Phase::Polling;
                    },
                }
            },
            (Phase::SendWrite(stdin, _), Event::Written(written)) => {
                match process.finish_send(stdin, written) {
                    Ok(_) => {
                        self.phase = Phase::Polling;
                    },
                    Err(error) => {
                        self.failure = Some(error);
                        self.phase = Phase::Aborted;
                    },
                }
            },
            (Phase::Polling, Event::Polled(observed)) => {
                match process.try_wait(observed) {
                    Poll::Running => match process.take_stdout() {
                        Some(pipe) => {
                            self.phase = Phase::Draining(pipe, None);
                        },
                        None => {
                            self.phase = Phase::Sleeping;
                        },
                    },
                    Poll::Exited(status) => match process.take_stdout() {
                        Some(pipe) => {
                            self.phase = Phase::Draining(pipe, Some(status));
                        },
                        None => {
                            self.exit_code = Some(status);
                            self.phase = Phase::Done;
                        },
                    },
                    Poll::Failed(_) => {
                        self.phase = Phase::Done;
                    },
                }
            },
            (Phase::Draining(pipe, last), Event::Read(read)) => {
                if absorb(&mut self.saved_output, read, self.showout, screen) {
                    self.phase = Phase::Draining(pipe, last);
                } else {
                    process.restore_stdout(pipe);
                    match last {
                        Some(status) => {
                            self.exit_code = Some(status);
                            self.phase = Phase::Done;
                        },
                        None => {
                            self.phase = Phase::Sleeping;
                        },
                    }
                }
            },
            (Phase::Sleeping, Event::Slept) => {
                self.phase = Phase::Polling;
            },
            (other, _) => {
                self.phase = other;
            },
        }
        proof {
            assert(screen@ =~= old(screen)@ + shown);
        }
        self.pending()
    }
}

/// Passes the input, if there is any, to the process: see `Child::send`. With no input
/// there is nothing to do, and the status query's answer is not looked at.
pub fn send_pw(process: &mut Child, observed: Poll, input: Option<String>) -> (step: SendStep)
    ensures
        input is None ==> step == SendStep::Done(Ok(())) && final(process)@ == old(process)@,
        input matches Some(text) ==> match send_refusal(old(process)@, observed) {
            None => {
                &&& step matches SendStep::Write { stdin, line }
                &&& line@ == line_of(text@)
                &&& final(process)@ == (ChildView { stdin: false, ..old(process)@.saw(observed) })
            },
            Some(refusal) => {
                &&& step matches SendStep::Done(Err(error))
                &&& error@ == refusal
                &&& final(process)@ == old(process)@.saw(observed)
            },
        },
{
    match input {
        None => SendStep::Done(Ok(())),
        Some(pass) => process.send(observed, pass),
    }
}

/// Runs a command to its end, given what the operating system did meanwhile: each event
/// is the outcome of what the loop asked for just before.
///
/// Returns the terminal status, if the loop saw the process exit, and all the output
/// that it drained; or the error that kept the input from being passed, which ends the
/// run at once. Events that come after the end of the loop are not looked at.
pub fn run(process: &mut Child, opts: RunOpts, events: Vec<Event>, screen: &mut String) -> (result:
    IoResult<(Option<ExitStatus>, String)>)
    ensures
        ({
            let start = run_start(opts.input(), opts.showout);
            let end = run_all(start, old(process)@, events@);
            &&& final(process)@ == end.1
            &&& final(screen)@ == old(screen)@ + run_shown(start, old(process)@, events@)
            &&& match result {
                Ok((status, output)) => {
                    &&& end.0.failure is None
                    &&& status == end.0.exit_code
                    &&& output@ == end.0.output
                },
                Err(error) => end.0.failure == Some(error@),
            }
        }),
{
    let ghost start = run_start(opts.input(), opts.showout);
    let ghost first = process@;
    let mut machine = RunLoop::new(opts);
    proof {
        assert(events@.take(0) =~= Seq::<Event>::empty());
        assert(screen@ =~= old(screen)@ + run_shown(start, first, events@.take(0)));
    }
    for event in iter: events
        invariant
            iter.seq() == events@,
            (machine@, process@) == run_all(start, first, events@.take(iter.index() as int)),
            screen@ == old(screen)@ + run_shown(start, first, events@.take(iter.index() as int)),
    {
        let ghost i = iter.index() as int;
        let ghost before = screen@;
        proof {
            assert(events@.take(i + 1).drop_last() =~= events@.take(i));
            assert(events@.take(i + 1).last() == events@[i]);
        }
        let _ = machine.step(process, event, screen);
        proof {
            assert(screen@ =~= old(screen)@ + run_shown(start, first, events@.take(i + 1)));
        }
    }
    proof {
        assert(events@.take(events@.len() as int) =~= events@);
    }
    machine.finish()
}

/// Whether each event of the sequence reports the outcome of what the loop asked for just
/// before it.
pub open spec fn follows(state: RunState, child: ChildView, events: Seq<Event>) -> bool
    decreases events.len(),
{
    events.len() == 0 || {
        let before = run_all(state, child, events.drop_last());
        &&& follows(state, child, events.drop_last())
        &&& answers(run_action(before.0), events.last())
    }
}

/// The bytes that one event brought from the process's output.
pub open spec fn event_bytes(event: Event) -> Seq<u8> {
    match event {
        Event::Read(Ok(bytes)) => bytes@,
        _ => Seq::empty(),
    }
}

/// All the bytes that the events brought from the process's output, in order.
pub open spec fn read_bytes(events: Seq<Event>) -> Seq<u8>
    decreases events.len(),
{
    if events.len() == 0 {
        Seq::empty()
    } else {
        read_bytes(events.drop_last()) + event_bytes(events.last())
    }
}

/// The text of all the chunks that the events brought from the process's output, in order.
pub open spec fn read_text(events: Seq<Event>) -> Seq<char>
    decreases events.len(),
{
    if events.len() == 0 {
        Seq::empty()
    } else {
        read_text(events.drop_last()) + chunk_text(event_bytes(events.last()))
    }
}

/// Whether every chunk that the events brought is valid text on its own.
pub open spec fn all_text(events: Seq<Event>) -> bool {
    forall|i: int| 0 <= i < events.len() ==> valid_utf8(#[trigger] event_bytes(events[i]))
}

/// What holds of a loop and the handle of its process `child`, whose pipes were as in
/// `first` when the loop began: a pipe is away from the handle exactly while the loop has
/// it checked out, and the status is set only at the end, to what the handle recorded.
pub open spec fn run_inv(state: RunState, child: ChildView, first: ChildView) -> bool {
    &&& child.stderr == first.stderr
    &&& if state.stage is SendWrite {
        first.stdin && !child.stdin
    } else {
        child.stdin == first.stdin
    }
    &&& if state.stage is Draining {
        first.stdout && !child.stdout
    } else {
        child.stdout == first.stdout
    }
    &&& state.failure is Some <==> state.stage is Aborted
    &&& match state.stage {
        Stage::Draining(Some(status)) => child.status == Some(status) && state.exit_code is None,
        Stage::Done => state.exit_code == child.status,
        _ => state.exit_code is None,
    }
    &&& first.status is Some ==> child.status == first.status
}

/// One event keeps `run_inv`.
pub proof fn lemma_run_step_inv(state: RunState, child: ChildView, first: ChildView, event: Event)
    requires
        run_inv(state, child, first),
    ensures
        run_inv(run_step(state, child, event).0, run_step(state, child, event).1, first),
{
}

/// A loop that starts afresh keeps `run_inv` whatever happens.
pub proof fn lemma_run_inv(pw: Option<Seq<char>>, showout: bool, first: ChildView, events: Seq<Event>)
    ensures
        ({
            let end = run_all(run_start(pw, showout), first, events);
            run_inv(end.0, end.1, first)
        }),
    decreases events.len(),
{
    if events.len() > 0 {
        lemma_run_inv(pw, showout, first, events.drop_last());
        let before = run_all(run_start(pw, showout), first, events.drop_last());
        lemma_run_step_inv(before.0, before.1, first, events.last());
    }
}

/// The output of a loop is the text of every chunk that was read, in the order of the
/// reads, and with `showout` the same text is what was shown.
pub proof fn lemma_run_output(state: RunState, child: ChildView, events: Seq<Event>)
    requires
        follows(state, child, events),
    ensures
        run_all(state, child, events).0.output == state.output + read_text(events),
        run_all(state, child, events).0.showout == state.showout,
        run_shown(state, child, events) == if state.showout {
            read_text(events)
        } else {
            Seq::empty()
        },
    decreases events.len(),
{
    if events.len() == 0 {
        assert(state.output + read_text(events) =~= state.output);
    } else {
        let front = events.drop_last();
        let last = events.last();
        lemma_run_output(state, child, front);
        let before = run_all(state, child, front);
        let end = run_step(before.0, before.1, last);
        match last {
            Event::Read(read) => {
                if ends_drain(read) {
                    if read is Ok {
                        assert(event_bytes(last) =~= Seq::<u8>::empty());
                    }
                    lemma_no_text();
                }
            },
            _ => {
                lemma_no_text();
            },
        }
        assert(end.0.output =~= state.output + read_text(events));
        if state.showout {
            assert(run_shown(state, child, events) =~= read_text(events));
        } else {
            assert(run_shown(state, child, events) =~= Seq::<char>::empty());
        }
    }
}

/// No bytes are no text.
pub proof fn lemma_no_text()
    ensures
        chunk_text(Seq::<u8>::empty()) == Seq::<char>::empty(),
{
    assert(valid_utf8(Seq::<u8>::empty()));
    assert(decode_utf8(Seq::<u8>::empty()) =~= Seq::<char>::empty());
}

/// The encoding of two texts, one after the other, is the two encodings, one after the
/// other.
pub proof fn lemma_encode_concat(a: Seq<char>, b: Seq<char>)
    ensures
        encode_utf8(a + b) == encode_utf8(a) + encode_utf8(b),
    decreases a.len(),
{
    if a.len() == 0 {
        assert(a + b =~= b);
        assert(encode_utf8(a) + encode_utf8(b) =~= encode_utf8(b));
    } else {
        lemma_encode_concat(a.drop_first(), b);
        assert((a + b).drop_first() =~= a.drop_first() + b);
        assert(encode_utf8(a + b) =~= encode_utf8(a) + encode_utf8(b));
    }
}

/// Where every chunk is valid text on its own, the text of the chunks encodes to exactly
/// the bytes that were read, in order.
pub proof fn lemma_text_bytes(events: Seq<Event>)
    requires
        all_text(events),
    ensures
        encode_utf8(read_text(events)) == read_bytes(events),
    decreases events.len(),
{
    if events.len() == 0 {
        assert(encode_utf8(read_text(events)) =~= read_bytes(events));
    } else {
        let front = events.drop_last();
        let last = events.last();
        assert forall|i: int| 0 <= i < front.len() implies valid_utf8(
            #[trigger] event_bytes(front[i]),
        ) by {
            assert(front[i] == events[i]);
        }
        lemma_text_bytes(front);
        assert(valid_utf8(event_bytes(events[events.len() - 1])));
        lemma_encode_concat(read_text(front), chunk_text(event_bytes(last)));
        vstd::utf8::decode_utf8_encode_utf8(event_bytes(last));
    }
}

/// A run that has come to its end returns all that the process wrote.
///
/// Take a loop that starts afresh and a sequence of events of which each reports the
/// outcome of what the loop asked for. Once the loop is done, its output is the text of
/// every chunk that was read, in the order of the reads; where every chunk is valid text
/// on its own, the output encodes to exactly the bytes that were read. Its status is the
/// terminal status that the handle has recorded, and every pipe is back in the handle.
pub proof fn lemma_run_returns_all_output(
    pw: Option<Seq<char>>,
    showout: bool,
    first: ChildView,
    events: Seq<Event>,
)
    requires
        follows(run_start(pw, showout), first, events),
        run_all(run_start(pw, showout), first, events).0.stage is Done,
    ensures
        ({
            let end = run_all(run_start(pw, showout), first, events);
            &&& end.0.failure is None
            &&& end.0.output == read_text(events)
            &&& all_text(events) ==> encode_utf8(end.0.output) == read_bytes(events)
            &&& end.0.exit_code == end.1.status
            &&& end.1.stdin == first.stdin
            &&& end.1.stdout == first.stdout
            &&& end.1.stderr == first.stderr
        }),
{
    let start = run_start(pw, showout);
    lemma_run_inv(pw, showout, first, events);
    lemma_run_output(start, first, events);
    assert(start.output + read_text(events) =~= read_text(events));
    if all_text(events) {
        lemma_text_bytes(events);
    }
}

/// The reads of one drain, as the events that report them.
pub open spec fn as_events(reads: Seq<ReadOutcome>) -> Seq<Event> {
    Seq::new(reads.len(), |i: int| Event::Read(reads[i]))
}

/// Taking a sequence of events is taking the first and then the rest.
pub proof fn lemma_run_all_front(state: RunState, child: ChildView, events: Seq<Event>)
    requires
        events.len() > 0,
    ensures
        run_all(state, child, events) == ({
            let next = run_step(state, child, events[0]);
            run_all(next.0, next.1, events.drop_first())
        }),
    decreases events.len(),
{
    let next = run_step(state, child, events[0]);
    if events.len() == 1 {
        assert(events.drop_last() =~= Seq::<Event>::empty());
        assert(events.drop_first() =~= Seq::<Event>::empty());
        assert(run_all(state, child, events.drop_last()) == (state, child));
    } else {
        lemma_run_all_front(state, child, events.drop_last());
        assert(events.drop_last().drop_first() =~= events.drop_first().drop_last());
        assert(events.drop_last()[0] == events[0]);
        assert(events.drop_first().last() == events.last());
    }
}

/// A loop that is not draining takes no notice of reads.
pub proof fn lemma_reads_ignored(state: RunState, child: ChildView, reads: Seq<ReadOutcome>)
    requires
        !(state.stage is Draining),
    ensures
        run_all(state, child, as_events(reads)) == (state, child),
    decreases reads.len(),
{
    if reads.len() > 0 {
        assert(as_events(reads).drop_last() =~= as_events(reads.drop_last()));
        lemma_reads_ignored(state, child, reads.drop_last());
    }
}

/// One drain within a run collects what `read_from` collects: a loop that is draining,
/// given the outcomes of the reads that follow, adds to its output the text of each chunk
/// up to the first read that ends the drain.
pub proof fn lemma_run_drain(state: RunState, child: ChildView, reads: Seq<ReadOutcome>)
    requires
        state.stage is Draining,
    ensures
        run_all(state, child, as_events(reads)).0.output == state.output + drained(reads),
    decreases reads.len(),
{
    if reads.len() == 0 {
        assert(state.output + drained(reads) =~= state.output);
    } else {
        let events = as_events(reads);
        lemma_run_all_front(state, child, events);
        let next = run_step(state, child, events[0]);
        assert(events.drop_first() =~= as_events(reads.drop_first()));
        if ends_drain(reads[0]) {
            lemma_reads_ignored(next.0, next.1, reads.drop_first());
            assert(state.output + drained(reads) =~= state.output);
        } else {
            lemma_run_drain(next.0, next.1, reads.drop_first());
            assert(next.0.output + drained(reads.drop_first()) =~= state.output + drained(reads));
        }
    }
}

} // verus!
