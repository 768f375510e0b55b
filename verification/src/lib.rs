//! Running external commands: the decisions of the execution engine, kept apart from the
//! operating system calls that carry them out.
//!
//! The engine never touches a process itself. Each of its loops is a machine that says
//! what is to be done next (an `Action`) and takes in what came of it (an `Event`). A
//! driver performs the actions on a real process; `run` and `CommandResult::wait` do the
//! same on a record of events.
use vstd::prelude::*;
use crate::commander::child_ext::{
    line_of, send_refusal, Child, ChildStdin, ChildStdout, ChildView, ExitStatus, Poll, SendStep,
};
use crate::commander::common::{
    run_action, run_echo, run_start, run_step, Action, ActionView, Event, RunLoop, RunOpts, RunState,
};
use crate::commander::errors::{CommandError, IoResult};

pub mod commander;

verus! {

/// Something that can execute a command, at once or in the background.
pub trait Executor {
    type ExecResult;

    fn run(&mut self, opts: RunOpts) -> Result<Self::ExecResult, CommandError>;
}

/// What a run produced: the terminal status if one was seen, all the output that was
/// captured, and the handle of the process for later inspection.
#[derive(Debug)]
pub struct CommandResult {
    pub status: Option<ExitStatus>,
    pub output: String,
    pub child: Option<Child>,
}

/// A `CommandResult` with its output as a sequence of characters and its handle as what
/// the engine knows of it.
pub struct ResultView {
    pub status: Option<ExitStatus>,
    pub output: Seq<char>,
    pub child: Option<ChildView>,
}

impl View for CommandResult {
    type V = ResultView;

    open spec fn view(&self) -> ResultView {
        ResultView {
            status: self.status,
            output: self.output@,
            child: match self.child {
                Some(child) => Some(child@),
                None => None,
            },
        }
    }
}

/// A process that runs under a shared scheduler: its output pipe, handed out for a
/// reader that follows the output line by line, and its handle, whose end is to be
/// awaited apart from the reading.
#[derive(Debug)]
pub struct AsyncResult {
    pub status: Option<ExitStatus>,
    pub output: ChildStdout,
    pub child: Option<Child>,
}

/// How long a wait pauses between two status queries, in milliseconds.
pub const WAIT_INTERVAL_MS: u64 = 200;

/// Where a wait stands.
pub enum WaitStage {
    /// The time is being asked for.
    Clocking,
    /// The handle is checked out of the result and a status query is under way.
    Polling(ChildView),
    /// A pause is under way.
    Sleeping,
    /// The wait has ended.
    Done,
}

/// The state of a wait.
pub struct WaitState {
    pub stage: WaitStage,
    /// The longest that the wait may last, in milliseconds.
    pub timeout: u64,
    /// The terminal status that the wait found.
    pub found: Option<ExitStatus>,
}

/// The terminal status that a result has on record: its own, or else the one that the
/// handle of its process has recorded.
pub open spec fn recorded_status(result: ResultView) -> Option<ExitStatus> {
    match result.status {
        Some(status) => Some(status),
        None => match result.child {
            Some(child) => child.status,
            None => None,
        },
    }
}

/// The state in which a wait on `result` starts, and the result then. A terminal status
/// that is on record ends the wait before it begins.
pub open spec fn wait_start(result: ResultView, timeout: u64) -> (WaitState, ResultView) {
    match recorded_status(result) {
        Some(status) => (
            WaitState { stage: WaitStage::Done, timeout, found: Some(status) },
            ResultView { status: Some(status), ..result },
        ),
        None => (WaitState { stage: WaitStage::Clocking, timeout, found: None }, result),
    }
}

/// What a wait in the given state asks of its driver.
pub open spec fn wait_action(state: WaitState) -> ActionView {
    match state.stage {
        WaitStage::Clocking => ActionView::Clock,
        WaitStage::Polling(_) => ActionView::Poll,
        WaitStage::Sleeping => ActionView::Sleep(WAIT_INTERVAL_MS),
        WaitStage::Done => ActionView::Done,
    }
}

/// The wait and the result after one event. An event that does not report the outcome of
/// what the wait asked for changes nothing.
pub open spec fn wait_step(state: WaitState, result: ResultView, event: Event) -> (
    WaitState,
    ResultView,
) {
    match (state.stage, event) {
        (WaitStage::Clocking, Event::Clock(elapsed)) => if elapsed < state.timeout {
            match result.child {
                Some(child) => (
                    WaitState { stage: WaitStage::Polling(child), ..state },
                    ResultView { child: None, ..result },
                ),
                None => (WaitState { stage: WaitStage::Sleeping, ..state }, result),
            }
        } else {
            (WaitState { stage: WaitStage::Done, ..state }, result)
        },
        (WaitStage::Polling(child), Event::Polled(observed)) => match child.observe(observed) {
            Poll::Exited(status) => (
                WaitState { stage: WaitStage::Done, found: Some(status), ..state },
                ResultView { status: Some(status), child: Some(child.saw(observed)), ..result },
            ),
            Poll::Failed(_) => (
                WaitState { stage: WaitStage::Done, ..state },
                ResultView { child: Some(child.saw(observed)), ..result },
            ),
            Poll::Running => (
                WaitState { stage: WaitStage::Sleeping, ..state },
                ResultView { child: Some(child.saw(observed)), ..result },
            ),
        },
        (WaitStage::Sleeping, Event::Slept) => (
            WaitState { stage: WaitStage::Clocking, ..state },
            result,
        ),
        _ => (state, result),
    }
}

/// The wait and the result after a sequence of events, taken in order.
pub open spec fn wait_all(state: WaitState, result: ResultView, events: Seq<Event>) -> (
    WaitState,
    ResultView,
)
    decreases events.len(),
{
    if events.len() == 0 {
        (state, result)
    } else {
        let before = wait_all(state, result, events.drop_last());
        wait_step(before.0, before.1, events.last())
    }
}

/// Where the wait stands, with the handle that it holds while a status query is under
/// way.
#[derive(Debug)]
enum WaitPhase {
    Clocking,
    Polling(Child),
    Sleeping,
    Done,
}

impl View for WaitPhase {
    type V = WaitStage;

    closed spec fn view(&self) -> WaitStage {
        match *self {
            WaitPhase::Clocking => WaitStage::Clocking,
            WaitPhase::Polling(child) => WaitStage::Polling(child@),
            WaitPhase::Sleeping => WaitStage::Sleeping,
            WaitPhase::Done => WaitStage::Done,
        }
    }
}

/// A wait for the end of a process, as a machine that is driven from outside.
///
/// The wait asks for the time and, while the timeout has not passed, checks the handle
/// out of the result, queries the process's status, restores the handle and pauses. It
/// ends when the process is seen to have exited, when a query fails, or when the timeout
/// has passed. Nothing is ever done to the process itself.
#[derive(Debug)]
pub struct Waiter {
    phase: WaitPhase,
    timeout: u64,
    found: Option<ExitStatus>,
}

impl View for Waiter {
    type V = WaitState;

    closed spec fn view(&self) -> WaitState {
        WaitState { stage: self.phase@, timeout: self.timeout, found: self.found }
    }
}

impl Waiter {
    /// A wait on `result` that may last `timeout` milliseconds.
    pub fn new(result: &mut CommandResult, timeout: u64) -> (waiter: Waiter)
        ensures
            (waiter@, final(result)@) == wait_start(old(result)@, timeout),
    {
        let recorded = match result.status {
            Some(status) => Some(status),
            None => match &result.child {
                Some(child) => child.exit_status(),
                None => None,
            },
        };
        match recorded {
            Some(status) => {
                result.status = Some(status);
                Waiter { phase: WaitPhase::Done, timeout, found: Some(status) }
            },
            None => Waiter { phase: WaitPhase::Clocking, timeout, found: None },
        }
    }

    /// What the wait asks of its driver now.
    pub fn pending(&self) -> (action: Action)
        ensures
            action@ == wait_action(self@),
    {
        match &self.phase {
            WaitPhase::Clocking => Action::Clock,
            WaitPhase::Polling(_) => Action::Poll,
            WaitPhase::Sleeping => Action::Sleep(WAIT_INTERVAL_MS),
            WaitPhase::Done => Action::Done,
        }
    }

    /// The terminal status that the wait has found.
    pub fn found(&self) -> (status: Option<ExitStatus>)
        ensures
            status == self@.found,
    {
        self.found
    }

    /// Takes in an event and returns what is to be done next.
    pub fn step(&mut self, result: &mut CommandResult, event: Event) -> (action: Action)
        ensures
            (final(self)@, final(result)@) == wait_step(old(self)@, old(result)@, event),
            action@ == wait_action(final(self)@),
    {
        let mut phase = WaitPhase::Done;
        core::mem::swap(&mut self.phase, &mut phase);
        match (phase, event) {
            (WaitPhase::Clocking, Event::Clock(elapsed)) => {
                if elapsed < self.timeout {
                    match result.child.take() {
                        Some(child) => {
                            self.phase = WaitPhase::Polling(child);
                        },
                        None => {
                            self.phase = WaitPhase::Sleeping;
                        },
                    }
                } else {
                    self.phase = WaitPhase::Done;
                }
            },
            (WaitPhase::Polling(child), Event::Polled(observed)) => {
                let mut child = child;
                match child.try_wait(observed) {
                    Poll::Exited(status) => {
                        result.status = Some(status);
                        self.found = Some(status);
                        self.phase = WaitPhase::Done;
                    },
                    Poll::Failed(_) => {
                        self.phase = WaitPhase::Done;
                    },
                    Poll::Running => {
                        self.phase = WaitPhase::Sleeping;
                    },
                }
                result.child = Some(child);
            },
            (WaitPhase::Sleeping, Event::Slept) => {
                self.phase = WaitPhase::Clocking;
            },
            (other, _) => {
                self.phase = other;
            },
        }
        self.pending()
    }
}

impl CommandResult {
    /// Begins to send `content` to the process of `subproc`: see `Child::send`. The
    /// handle is checked out for the decision and restored whatever is decided. With no
    /// process there is nothing to send to, and nothing to do.
    pub fn send(subproc: &mut Option<Child>, observed: Poll, content: String) -> (step: SendStep)
        ensures
            match *old(subproc) {
                None => step == SendStep::Done(Ok(())) && *final(subproc) is None,
                Some(before) => {
                    &&& *final(subproc) matches Some(after)
                    &&& match send_refusal(before@, observed) {
                        None => {
                            &&& step matches SendStep::Write { stdin, line }
                            &&& line@ == line_of(content@)
                            &&& after@ == (ChildView { stdin: false, ..before@.saw(observed) })
                        },
                        Some(refusal) => {
                            &&& step matches SendStep::Done(Err(error))
                            &&& error@ == refusal
                            &&& after@ == before@.saw(observed)
                        },
                    }
                },
            },
    {
        match subproc.take() {
            Some(child) => {
                let mut child = child;
                let step = child.send(observed, content);
                *subproc = Some(child);
                step
            },
            None => SendStep::Done(Ok(())),
        }
    }

    /// Ends a send that `send` began: restores the input pipe to the process of `subproc`
    /// and passes on the outcome of the write.
    pub fn finish_send(subproc: &mut Option<Child>, stdin: ChildStdin, written: IoResult<()>) -> (result:
        IoResult<()>)
        ensures
            result == written,
            match *old(subproc) {
                None => *final(subproc) is None,
                Some(before) => {
                    &&& *final(subproc) matches Some(after)
                    &&& after@ == (ChildView { stdin: true, ..before@ })
                },
            },
    {
        match subproc.take() {
            Some(child) => {
                let mut child = child;
                let result = child.finish_send(stdin, written);
                *subproc = Some(child);
                result
            },
            None => written,
        }
    }

    /// Waits for the process to end, for at most `timeout` milliseconds, given what the
    /// operating system did meanwhile: each event is the outcome of what the wait asked
    /// for just before.
    ///
    /// Returns the terminal status, or nothing when the timeout passed first or a status
    /// query failed. A status that is on record is returned at once.
    pub fn wait(&mut self, timeout: u64, events: Vec<Event>) -> (status: Option<ExitStatus>)
        ensures
            ({
                let start = wait_start(old(self)@, timeout);
                let end = wait_all(start.0, start.1, events@);
                &&& status == end.0.found
                &&& final(self)@ == end.1
            }),
            recorded_status(old(self)@) is Some ==> status == recorded_status(old(self)@),
    {
        let ghost start = wait_start(self@, timeout);
        let mut waiter = Waiter::new(self, timeout);
        proof {
            assert(events@.take(0) =~= Seq::<Event>::empty());
            if recorded_status(old(self)@) is Some {
                lemma_wait_recorded(old(self)@, timeout, events@);
            }
        }
        for event in iter: events
            invariant
                iter.seq() == events@,
                (waiter@, self@) == wait_all(start.0, start.1, events@.take(iter.index() as int)),
        {
            let ghost i = iter.index() as int;
            proof {
                assert(events@.take(i + 1).drop_last() =~= events@.take(i));
                assert(events@.take(i + 1).last() == events@[i]);
            }
            let _ = waiter.step(self, event);
        }
        proof {
            assert(events@.take(events@.len() as int) =~= events@);
        }
        waiter.found()
    }
}

/// A wait on a result whose terminal status is on record returns that status at once:
/// whatever the timeout and whatever happens, the wait is over before it has begun, and
/// the result keeps its handle and its output.
pub proof fn lemma_wait_recorded(result: ResultView, timeout: u64, events: Seq<Event>)
    requires
        recorded_status(result) is Some,
    ensures
        ({
            let start = wait_start(result, timeout);
            let end = wait_all(start.0, start.1, events);
            &&& start.0.stage is Done
            &&& end.0.stage is Done
            &&& end.0.found == recorded_status(result)
            &&& end.1 == (ResultView { status: recorded_status(result), ..result })
        }),
    decreases events.len(),
{
    if events.len() > 0 {
        lemma_wait_recorded(result, timeout, events.drop_last());
    }
}

/// The handle of the process of a wait: the one that the wait has checked out, or else
/// the one that the result holds.
pub open spec fn wait_handle(state: WaitState, result: ResultView) -> Option<ChildView> {
    match state.stage {
        WaitStage::Polling(child) => Some(child),
        _ => result.child,
    }
}

/// What a wait never does, whatever happens: it leaves the output alone, it keeps the
/// handle, away from the result only while a status query is under way, with the pipes
/// that it had; and it neither drops nor replaces a status that the result holds. Once
/// the result holds a status, the wait has ended and has found that status.
pub proof fn lemma_wait_keeps_result(result: ResultView, timeout: u64, events: Seq<Event>)
    ensures
        ({
            let start = wait_start(result, timeout);
            let end = wait_all(start.0, start.1, events);
            &&& end.1.output == result.output
            &&& end.0.stage is Polling ==> end.1.child is None
            &&& match (result.child, wait_handle(end.0, end.1)) {
                (Some(before), Some(after)) => {
                    &&& after.stdin == before.stdin
                    &&& after.stdout == before.stdout
                    &&& after.stderr == before.stderr
                    &&& before.status is Some ==> after.status == before.status
                },
                (None, None) => true,
                _ => false,
            }
            &&& result.status is Some ==> end.1.status == result.status
            &&& end.1.status is Some ==> end.0.stage is Done && end.0.found == end.1.status
        }),
    decreases events.len(),
{
    if events.len() > 0 {
        lemma_wait_keeps_result(result, timeout, events.drop_last());
    }
}

/// Whether every status query among the events found the process running.
pub open spec fn still_running(events: Seq<Event>) -> bool {
    forall|i: int|
        0 <= i < events.len() ==> (#[trigger] events[i] matches Event::Polled(observed)
            ==> observed is Running)
}

/// Whether the events let a wait of `timeout` milliseconds go on until the process has
/// exited: no status query fails, and the time told stays under the timeout.
pub open spec fn in_time(events: Seq<Event>, timeout: u64) -> bool {
    forall|i: int|
        0 <= i < events.len() ==> match #[trigger] events[i] {
            Event::Polled(observed) => !(observed is Failed),
            Event::Clock(elapsed) => elapsed < timeout,
            _ => true,
        }
}

/// A wait on a process that is still running finds no status and affects nothing: as
/// long as every status query finds the process running, the wait has found nothing,
/// and whenever no query is under way the result is as it was before the wait.
pub proof fn lemma_wait_running(result: ResultView, timeout: u64, events: Seq<Event>)
    requires
        recorded_status(result) is None,
        still_running(events),
    ensures
        ({
            let start = wait_start(result, timeout);
            let end = wait_all(start.0, start.1, events);
            &&& end.0.found is None
            &&& match end.0.stage {
                WaitStage::Polling(child) => {
                    &&& result.child == Some(child)
                    &&& end.1 == (ResultView { child: None, ..result })
                },
                _ => end.1 == result,
            }
        }),
    decreases events.len(),
{
    if events.len() > 0 {
        let front = events.drop_last();
        assert forall|i: int| 0 <= i < front.len() implies (#[trigger] front[i] matches Event::Polled(
            observed,
        ) ==> observed is Running) by {
            assert(front[i] == events[i]);
        }
        lemma_wait_running(result, timeout, front);
        assert(events.last() == events[events.len() - 1]);
    }
}

/// A wait that is given time enough reaches the terminal status of the process: where no
/// status query fails and the timeout never passes, a wait that has ended has found a
/// status, which is the one that the handle has recorded and the one that the result holds
/// from then on.
pub proof fn lemma_wait_reaches_status(result: ResultView, timeout: u64, events: Seq<Event>)
    requires
        recorded_status(result) is None,
        result.child is Some,
        in_time(events, timeout),
    ensures
        ({
            let start = wait_start(result, timeout);
            let end = wait_all(start.0, start.1, events);
            &&& end.0.timeout == timeout
            &&& end.0.found == end.1.status
            &&& end.0.stage is Polling <==> end.1.child is None
            &&& end.0.stage is Done ==> {
                &&& end.0.found is Some
                &&& end.1.child matches Some(child)
                &&& child.status == end.0.found
            }
        }),
    decreases events.len(),
{
    if events.len() > 0 {
        let front = events.drop_last();
        assert forall|i: int| 0 <= i < front.len() implies match #[trigger] front[i] {
            Event::Polled(observed) => !(observed is Failed),
            Event::Clock(elapsed) => elapsed < timeout,
            _ => true,
        } by {
            assert(front[i] == events[i]);
        }
        lemma_wait_reaches_status(result, timeout, front);
        assert(events.last() == events[events.len() - 1]);
    }
}

/// A wait that gave up does not keep a later one from reaching the terminal status.
///
/// Take a process that is running and a first wait during which every status query finds
/// it so. When that wait has ended, it has found nothing and the result is as it was. A
/// second wait that is given time enough and has ended has found the status that the
/// handle has recorded.
pub proof fn lemma_wait_again(
    result: ResultView,
    short: u64,
    first: Seq<Event>,
    long: u64,
    second: Seq<Event>,
)
    requires
        recorded_status(result) is None,
        result.child is Some,
        still_running(first),
        in_time(second, long),
        ({
            let start = wait_start(result, short);
            wait_all(start.0, start.1, first).0.stage is Done
        }),
        ({
            let start = wait_start(result, long);
            wait_all(start.0, start.1, second).0.stage is Done
        }),
    ensures
        ({
            let start = wait_start(result, short);
            let end = wait_all(start.0, start.1, first);
            let again = wait_start(end.1, long);
            let last = wait_all(again.0, again.1, second);
            &&& end.0.found is None
            &&& end.1 == result
            &&& last.0.found is Some
            &&& last.1.status == last.0.found
            &&& last.1.child matches Some(child)
            &&& child.status == last.0.found
        }),
{
    lemma_wait_running(result, short, first);
    lemma_wait_reaches_status(result, long, second);
}

/// The background run of one command: the handle of its process, moved here for as long
/// as the run lasts, and its execution loop.
#[derive(Debug)]
pub struct Worker {
    process: Child,
    machine: RunLoop,
}

impl Worker {
    /// The handle of the process that the worker runs.
    pub closed spec fn process(&self) -> ChildView {
        self.process@
    }

    /// The state of the worker's execution loop.
    pub closed spec fn state(&self) -> RunState {
        self.machine@
    }

    /// What the worker asks of its driver now.
    pub fn pending(&self) -> (action: Action)
        ensures
            action@ == run_action(self.state()),
    {
        self.machine.pending()
    }

    /// Whether the worker's loop has ended, with or without a result.
    pub fn is_finished(&self) -> (finished: bool)
        ensures
            finished == (self.state().stage is Done || self.state().stage is Aborted),
    {
        self.machine.is_finished()
    }

    /// Takes in an event and returns what is to be done next: see `RunLoop::step`.
    pub fn step(&mut self, event: Event, screen: &mut String) -> (action: Action)
        ensures
            (final(self).state(), final(self).process()) == run_step(old(self).state(), old(self).process(), event),
            final(screen)@ == old(screen)@ + run_echo(old(self).state(), event),
            action@ == run_action(final(self).state()),
    {
        self.machine.step(&mut self.process, event, screen)
    }

    /// Joins the worker: hands out the result of its run, with the handle of the process.
    /// A worker whose run was given up yields the opaque command error, which keeps no
    /// cause.
    pub fn join(self) -> (joined: Result<CommandResult, CommandError>)
        ensures
            match joined {
                Ok(result) => {
                    &&& self.state().failure is None
                    &&& result@ == (ResultView {
                        status: self.state().exit_code,
                        output: self.state().output,
                        child: Some(self.process()),
                    })
                },
                Err(_) => self.state().failure is Some,
            },
    {
        match self.machine.finish() {
            Ok((status, output)) => Ok(CommandResult { status, output, child: Some(self.process) }),
            Err(_) => Err(CommandError::new()),
        }
    }
}

/// Sets up the background run of a command that was just spawned. A spawn that failed is
/// passed on at once as its error; nothing is tried again.
pub fn run_thread(spawned: IoResult<Child>, opts: RunOpts) -> (started: IoResult<Worker>)
    ensures
        match spawned {
            Ok(process) => {
                &&& started matches Ok(worker)
                &&& worker.process() == process@
                &&& worker.state() == run_start(opts.input(), opts.showout)
            },
            Err(error) => started matches Err(same) && same == error,
        },
{
    match spawned {
        Ok(process) => Ok(Worker { process, machine: RunLoop::new(opts) }),
        Err(error) => Err(error),
    }
}

/// Sets up a command that was just spawned to run under a shared scheduler: checks the
/// output pipe out of the handle for good and hands it out beside the handle. A spawn
/// that failed, or a process without an output pipe, yields the opaque command error.
pub fn run_async(spawned: IoResult<Child>, opts: RunOpts) -> (started: Result<AsyncResult, CommandError>)
    ensures
        match spawned {
            Ok(process) if process@.stdout => {
                &&& started matches Ok(result)
                &&& result.status is None
                &&& result.child matches Some(child)
                &&& child@ == (ChildView { stdout: false, ..process@ })
            },
            _ => started is Err,
        },
{
    match spawned {
        Ok(process) => {
            let mut child = process;
            match child.take_stdout() {
                Some(output) => Ok(AsyncResult { status: None, output, child: Some(child) }),
                None => Err(CommandError::new()),
            }
        },
        Err(_) => Err(CommandError::new()),
    }
}

} // verus!
