//! Decisions of the run loop and of its shutdown sequence.
//!
//! The loop itself (polling, rendering, yielding, racing tasks against a
//! timer) runs outside; it asks these functions what to do next and reports
//! back what happened.

use crate::error::{OxittyError, OxittyResult};
use crate::event::{event_from_input, event_of_input, Event, KeyCode, TerminalInput};
use vstd::prelude::*;
use vstd::string::StringExecFns;

verus! {

/// The key that asks the application to quit.
pub const QUIT_KEY: char = 'q';

/// Whether an event asks the run loop to quit: a `Quit` event, or a key input
/// of the quit key (whatever the modifiers).
pub open spec fn requests_quit(e: Event) -> bool {
    match e {
        Event::Quit => true,
        Event::Key(k) => k.code == KeyCode::Char(QUIT_KEY),
        _ => false,
    }
}

/// Whether `e` asks the run loop to quit.
pub fn is_quit_event(e: &Event) -> (r: bool)
    ensures
        r == requests_quit(*e),
{
    match e {
        Event::Quit => true,
        Event::Key(k) => match k.code {
            KeyCode::Char(c) => c == QUIT_KEY,
            _ => false,
        },
        _ => false,
    }
}

/// What one iteration of the run loop does after its receive attempt.
#[derive(Debug, Clone, Copy, PartialEq, Eq)]
pub enum LoopAction {
    /// Signal quit on the state and leave the loop without rendering.
    Quit,
    /// Render a fresh snapshot, then yield.
    Render,
}

/// The action for one iteration, given what the receive attempt returned.
pub fn next_action(received: &Option<Event>) -> (a: LoopAction)
    ensures
        a == (if received is Some && requests_quit(received->0) {
            LoopAction::Quit
        } else {
            LoopAction::Render
        }),
{
    match received {
        Some(e) => if is_quit_event(e) {
            LoopAction::Quit
        } else {
            LoopAction::Render
        },
        None => LoopAction::Render,
    }
}

/// Whether the terminal can host the interface: standard output is a
/// terminal and `TERM` is set to something other than `dumb`.
pub fn is_usable_terminal(stdout_is_tty: bool, term: Option<&str>) -> (r: bool)
    ensures
        r == (stdout_is_tty && term is Some && term->0@ != "dumb"@),
{
    if !stdout_is_tty {
        return false;
    }
    match term {
        Some(t) => {
            let given = String::from_str(t);
            let dumb = String::from_str("dumb");
            !(given == dumb)
        },
        None => false,
    }
}

/// What the input loop just learned.
#[derive(Debug)]
pub enum InputStep {
    /// The stop signal was read at the top of an iteration: whether the loop
    /// is still running.
    Checked(bool),
    /// Polling for input ended: whether input is ready.
    Polled(OxittyResult<bool>),
    /// One raw input was read.
    Read(OxittyResult<TerminalInput>),
    /// A non-blocking send into the event channel ended.
    Sent(OxittyResult<()>),
}

/// What the input loop does next.
#[derive(Debug)]
pub enum InputAction {
    /// Leave the loop; it is not restarted.
    Stop,
    /// Wait up to the tick rate for input.
    Poll,
    /// Read the ready input.
    Read,
    /// Send this event into the channel without waiting.
    Send(Event),
    /// Report that the channel was full and the event dropped, then yield.
    Dropped(OxittyError),
    /// Yield to other tasks, then check the stop signal again.
    Yield,
    /// Leave the loop with this error.
    Fail(OxittyError),
}

/// The input loop's next action: stop once the stop signal is seen; poll
/// while running; read when input is ready, else yield; send the event that
/// the input becomes, or yield when it becomes none; after a send, yield. A
/// failed poll, a failed read or a closed channel ends the loop with the
/// error; a full channel drops the event and reports it.
pub open spec fn input_action_of(step: InputStep) -> InputAction {
    match step {
        InputStep::Checked(running) => if running {
            InputAction::Poll
        } else {
            InputAction::Stop
        },
        InputStep::Polled(Ok(ready)) => if ready {
            InputAction::Read
        } else {
            InputAction::Yield
        },
        InputStep::Polled(Err(e)) => InputAction::Fail(e),
        InputStep::Read(Ok(input)) => match event_of_input(input) {
            Some(e) => InputAction::Send(e),
            None => InputAction::Yield,
        },
        InputStep::Read(Err(e)) => InputAction::Fail(e),
        InputStep::Sent(Ok(())) => InputAction::Yield,
        InputStep::Sent(Err(e)) => if e is ChannelFull {
            InputAction::Dropped(e)
        } else {
            InputAction::Fail(e)
        },
    }
}

/// Decides the input loop's next action from what it just learned.
pub fn input_action(step: InputStep) -> (a: InputAction)
    ensures
        a == input_action_of(step),
{
    match step {
        InputStep::Checked(running) => if running {
            InputAction::Poll
        } else {
            InputAction::Stop
        },
        InputStep::Polled(Ok(ready)) => if ready {
            InputAction::Read
        } else {
            InputAction::Yield
        },
        InputStep::Polled(Err(e)) => InputAction::Fail(e),
        InputStep::Read(Ok(input)) => match event_from_input(input) {
            Some(e) => InputAction::Send(e),
            None => InputAction::Yield,
        },
        InputStep::Read(Err(e)) => InputAction::Fail(e),
        InputStep::Sent(Ok(())) => InputAction::Yield,
        InputStep::Sent(Err(e)) => match e {
            OxittyError::ChannelFull { .. } => InputAction::Dropped(e),
            _ => InputAction::Fail(e),
        },
    }
}

/// How a background task ended during shutdown.
#[derive(Debug, Clone, Copy, PartialEq, Eq)]
pub enum TaskOutcome {
    /// It finished with success.
    Completed,
    /// It finished with an error, which is logged.
    Failed,
    /// The timeout elapsed first; the wait was abandoned.
    TimedOut,
}

/// The shutdown sequence: each background task, in order, is awaited once
/// for at most `timeout_ms`.
#[derive(Debug, Clone, Copy, PartialEq, Eq)]
pub struct Shutdown {
    pub total: usize,
    pub timeout_ms: u64,
    pub next: usize,
    pub completed: usize,
    pub failed: usize,
    pub abandoned: usize,
}

impl Shutdown {
    /// The counts add up to the tasks already awaited.
    pub open spec fn wf(&self) -> bool {
        &&& self.next <= self.total
        &&& self.completed + self.failed + self.abandoned == self.next
    }

    /// The longest time the tasks awaited so far may have taken.
    pub open spec fn budget_used(&self) -> int {
        self.next * self.timeout_ms
    }

    /// A sequence for `total` tasks, none awaited yet.
    pub fn new(total: usize, timeout_ms: u64) -> (s: Self)
        ensures
            s.wf(),
            s.total == total,
            s.timeout_ms == timeout_ms,
            s.next == 0,
            s.completed == 0 && s.failed == 0 && s.abandoned == 0,
    {
        Shutdown { total, timeout_ms, next: 0, completed: 0, failed: 0, abandoned: 0 }
    }

    /// The index of the task to await next, with the time limit of that wait;
    /// `None` once every task has been awaited.
    pub fn next_wait(&self) -> (w: Option<(usize, u64)>)
        requires
            self.wf(),
        ensures
            w == (if self.next < self.total {
                Some((self.next, self.timeout_ms))
            } else {
                None::<(usize, u64)>
            }),
    {
        if self.next < self.total {
            Some((self.next, self.timeout_ms))
        } else {
            None
        }
    }

    /// The sequence after the task handed out by `next_wait` ended with
    /// `outcome`.
    pub open spec fn recorded(self, outcome: TaskOutcome) -> Shutdown {
        Shutdown {
            next: (self.next + 1) as usize,
            completed: (self.completed + if outcome is Completed { 1usize } else { 0 }) as usize,
            failed: (self.failed + if outcome is Failed { 1usize } else { 0 }) as usize,
            abandoned: (self.abandoned + if outcome is TimedOut { 1usize } else { 0 }) as usize,
            ..self
        }
    }

    /// Records how the task handed out by `next_wait` ended.
    pub fn record(&mut self, outcome: TaskOutcome)
        requires
            old(self).wf(),
            old(self).next < old(self).total,
        ensures
            final(self).wf(),
            *final(self) == old(self).recorded(outcome),
    {
        match outcome {
            TaskOutcome::Completed => self.completed = self.completed + 1,
            TaskOutcome::Failed => self.failed = self.failed + 1,
            TaskOutcome::TimedOut => self.abandoned = self.abandoned + 1,
        }
        self.next = self.next + 1;
    }

    /// Whether every task has been awaited.
    pub fn is_done(&self) -> (r: bool)
        ensures
            r == (self.next == self.total),
    {
        self.next == self.total
    }
}

/// The sequence after recording `outcomes` in order, starting from `s`.
pub open spec fn replayed(s: Shutdown, outcomes: Seq<TaskOutcome>) -> Shutdown
    decreases outcomes.len(),
{
    if outcomes.len() == 0 {
        s
    } else {
        replayed(s, outcomes.drop_last()).recorded(outcomes.last())
    }
}

/// Shutdown takes bounded time: from a fresh sequence over `total` tasks,
/// whatever each task does (finish, fail, or never finish and time out),
/// every one of the first `total` outcomes is recorded after a wait that
/// `next_wait` limits to the timeout, and after `total` of them the sequence is
/// done. The waits handed out add up to at most `total` times the timeout.
pub proof fn lemma_shutdown_bounded(total: usize, timeout_ms: u64, outcomes: Seq<TaskOutcome>)
    requires
        outcomes.len() <= total,
    ensures
        ({
            let start = Shutdown {
                total,
                timeout_ms,
                next: 0,
                completed: 0,
                failed: 0,
                abandoned: 0,
            };
            let s = replayed(start, outcomes);
            &&& s.wf()
            &&& s.total == total
            &&& s.timeout_ms == timeout_ms
            &&& s.next == outcomes.len()
            &&& s.budget_used() == outcomes.len() * timeout_ms
            &&& s.budget_used() <= total * timeout_ms
            &&& (outcomes.len() == total <==> s.next == s.total)
        }),
    decreases outcomes.len(),
{
    let start = Shutdown { total, timeout_ms, next: 0, completed: 0, failed: 0, abandoned: 0 };
    if outcomes.len() > 0 {
        lemma_shutdown_bounded(total, timeout_ms, outcomes.drop_last());
    }
    let s = replayed(start, outcomes);
    assert(s.next * timeout_ms <= total * timeout_ms) by (nonlinear_arith)
        requires
            s.next <= total,
    ;
}

} // verus!
