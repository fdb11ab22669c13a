//! The Exit Waiter: the decisions around opening a process, waiting for it
//! and reading its exit code, with the handle released exactly once.
use vstd::prelude::*;

verus! {

/// Status of a wait that ended because the process terminated.
pub const WAIT_OBJECT_0: u32 = 0;

/// Exit code reported for a process that is still running.
pub const STILL_ACTIVE: u32 = 259;

/// Why waiting for a process's exit failed.
#[derive(Debug, Clone, Copy, PartialEq, Eq, Structural)]
pub enum WaitError {
    /// The process could not be opened: gone already, or access denied.
    OpenFailed,
    /// The wait ended with this status instead of the process's termination.
    WaitFailed(u32),
    /// The wait ended, yet the process is reported as still running.
    StillActive,
    /// The exit code could not be read.
    CodeUnavailable,
}

/// The outcome once the exit code was asked for.
pub open spec fn code_outcome(code: Option<u32>) -> Result<i32, WaitError> {
    match code {
        None => Err(WaitError::CodeUnavailable),
        Some(c) => if c == STILL_ACTIVE {
            Err(WaitError::StillActive)
        } else {
            Ok(c as i32)
        },
    }
}

/// Turns the result of reading the exit code into the waiter's outcome.
pub fn exit_code_outcome(code: Option<u32>) -> (r: Result<i32, WaitError>)
    ensures
        r == code_outcome(code),
{
    match code {
        None => Err(WaitError::CodeUnavailable),
        Some(c) => if c == STILL_ACTIVE {
            Err(WaitError::StillActive)
        } else {
            Ok(c as i32)
        },
    }
}

/// What the caller reports back after carrying out the last action.
#[derive(Debug, Clone, Copy, PartialEq, Eq, Structural)]
pub enum ExitEvent {
    /// The process was opened (`true`) or could not be (`false`).
    Opened(bool),
    /// The wait returned with this status.
    Waited(u32),
    /// The exit code was read (`Some`) or could not be (`None`).
    CodeRead(Option<u32>),
    /// The process handle was released.
    Released,
}

/// What the caller is to do next.
#[derive(Debug, Clone, Copy, PartialEq, Eq)]
pub enum ExitAction {
    /// Block until the process terminates.
    Wait,
    /// Read the process's exit code.
    ReadCode,
    /// Release the process handle.
    Release,
    /// Return this outcome.
    Finish(Result<i32, WaitError>),
}

/// Where the waiter stands.
#[derive(Debug, Clone, Copy, PartialEq, Eq)]
pub enum ExitPhase {
    Opening,
    Waiting,
    Reading,
    Releasing(Result<i32, WaitError>),
    Done(Result<i32, WaitError>),
}

/// The Exit Waiter's decisions. The caller first opens the process, then
/// reports each result with `step` and carries out the action it returns,
/// until `Finish`.
#[derive(Debug, Clone, Copy, PartialEq, Eq)]
pub struct ExitWait {
    pub phase: ExitPhase,
}

impl ExitWait {
    pub open spec fn wf(self) -> bool {
        match self.phase {
            ExitPhase::Releasing(r) => r != Err::<i32, WaitError>(WaitError::OpenFailed),
            _ => true,
        }
    }

    /// Whether `event` answers the action last asked for.
    pub open spec fn accepts(self, event: ExitEvent) -> bool {
        match self.phase {
            ExitPhase::Opening => event is Opened,
            ExitPhase::Waiting => event is Waited,
            ExitPhase::Reading => event is CodeRead,
            ExitPhase::Releasing(_) => event is Released,
            ExitPhase::Done(_) => false,
        }
    }

    pub open spec fn step_spec(self, event: ExitEvent) -> (ExitWait, ExitAction) {
        match (self.phase, event) {
            (ExitPhase::Opening, ExitEvent::Opened(true)) => (ExitWait { phase: ExitPhase::Waiting }, ExitAction::Wait),
            (ExitPhase::Opening, ExitEvent::Opened(false)) => {
                let r = Err(WaitError::OpenFailed);
                (ExitWait { phase: ExitPhase::Done(r) }, ExitAction::Finish(r))
            },
            (ExitPhase::Waiting, ExitEvent::Waited(status)) => if status == WAIT_OBJECT_0 {
                (ExitWait { phase: ExitPhase::Reading }, ExitAction::ReadCode)
            } else {
                (ExitWait { phase: ExitPhase::Releasing(Err(WaitError::WaitFailed(status))) }, ExitAction::Release)
            },
            (ExitPhase::Reading, ExitEvent::CodeRead(code)) =>
                (ExitWait { phase: ExitPhase::Releasing(code_outcome(code)) }, ExitAction::Release),
            (ExitPhase::Releasing(r), ExitEvent::Released) => (ExitWait { phase: ExitPhase::Done(r) }, ExitAction::Finish(r)),
            _ => (self, ExitAction::Finish(Err(WaitError::OpenFailed))),
        }
    }

    /// A waiter for a process that is about to be opened.
    pub fn new() -> (r: ExitWait)
        ensures
            r.phase == ExitPhase::Opening,
    {
        ExitWait { phase: ExitPhase::Opening }
    }

    /// Takes the result of the last action and returns the next one.
    pub fn step(&mut self, event: ExitEvent) -> (action: ExitAction)
        requires
            old(self).wf(),
            old(self).accepts(event),
        ensures
            (*final(self), action) == old(self).step_spec(event),
            final(self).wf(),
    {
        match (self.phase, event) {
            (ExitPhase::Opening, ExitEvent::Opened(true)) => {
                self.phase = ExitPhase::Waiting;
                ExitAction::Wait
            },
            (ExitPhase::Opening, ExitEvent::Opened(false)) => {
                let r = Err(WaitError::OpenFailed);
                self.phase = ExitPhase::Done(r);
                ExitAction::Finish(r)
            },
            (ExitPhase::Waiting, ExitEvent::Waited(status)) => if status == WAIT_OBJECT_0 {
                self.phase = ExitPhase::Reading;
                ExitAction::ReadCode
            } else {
                self.phase = ExitPhase::Releasing(Err(WaitError::WaitFailed(status)));
                ExitAction::Release
            },
            (ExitPhase::Reading, ExitEvent::CodeRead(code)) => {
                self.phase = ExitPhase::Releasing(exit_code_outcome(code));
                ExitAction::Release
            },
            (ExitPhase::Releasing(r), ExitEvent::Released) => {
                self.phase = ExitPhase::Done(r);
                ExitAction::Finish(r)
            },
            _ => ExitAction::Finish(Err(WaitError::OpenFailed)),
        }
    }
}

/// A waiter in state `s` fed `events` in turn: how many releases it asks
/// for, and the outcome it finishes with (`None` if it does not finish on
/// these events).
pub open spec fn exit_run(s: ExitWait, events: Seq<ExitEvent>) -> (nat, Option<Result<i32, WaitError>>)
    decreases events.len(),
{
    if events.len() == 0 || !s.accepts(events[0]) {
        (0, None)
    } else {
        let (next, action) = s.step_spec(events[0]);
        match action {
            ExitAction::Finish(r) => (0, Some(r)),
            ExitAction::Release => {
                let (n, o) = exit_run(next, events.drop_first());
                (n + 1, o)
            },
            _ => exit_run(next, events.drop_first()),
        }
    }
}

/// Releases still owed from a phase, on a run that finished with `outcome`.
pub open spec fn releases_owed(phase: ExitPhase, outcome: Result<i32, WaitError>) -> nat {
    match phase {
        ExitPhase::Opening => if outcome == Err::<i32, WaitError>(WaitError::OpenFailed) { 0 } else { 1 },
        ExitPhase::Waiting => 1,
        ExitPhase::Reading => 1,
        _ => 0,
    }
}

proof fn lemma_releases_owed(s: ExitWait, events: Seq<ExitEvent>)
    requires
        s.wf(),
    ensures
        exit_run(s, events).1 matches Some(r) ==> {
            &&& exit_run(s, events).0 == releases_owed(s.phase, r)
            &&& !(s.phase is Opening) && !(s.phase is Done) ==> r != Err::<i32, WaitError>(WaitError::OpenFailed)
        },
    decreases events.len(),
{
    if events.len() > 0 && s.accepts(events[0]) {
        let next = s.step_spec(events[0]).0;
        lemma_releases_owed(next, events.drop_first());
    }
}

/// Once the process was opened, the waiter asks for exactly one release of
/// its handle on every path to its outcome; when opening failed there is no
/// handle and it asks for none.
pub proof fn lemma_released_exactly_once(events: Seq<ExitEvent>)
    requires
        exit_run(ExitWait { phase: ExitPhase::Opening }, events).1 is Some,
    ensures
        exit_run(ExitWait { phase: ExitPhase::Opening }, events).0 == if events[0] == ExitEvent::Opened(true) { 1nat } else { 0nat },
{
    let s = ExitWait { phase: ExitPhase::Opening };
    lemma_releases_owed(s, events);
    if events[0] == ExitEvent::Opened(true) {
        lemma_releases_owed(s.step_spec(events[0]).0, events.drop_first());
    }
}

/// A process that has already terminated with code `c` gives `c`: the wait
/// returns at once, the code is read and the handle released.
pub proof fn lemma_terminated_gives_code(c: u32)
    requires
        c != STILL_ACTIVE,
    ensures
        exit_run(
            ExitWait { phase: ExitPhase::Opening },
            seq![ExitEvent::Opened(true), ExitEvent::Waited(WAIT_OBJECT_0), ExitEvent::CodeRead(Some(c)), ExitEvent::Released],
        ) == (1nat, Some(Ok::<i32, WaitError>(c as i32))),
{
    let events = seq![ExitEvent::Opened(true), ExitEvent::Waited(WAIT_OBJECT_0), ExitEvent::CodeRead(Some(c)), ExitEvent::Released];
    let e1 = events.drop_first();
    let e2 = e1.drop_first();
    let e3 = e2.drop_first();
    let e4 = e3.drop_first();
    assert(e4.len() == 0);
    assert(exit_run(ExitWait { phase: ExitPhase::Releasing(Ok(c as i32)) }, e3) == (0nat, Some(Ok::<i32, WaitError>(c as i32))));
    assert(exit_run(ExitWait { phase: ExitPhase::Reading }, e2) == (1nat, Some(Ok::<i32, WaitError>(c as i32))));
    assert(exit_run(ExitWait { phase: ExitPhase::Waiting }, e1) == (1nat, Some(Ok::<i32, WaitError>(c as i32))));
}

} // verus!
