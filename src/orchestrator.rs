//! The Orchestrator: the linear sequence from launching the first program to
//! reporting the exit code of the process found after it.
use vstd::prelude::*;
use crate::exit::WaitError;
use crate::process::ProcessError;
use crate::window::{ShowMode, ShowRequest, WindowHandle};

verus! {

/// Exit code reported for a failure that carries no code of its own.
pub const FALLBACK_EXIT_CODE: i32 = 1;

/// Which changes of its own window the launcher makes around the run.
#[derive(Debug, Clone, Copy, PartialEq, Eq, Structural)]
pub struct WindowPolicy {
    /// Maximize the launcher's window before launching, and again after the
    /// target process exited.
    pub maximize_own: bool,
    /// Minimize the launcher's window before bringing the target forward.
    pub minimize_own_before_focus: bool,
}

/// What the caller is to do next.
#[derive(Debug, Clone, Copy, PartialEq, Eq)]
pub enum Action {
    /// Change the state of the launcher's own window; failure only warrants
    /// a warning.
    ShowOwn(ShowMode),
    /// Run the first program and wait for it.
    LaunchChild,
    /// Look the target process up, with the Process Locator.
    LocateProcess,
    /// Look the window of this process up, with the Window Locator.
    LocateWindow(u32),
    /// Bring this window to the foreground; failure only warrants a warning.
    Foreground(WindowHandle),
    /// Change the state of the target's window; failure only warrants a
    /// warning.
    Show(ShowRequest),
    /// Block until this process exits.
    WaitExit(u32),
    /// End the run with this exit code.
    Finish(i32),
}

/// What the caller reports back.
#[derive(Debug, Clone, Copy, PartialEq, Eq)]
pub enum Event {
    /// The run begins.
    Start,
    /// The first program ended with this code, or without one.
    ChildExited(Option<i32>),
    /// Result of the Process Locator.
    ProcessLookup(Result<u32, ProcessError>),
    /// Result of the Window Locator.
    WindowLookup(Option<WindowHandle>),
    /// Result of the Exit Waiter.
    TargetExited(Result<i32, WaitError>),
}

/// Where the run stands.
#[derive(Debug, Clone, Copy, PartialEq, Eq, Structural)]
pub enum Stage {
    Idle,
    ChildLaunched,
    ChildExited,
    ProcessLocated(u32),
    WaitingExit(u32),
    Done,
    Failed(i32),
}

#[derive(Debug, Clone, Copy, PartialEq, Eq, Structural)]
pub struct Orchestrator {
    pub policy: WindowPolicy,
    pub stage: Stage,
}

/// `a` preceded by a change of the launcher's own window when `own` holds.
pub open spec fn own_then(own: bool, mode: ShowMode, a: Seq<Action>) -> Seq<Action> {
    if own {
        seq![Action::ShowOwn(mode)] + a
    } else {
        a
    }
}

/// The stage and the single action that end a run with `code`.
pub open spec fn fail_with(o: Orchestrator, code: i32) -> (Orchestrator, Seq<Action>) {
    (Orchestrator { policy: o.policy, stage: Stage::Failed(code) }, seq![Action::Finish(code)])
}

impl Orchestrator {
    /// Whether `event` answers the last action asked for.
    pub open spec fn accepts(self, event: Event) -> bool {
        match self.stage {
            Stage::Idle => event is Start,
            Stage::ChildLaunched => event is ChildExited,
            Stage::ChildExited => event is ProcessLookup,
            Stage::ProcessLocated(_) => event is WindowLookup,
            Stage::WaitingExit(_) => event is TargetExited,
            _ => false,
        }
    }

    pub open spec fn step_spec(self, event: Event) -> (Orchestrator, Seq<Action>) {
        let p = self.policy;
        let to = |stage: Stage| Orchestrator { policy: p, stage };
        match (self.stage, event) {
            (Stage::Idle, Event::Start) =>
                (to(Stage::ChildLaunched), own_then(p.maximize_own, ShowMode::Maximize, seq![Action::LaunchChild])),
            (Stage::ChildLaunched, Event::ChildExited(code)) => match code {
                None => fail_with(self, FALLBACK_EXIT_CODE),
                Some(c) => if c != 0 {
                    fail_with(self, c)
                } else {
                    (to(Stage::ChildExited), seq![Action::LocateProcess])
                },
            },
            (Stage::ChildExited, Event::ProcessLookup(r)) => match r {
                Err(_) => fail_with(self, FALLBACK_EXIT_CODE),
                Ok(pid) => (to(Stage::ProcessLocated(pid)), seq![Action::LocateWindow(pid)]),
            },
            (Stage::ProcessLocated(pid), Event::WindowLookup(w)) => match w {
                None => fail_with(self, FALLBACK_EXIT_CODE),
                Some(h) => (
                    to(Stage::WaitingExit(pid)),
                    own_then(
                        p.minimize_own_before_focus,
                        ShowMode::Minimize,
                        seq![
                            Action::Foreground(h),
                            Action::Show(ShowRequest { window: h, mode: ShowMode::Maximize }),
                            Action::WaitExit(pid),
                        ],
                    ),
                ),
            },
            (Stage::WaitingExit(_), Event::TargetExited(r)) => match r {
                Err(_) => fail_with(self, FALLBACK_EXIT_CODE),
                Ok(c) => (
                    to(if c == 0 { Stage::Done } else { Stage::Failed(c) }),
                    own_then(p.maximize_own, ShowMode::Maximize, seq![Action::Finish(c)]),
                ),
            },
            _ => (self, Seq::empty()),
        }
    }

    pub fn new(policy: WindowPolicy) -> (r: Orchestrator)
        ensures
            r == (Orchestrator { policy, stage: Stage::Idle }),
    {
        Orchestrator { policy, stage: Stage::Idle }
    }

    fn fail(&mut self, code: i32) -> (actions: Vec<Action>)
        ensures
            (*final(self), actions@) == fail_with(*old(self), code),
    {
        self.stage = Stage::Failed(code);
        vec![Action::Finish(code)]
    }

    /// Takes the result of the last action and returns the next actions, to
    /// be carried out in order.
    pub fn step(&mut self, event: Event) -> (actions: Vec<Action>)
        requires
            old(self).accepts(event),
        ensures
            (*final(self), actions@) == old(self).step_spec(event),
    {
        let mut actions: Vec<Action> = Vec::new();
        match (self.stage, event) {
            (Stage::Idle, Event::Start) => {
                if self.policy.maximize_own {
                    actions.push(Action::ShowOwn(ShowMode::Maximize));
                }
                actions.push(Action::LaunchChild);
                self.stage = Stage::ChildLaunched;
            },
            (Stage::ChildLaunched, Event::ChildExited(code)) => match code {
                None => return self.fail(FALLBACK_EXIT_CODE),
                Some(c) => if c != 0 {
                    return self.fail(c);
                } else {
                    actions.push(Action::LocateProcess);
                    self.stage = Stage::ChildExited;
                },
            },
            (Stage::ChildExited, Event::ProcessLookup(r)) => match r {
                Err(_) => return self.fail(FALLBACK_EXIT_CODE),
                Ok(pid) => {
                    actions.push(Action::LocateWindow(pid));
                    self.stage = Stage::ProcessLocated(pid);
                },
            },
            (Stage::ProcessLocated(pid), Event::WindowLookup(w)) => match w {
                None => return self.fail(FALLBACK_EXIT_CODE),
                Some(h) => {
                    if self.policy.minimize_own_before_focus {
                        actions.push(Action::ShowOwn(ShowMode::Minimize));
                    }
                    actions.push(Action::Foreground(h));
                    actions.push(Action::Show(ShowRequest { window: h, mode: ShowMode::Maximize }));
                    actions.push(Action::WaitExit(pid));
                    self.stage = Stage::WaitingExit(pid);
                },
            },
            (Stage::WaitingExit(_), Event::TargetExited(r)) => match r {
                Err(_) => return self.fail(FALLBACK_EXIT_CODE),
                Ok(c) => {
                    if self.policy.maximize_own {
                        actions.push(Action::ShowOwn(ShowMode::Maximize));
                    }
                    actions.push(Action::Finish(c));
                    self.stage = if c == 0 { Stage::Done } else { Stage::Failed(c) };
                },
            },
            _ => {},
        }
        proof {
            let (_, expected) = old(self).step_spec(event);
            assert(actions@ =~= expected);
        }
        actions
    }
}

} // verus!
