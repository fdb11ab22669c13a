use launcher::config::Config;
use launcher::exit::{exit_code_outcome, ExitAction, ExitEvent, ExitWait, WaitError, STILL_ACTIVE, WAIT_OBJECT_0};
use launcher::orchestrator::{Action, Event, Orchestrator, Stage, WindowPolicy, FALLBACK_EXIT_CODE};
use launcher::process::ProcessError;
use launcher::window::{ShowMode, ShowRequest, WindowHandle};
use std::path::PathBuf;

/// A stand-in for the operating system: a process that terminates with
/// `code` once a simulated clock reaches `delay_ms`, and counters of opened
/// and released handles.
struct FakeProcess {
    exists: bool,
    delay_ms: u64,
    clock_ms: u64,
    wait_status: u32,
    code: Option<u32>,
    opened: u32,
    released: u32,
}

impl FakeProcess {
    fn new(code: u32, delay_ms: u64) -> FakeProcess {
        FakeProcess { exists: true, delay_ms, clock_ms: 0, wait_status: WAIT_OBJECT_0, code: Some(code), opened: 0, released: 0 }
    }

    /// Drives the Exit Waiter against this fake.
    fn wait_for_exit(&mut self) -> Result<i32, WaitError> {
        let mut waiter = ExitWait::new();
        let mut event = if self.exists {
            self.opened += 1;
            ExitEvent::Opened(true)
        } else {
            ExitEvent::Opened(false)
        };
        loop {
            event = match waiter.step(event) {
                ExitAction::Wait => {
                    while self.clock_ms < self.delay_ms {
                        self.clock_ms += 1;
                    }
                    ExitEvent::Waited(self.wait_status)
                }
                ExitAction::ReadCode => ExitEvent::CodeRead(self.code),
                ExitAction::Release => {
                    self.released += 1;
                    ExitEvent::Released
                }
                ExitAction::Finish(r) => return r,
            };
        }
    }
}

#[test]
fn exit_of_terminated_process() {
    let mut p = FakeProcess::new(3, 0);
    assert_eq!(p.wait_for_exit(), Ok(3));
    assert_eq!(p.clock_ms, 0);
    assert_eq!((p.opened, p.released), (1, 1));
}

#[test]
fn exit_after_injected_delay() {
    let mut p = FakeProcess::new(0, 300);
    assert_eq!(p.wait_for_exit(), Ok(0));
    assert_eq!(p.clock_ms, 300);
    assert_eq!(p.released, 1);
}

#[test]
fn exit_still_active_releases_once() {
    let mut p = FakeProcess::new(STILL_ACTIVE, 0);
    assert_eq!(p.wait_for_exit(), Err(WaitError::StillActive));
    assert_eq!((p.opened, p.released), (1, 1));
}

#[test]
fn exit_code_unreadable_releases_once() {
    let mut p = FakeProcess::new(0, 0);
    p.code = None;
    assert_eq!(p.wait_for_exit(), Err(WaitError::CodeUnavailable));
    assert_eq!((p.opened, p.released), (1, 1));
}

#[test]
fn exit_wait_failure_releases_once() {
    let mut p = FakeProcess::new(0, 0);
    p.wait_status = 0xFFFF_FFFF;
    assert_eq!(p.wait_for_exit(), Err(WaitError::WaitFailed(0xFFFF_FFFF)));
    assert_eq!((p.opened, p.released), (1, 1));
}

#[test]
fn exit_open_failure_releases_nothing() {
    let mut p = FakeProcess::new(0, 0);
    p.exists = false;
    assert_eq!(p.wait_for_exit(), Err(WaitError::OpenFailed));
    assert_eq!((p.opened, p.released), (0, 0));
}

#[test]
fn exit_code_outcomes() {
    assert_eq!(exit_code_outcome(Some(0)), Ok(0));
    assert_eq!(exit_code_outcome(Some(258)), Ok(258));
    assert_eq!(exit_code_outcome(Some(260)), Ok(260));
    assert_eq!(exit_code_outcome(Some(0xFFFF_FFFF)), Ok(-1));
    assert_eq!(exit_code_outcome(Some(STILL_ACTIVE)), Err(WaitError::StillActive));
    assert_eq!(exit_code_outcome(None), Err(WaitError::CodeUnavailable));
}

fn both() -> WindowPolicy {
    WindowPolicy { maximize_own: true, minimize_own_before_focus: true }
}

#[test]
fn orchestrator_full_run() {
    let h = WindowHandle { raw: 0x1234 };
    let mut o = Orchestrator::new(both());
    assert_eq!(o.step(Event::Start), vec![Action::ShowOwn(ShowMode::Maximize), Action::LaunchChild]);
    assert_eq!(o.step(Event::ChildExited(Some(0))), vec![Action::LocateProcess]);
    assert_eq!(o.step(Event::ProcessLookup(Ok(20))), vec![Action::LocateWindow(20)]);
    assert_eq!(o.stage, Stage::ProcessLocated(20));
    assert_eq!(
        o.step(Event::WindowLookup(Some(h))),
        vec![
            Action::ShowOwn(ShowMode::Minimize),
            Action::Foreground(h),
            Action::Show(ShowRequest { window: h, mode: ShowMode::Maximize }),
            Action::WaitExit(20),
        ]
    );
    assert_eq!(o.step(Event::TargetExited(Ok(0))), vec![Action::ShowOwn(ShowMode::Maximize), Action::Finish(0)]);
    assert_eq!(o.stage, Stage::Done);
}

#[test]
fn orchestrator_without_own_window_changes() {
    let h = WindowHandle { raw: 7 };
    let mut o = Orchestrator::new(WindowPolicy { maximize_own: false, minimize_own_before_focus: false });
    assert_eq!(o.step(Event::Start), vec![Action::LaunchChild]);
    o.step(Event::ChildExited(Some(0)));
    o.step(Event::ProcessLookup(Ok(5)));
    assert_eq!(
        o.step(Event::WindowLookup(Some(h))),
        vec![Action::Foreground(h), Action::Show(ShowRequest { window: h, mode: ShowMode::Maximize }), Action::WaitExit(5)]
    );
    assert_eq!(o.step(Event::TargetExited(Ok(9))), vec![Action::Finish(9)]);
    assert_eq!(o.stage, Stage::Failed(9));
}

#[test]
fn orchestrator_failures() {
    let mut o = Orchestrator::new(both());
    o.step(Event::Start);
    assert_eq!(o.step(Event::ChildExited(Some(2))), vec![Action::Finish(2)]);
    assert_eq!(o.stage, Stage::Failed(2));

    let mut o = Orchestrator::new(both());
    o.step(Event::Start);
    assert_eq!(o.step(Event::ChildExited(None)), vec![Action::Finish(FALLBACK_EXIT_CODE)]);

    let mut o = Orchestrator::new(both());
    o.step(Event::Start);
    o.step(Event::ChildExited(Some(0)));
    assert_eq!(o.step(Event::ProcessLookup(Err(ProcessError::NotFound))), vec![Action::Finish(1)]);
    assert_eq!(o.stage, Stage::Failed(1));

    let mut o = Orchestrator::new(both());
    o.step(Event::Start);
    o.step(Event::ChildExited(Some(0)));
    o.step(Event::ProcessLookup(Ok(3)));
    assert_eq!(o.step(Event::WindowLookup(None)), vec![Action::Finish(1)]);

    let mut o = Orchestrator::new(both());
    o.step(Event::Start);
    o.step(Event::ChildExited(Some(0)));
    o.step(Event::ProcessLookup(Ok(3)));
    o.step(Event::WindowLookup(Some(WindowHandle { raw: 1 })));
    assert_eq!(o.step(Event::TargetExited(Err(WaitError::OpenFailed))), vec![Action::Finish(1)]);
    assert_eq!(o.stage, Stage::Failed(1));
}

#[test]
fn config_exe_path_joins() {
    let c = Config {
        dir: "/opt/games".to_string(),
        name_exe: "setup.exe".to_string(),
        name_process: "game.exe".to_string(),
    };
    assert_eq!(c.exe_path(), PathBuf::from("/opt/games").join("setup.exe"));
    assert!(c.exe_path().ends_with("setup.exe"));
    assert!(c.exe_path().starts_with("/opt/games"));
}
