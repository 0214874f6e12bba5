use stdio_server_process::error::ErrorKind;
use stdio_server_process::error::IoError;
use stdio_server_process::exit_wait::ExitWait;
use stdio_server_process::exit_wait::ExitWaitPhase;
use stdio_server_process::exit_wait::ExitWaitStep;
use stdio_server_process::exit_wait::ProcessAction;
use stdio_server_process::exit_wait::ProcessEvent;
use stdio_server_process::local::Escalation;
use stdio_server_process::local::LocalProcessTerminator;
use stdio_server_process::local::Termination;
use stdio_server_process::text::decimal_string;

/// A process group, and a clock that moves only in pauses.
struct Group {
    now: u64,
    exits_at: u64,
    dies_of_kill: bool,
    killed: bool,
    term_fails: bool,
    kill_fails: bool,
    probe_fails: bool,
    signals: Vec<ProcessAction>,
    pauses: Vec<u64>,
}

impl Group {
    fn new() -> Self {
        Group {
            now: 1_000,
            exits_at: u64::MAX,
            dies_of_kill: true,
            killed: false,
            term_fails: false,
            kill_fails: false,
            probe_fails: false,
            signals: Vec::new(),
            pauses: Vec::new(),
        }
    }

    fn is_alive(&self) -> bool {
        !(self.killed && self.dies_of_kill) && self.now < self.exits_at
    }

    fn perform(&mut self, action: ProcessAction) -> ProcessEvent {
        match action {
            ProcessAction::SendTerm { .. } => {
                self.signals.push(action);
                ProcessEvent::TermSent(if self.term_fails {
                    Err(failure("term"))
                } else {
                    Ok(self.is_alive())
                })
            }
            ProcessAction::SendKill { .. } => {
                self.signals.push(action);
                if self.kill_fails {
                    ProcessEvent::KillSent(Err(failure("kill")))
                } else {
                    self.killed = true;
                    ProcessEvent::KillSent(Ok(()))
                }
            }
            ProcessAction::ProbeGroup { process_group_id } => {
                assert_eq!(process_group_id, 42);
                ProcessEvent::Probed(if self.probe_fails {
                    Err(failure("probe"))
                } else {
                    Ok(self.is_alive())
                })
            }
            ProcessAction::ReadClock => ProcessEvent::Clock(self.now),
            ProcessAction::Sleep { nanos } => {
                self.pauses.push(nanos);
                self.now += nanos;
                ProcessEvent::Slept
            }
            _ => panic!("not an action on a group"),
        }
    }

    fn terminate(&mut self) -> Result<(), IoError> {
        let mut termination = LocalProcessTerminator::new(42).terminate();
        loop {
            let action = termination.action();
            if action == ProcessAction::Finished {
                return result_of(termination);
            }
            termination = termination.step(self.perform(action));
        }
    }
}

fn failure(message: &str) -> IoError {
    IoError::new(ErrorKind::PermissionDenied, message.to_string())
}

fn result_of(termination: Termination) -> Result<(), IoError> {
    termination.result().expect("the termination is over")
}

fn term() -> ProcessAction {
    ProcessAction::SendTerm { process_group_id: 42 }
}

fn kill() -> ProcessAction {
    ProcessAction::SendKill { process_group_id: 42 }
}

#[test]
fn absent_group_is_terminated_at_once() {
    let mut group = Group::new();
    group.exits_at = 0;
    assert_eq!(group.terminate(), Ok(()));
    assert_eq!(group.signals, vec![term()]);
    assert!(group.pauses.is_empty());
}

#[test]
fn group_that_reacts_to_term_is_not_killed() {
    let mut group = Group::new();
    group.exits_at = 1_000 + 60_000_000;
    assert_eq!(group.terminate(), Ok(()));
    assert_eq!(group.signals, vec![term()]);
    assert_eq!(group.pauses, vec![25_000_000; 3]);
}

#[test]
fn resistant_group_is_killed_after_the_grace_period() {
    let mut group = Group::new();
    assert_eq!(group.terminate(), Ok(()));
    assert_eq!(group.signals, vec![term(), kill()]);
    assert_eq!(group.pauses, vec![25_000_000; 80]);
    assert_eq!(group.now, 1_000 + 2_000_000_000);
}

#[test]
fn group_that_survives_kill_is_reported() {
    let mut group = Group::new();
    group.dies_of_kill = false;
    assert_eq!(
        group.terminate(),
        Err(IoError::new(
            ErrorKind::TimedOut,
            "MCP process group 42 still exists after SIGKILL confirmation timeout".to_string()
        ))
    );
    assert_eq!(group.signals, vec![term(), kill()]);
    assert_eq!(group.pauses.len(), 120);
    assert_eq!(group.now, 1_000 + 3_000_000_000);
}

#[test]
fn failed_kill_is_reported_in_place_of_the_timeout() {
    let mut group = Group::new();
    group.kill_fails = true;
    assert_eq!(group.terminate(), Err(failure("kill")));
}

#[test]
fn failed_kill_does_not_matter_once_the_group_is_gone() {
    let mut group = Group::new();
    group.kill_fails = true;
    group.exits_at = 1_000 + 2_500_000_000;
    assert_eq!(group.terminate(), Ok(()));
    assert_eq!(group.signals, vec![term(), kill()]);
}

#[test]
fn failed_term_leads_to_kill() {
    let mut group = Group::new();
    group.term_fails = true;
    assert_eq!(group.terminate(), Ok(()));
    assert_eq!(group.signals, vec![term(), kill()]);
    assert!(group.pauses.is_empty());
}

#[test]
fn failed_look_is_reported_after_kill() {
    let mut group = Group::new();
    group.probe_fails = true;
    assert_eq!(group.terminate(), Err(failure("probe")));
    assert_eq!(group.signals, vec![term(), kill()]);

    let mut group = Group::new();
    group.probe_fails = true;
    group.kill_fails = true;
    assert_eq!(group.terminate(), Err(failure("kill")));
}

#[test]
fn events_that_were_not_asked_for_change_nothing() {
    let termination = LocalProcessTerminator::new(42).terminate();
    let termination = termination.step(ProcessEvent::Probed(Ok(false)));
    assert_eq!(termination.action(), term());
    let termination = termination.step(ProcessEvent::Clock(u64::MAX));
    assert_eq!(termination.action(), term());
    assert_eq!(LocalProcessTerminator::new(42).terminate().result(), None);
    let termination = termination.step(ProcessEvent::TermSent(Ok(false)));
    assert_eq!(termination.action(), ProcessAction::Finished);
    let termination = termination.step(ProcessEvent::TermSent(Ok(true)));
    assert_eq!(result_of(termination), Ok(()));
}

#[test]
fn jobs_and_processes_are_terminated_by_their_handles() {
    let job = LocalProcessTerminator::Job { job: 7 };
    assert_eq!(job.terminate_on_drop(), ProcessAction::TerminateJob { job: 7 });
    let termination = job.terminate();
    assert_eq!(termination.action(), ProcessAction::TerminateJob { job: 7 });
    let termination = termination.step(ProcessEvent::HandleTerminated(Ok(())));
    assert_eq!(result_of(termination), Ok(()));

    let process = LocalProcessTerminator::Process { process: 8 };
    assert_eq!(process.terminate_on_drop(), ProcessAction::TerminateProcess { process: 8 });
    let termination = process.terminate();
    assert_eq!(termination.action(), ProcessAction::TerminateProcess { process: 8 });
    let refused = ProcessEvent::HandleTerminated(Err("access denied".to_string()));
    assert_eq!(
        result_of(termination.step(refused)),
        Err(IoError::other("access denied".to_string()))
    );
}

#[test]
fn unsupported_trees_are_left_alone() {
    let unsupported = LocalProcessTerminator::Unsupported;
    assert_eq!(unsupported.terminate_on_drop(), ProcessAction::Finished);
    let termination = unsupported.terminate();
    assert_eq!(termination.action(), ProcessAction::Finished);
    assert_eq!(result_of(termination), Ok(()));
}

#[test]
fn drop_escalates_unless_the_group_was_gone() {
    let escalation = Some(Escalation { delay: 2_000_000_000, process_group_id: 42 });
    let group = LocalProcessTerminator::new(42);
    assert_eq!(group.terminate_on_drop(), term());
    assert_eq!(group.escalate_on_drop(&Ok(false)), None);
    assert_eq!(group.escalate_on_drop(&Ok(true)), escalation);
    assert_eq!(group.escalate_on_drop(&Err(failure("term"))), escalation);
    for other in [
        LocalProcessTerminator::Job { job: 7 },
        LocalProcessTerminator::Process { process: 8 },
        LocalProcessTerminator::Unsupported,
    ] {
        assert_eq!(other.escalate_on_drop(&Ok(true)), None);
    }
}

#[test]
fn waits_pause_no_longer_than_is_left() {
    let wait = LocalProcessTerminator::wait_for_exit(42, 30_000_000);
    assert_eq!(
        wait,
        ExitWait { process_group_id: 42, deadline: 30_000_000, phase: ExitWaitPhase::Probe }
    );
    let asleep = |now: u64| {
        let seen = ExitWait { phase: ExitWaitPhase::Clock, ..wait };
        match seen.step(ProcessEvent::Clock(now)) {
            ExitWaitStep::Continue(wait) => wait.phase,
            ExitWaitStep::Return(_) => panic!("the deadline has not come"),
        }
    };
    assert_eq!(asleep(0), ExitWaitPhase::Sleep { nanos: 25_000_000 });
    assert_eq!(asleep(5_000_000), ExitWaitPhase::Sleep { nanos: 25_000_000 });
    assert_eq!(asleep(5_000_001), ExitWaitPhase::Sleep { nanos: 24_999_999 });
    assert_eq!(asleep(29_999_999), ExitWaitPhase::Sleep { nanos: 1 });
    let seen = ExitWait { phase: ExitWaitPhase::Clock, ..wait };
    assert!(matches!(
        seen.step(ProcessEvent::Clock(30_000_000)),
        ExitWaitStep::Return(Ok(false))
    ));
}

#[test]
fn group_that_is_gone_counts_even_after_the_deadline() {
    let wait = LocalProcessTerminator::wait_for_exit(42, 0);
    assert!(matches!(wait.step(ProcessEvent::Probed(Ok(false))), ExitWaitStep::Return(Ok(true))));
    assert_eq!(wait.action(), ProcessAction::ProbeGroup { process_group_id: 42 });
}

#[test]
fn numbers_are_rendered_in_decimal() {
    for (number, rendered) in [
        (0, "0"),
        (9, "9"),
        (10, "10"),
        (1_234_567_890, "1234567890"),
        (u64::MAX, "18446744073709551615"),
    ] {
        assert_eq!(decimal_string(number), rendered);
    }
}
