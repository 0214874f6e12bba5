use std::path::PathBuf;

use stdio_server_process::error::ErrorKind;
use stdio_server_process::error::IoError;
use stdio_server_process::supervisor::exit_code;
use stdio_server_process::supervisor::parent_is_alive;
use stdio_server_process::supervisor::run_mcp_process_supervisor;
use stdio_server_process::supervisor::run_mcp_process_supervisor_main;
use stdio_server_process::supervisor::supervised_command;
use stdio_server_process::supervisor::terminate_process_group;
use stdio_server_process::supervisor::ParentProbe;
use stdio_server_process::supervisor::Signal;
use stdio_server_process::supervisor::StandardStream;
use stdio_server_process::supervisor::Supervisor;
use stdio_server_process::supervisor::SupervisorAction;
use stdio_server_process::supervisor::SupervisorEvent;
use stdio_server_process::supervisor::SupervisorPhase;
use stdio_server_process::supervisor::TargetStatus;
use stdio_server_process::supervisor::CODEX_MCP_PROCESS_SUPERVISOR_ARG1;
use stdio_server_process::supervisor_exe::configure_mcp_process_supervisor_exe;
use stdio_server_process::supervisor_exe::configured_mcp_process_supervisor_exe;
use stdio_server_process::supervisor_exe::McpProcessSupervisorExe;

fn argv() -> Vec<&'static str> {
    vec!["supervisor", CODEX_MCP_PROCESS_SUPERVISOR_ARG1, "server", "--stdio", "--verbose"]
}

/// A supervisor that has just begun to supervise its target.
fn supervising() -> Supervisor<&'static str> {
    let supervisor = run_mcp_process_supervisor(argv());
    assert_eq!(supervisor.action(), SupervisorAction::ReadIds);
    let ids = SupervisorEvent::Ids { parent_pid: 100, process_group_id: 200 };
    let supervisor = supervisor.step(ids);
    assert_eq!(supervisor.action(), SupervisorAction::SpawnTarget);
    let mut supervisor = supervisor.step(SupervisorEvent::Spawned(Ok(())));
    for action in [
        SupervisorAction::IgnoreSignal(Signal::Term),
        SupervisorAction::IgnoreSignal(Signal::Int),
        SupervisorAction::IgnoreSignal(Signal::Hup),
        SupervisorAction::CloseStream(StandardStream::Stdin),
        SupervisorAction::CloseStream(StandardStream::Stdout),
        SupervisorAction::CloseStream(StandardStream::Stderr),
    ] {
        assert_eq!(supervisor.action(), action);
        supervisor = supervisor.step(SupervisorEvent::Performed);
    }
    assert_eq!(supervisor.action(), SupervisorAction::PollTarget);
    supervisor
}

/// Checks that the group is terminated and the supervisor exits.
fn expect_termination(mut supervisor: Supervisor<&'static str>) {
    for action in [
        SupervisorAction::SignalGroup { process_group_id: 200, signal: Signal::Term },
        SupervisorAction::Sleep { nanos: 2_000_000_000 },
        SupervisorAction::SignalGroup { process_group_id: 200, signal: Signal::Kill },
        SupervisorAction::ExitAtOnce { code: 1 },
    ] {
        assert_eq!(supervisor.action(), action);
        supervisor = supervisor.step(SupervisorEvent::Performed);
    }
    assert_eq!(supervisor.action(), SupervisorAction::ExitAtOnce { code: 1 });
}

fn failure_of(supervisor: Supervisor<&'static str>) -> IoError {
    assert_eq!(supervisor.action(), SupervisorAction::Exit { code: 1 });
    match supervisor.phase {
        SupervisorPhase::Done(Err(error)) => error,
        _ => panic!("the supervisor has not failed"),
    }
}

#[test]
fn supervisor_flag_is_stable() {
    assert_eq!(CODEX_MCP_PROCESS_SUPERVISOR_ARG1, "--codex-mcp-process-supervisor");
}

#[test]
fn target_follows_the_flag() {
    let command = supervised_command(argv()).unwrap_or_else(|_| panic!("there is a target"));
    assert_eq!(command.program, "server");
    assert_eq!(command.args, vec!["--stdio", "--verbose"]);
    let command = supervised_command(vec![1, 2, 3]).unwrap_or_else(|_| panic!("a bare target"));
    assert_eq!(command.program, 3);
    assert!(command.args.is_empty());
}

#[test]
fn supervisor_without_a_target_fails() {
    for argv in [vec![], vec!["supervisor"], vec!["supervisor", "flag"]] {
        let error = failure_of(run_mcp_process_supervisor(argv));
        assert_eq!(error.kind, ErrorKind::InvalidInput);
        assert_eq!(error.message, "MCP process supervisor requires a target program");
    }
}

#[test]
fn supervisor_needs_a_parent_and_a_group() {
    for (parent_pid, process_group_id) in [(1, 200), (0, 200), (-1, 200), (100, 0), (100, -5)] {
        let supervisor = run_mcp_process_supervisor(argv());
        let ids = SupervisorEvent::Ids { parent_pid, process_group_id };
        let error = failure_of(supervisor.step(ids));
        assert_eq!(error.kind, ErrorKind::Other);
        assert_eq!(
            error.message,
            "MCP process supervisor requires a live parent and process group"
        );
    }
    let ids = SupervisorEvent::Ids { parent_pid: 2, process_group_id: 1 };
    let supervisor = run_mcp_process_supervisor(argv()).step(ids);
    assert_eq!(supervisor.action(), SupervisorAction::SpawnTarget);
}

#[test]
fn failed_spawn_and_failed_poll_end_the_supervisor() {
    let ids = SupervisorEvent::Ids { parent_pid: 100, process_group_id: 200 };
    let supervisor = run_mcp_process_supervisor(argv()).step(ids);
    let missing = IoError::new(ErrorKind::NotFound, "no such file".to_string());
    let error = failure_of(supervisor.step(SupervisorEvent::Spawned(Err(missing))));
    assert_eq!(error, IoError::new(ErrorKind::NotFound, "no such file".to_string()));

    let lost = IoError::new(ErrorKind::Unnamed(3), "no child".to_string());
    let error = failure_of(supervising().step(SupervisorEvent::Polled(Err(lost))));
    assert_eq!(error, IoError::new(ErrorKind::Unnamed(3), "no child".to_string()));
}

#[test]
fn supervisor_exits_like_its_target() {
    for (code, signal, expected) in
        [(Some(0), None, 0), (Some(7), None, 7), (None, Some(15), 143), (None, None, 1)]
    {
        let status = TargetStatus { code, signal };
        assert_eq!(exit_code(status), expected);
        let ended = SupervisorEvent::Polled(Ok(Some(status)));
        let supervisor = supervising().step(ended);
        assert_eq!(supervisor.action(), SupervisorAction::Exit { code: expected });
    }
    assert_eq!(run_mcp_process_supervisor_main(&Ok(7)), 7);
    assert_eq!(run_mcp_process_supervisor_main(&Err(IoError::other("x".to_string()))), 1);
}

#[test]
fn supervision_goes_on_while_the_parent_lives() {
    let mut supervisor = supervising();
    for probe in [
        ParentProbe { returned: 0, not_permitted: false },
        ParentProbe { returned: -1, not_permitted: true },
    ] {
        supervisor = supervisor.step(SupervisorEvent::Polled(Ok(None)));
        assert_eq!(supervisor.action(), SupervisorAction::ReadParent);
        supervisor = supervisor.step(SupervisorEvent::ParentRead(100));
        assert_eq!(supervisor.action(), SupervisorAction::ProbeParent { pid: 100 });
        supervisor = supervisor.step(SupervisorEvent::ParentProbed(probe));
        assert_eq!(supervisor.action(), SupervisorAction::Sleep { nanos: 25_000_000 });
        supervisor = supervisor.step(SupervisorEvent::Performed);
        assert_eq!(supervisor.action(), SupervisorAction::PollTarget);
    }
}

#[test]
fn reparented_supervisor_terminates_its_group() {
    let supervisor = supervising().step(SupervisorEvent::Polled(Ok(None)));
    expect_termination(supervisor.step(SupervisorEvent::ParentRead(1)));
}

#[test]
fn vanished_parent_makes_the_supervisor_terminate_its_group() {
    let supervisor = supervising().step(SupervisorEvent::Polled(Ok(None)));
    let supervisor = supervisor.step(SupervisorEvent::ParentRead(100));
    let gone = ParentProbe { returned: -1, not_permitted: false };
    expect_termination(supervisor.step(SupervisorEvent::ParentProbed(gone)));
}

#[test]
fn parent_is_known_to_be_alive_only_after_the_probe() {
    let answered = |returned: i32, not_permitted: bool| {
        Some(ParentProbe { returned, not_permitted })
    };
    assert_eq!(parent_is_alive(100, 100, None), None);
    assert_eq!(parent_is_alive(100, 1, None), Some(false));
    assert_eq!(parent_is_alive(100, 1, answered(0, false)), Some(false));
    assert_eq!(parent_is_alive(100, 100, answered(0, false)), Some(true));
    assert_eq!(parent_is_alive(100, 100, answered(-1, true)), Some(true));
    assert_eq!(parent_is_alive(100, 100, answered(-1, false)), Some(false));
    assert_eq!(parent_is_alive(100, 1, answered(-1, true)), Some(false));
}

#[test]
fn group_termination_begins_with_term() {
    assert_eq!(
        terminate_process_group(9).action(),
        SupervisorAction::SignalGroup { process_group_id: 9, signal: Signal::Term }
    );
}

#[test]
fn unexpected_events_leave_the_supervisor_alone() {
    let supervisor = supervising().step(SupervisorEvent::ParentRead(1));
    assert_eq!(supervisor.action(), SupervisorAction::PollTarget);
    let supervisor = supervisor.step(SupervisorEvent::Performed);
    assert_eq!(supervisor.action(), SupervisorAction::PollTarget);
}

#[test]
fn first_configured_executable_stays() {
    let mut exe = McpProcessSupervisorExe::new();
    assert_eq!(configured_mcp_process_supervisor_exe(&exe), None);
    configure_mcp_process_supervisor_exe(&mut exe, PathBuf::from("/usr/bin/first"));
    configure_mcp_process_supervisor_exe(&mut exe, PathBuf::from("/usr/bin/second"));
    assert_eq!(
        configured_mcp_process_supervisor_exe(&exe),
        Some(PathBuf::from("/usr/bin/first"))
    );
}
