use std::sync::atomic::AtomicUsize;
use std::sync::atomic::Ordering;
use std::sync::Arc;

use stdio_server_process::cleanup::CleanupTicket;
use stdio_server_process::cleanup::CleanupWait;
use stdio_server_process::cleanup::CompletionEvent;
use stdio_server_process::cleanup::ProcessCleanupStatus;
use stdio_server_process::error::ErrorKind;
use stdio_server_process::error::IoError;
use stdio_server_process::error::ProcessCleanupFailure;
use stdio_server_process::executor::terminate_executor_process;
use stdio_server_process::executor::ExecutorReply;
use stdio_server_process::executor::EXECUTOR_TERMINATION_TIMEOUT;
use stdio_server_process::exit_wait::ProcessAction;
use stdio_server_process::exit_wait::ProcessEvent;
use stdio_server_process::handle::DropAction;
use stdio_server_process::handle::ExecutorHost;
use stdio_server_process::handle::OwnedTermination;
use stdio_server_process::handle::RetryStep;
use stdio_server_process::handle::StdioServerProcessHandle;
use stdio_server_process::handle::StdioServerProcessKind;
use stdio_server_process::local::LocalProcessTerminator;

/// An executor's process that fails to terminate a number of times.
struct FailingThenSuccessfulExecProcess {
    failures_before_success: usize,
    terminate_calls: AtomicUsize,
}

impl FailingThenSuccessfulExecProcess {
    fn new(failures_before_success: usize) -> Arc<Self> {
        Arc::new(FailingThenSuccessfulExecProcess {
            failures_before_success,
            terminate_calls: AtomicUsize::new(0),
        })
    }

    fn terminate(&self) -> Result<(), String> {
        let call = self.terminate_calls.fetch_add(1, Ordering::SeqCst) + 1;
        if call <= self.failures_before_success {
            Err(format!("injected cleanup failure {call}"))
        } else {
            Ok(())
        }
    }
}

type Handle = StdioServerProcessHandle<Arc<FailingThenSuccessfulExecProcess>>;

/// What the system answers for a process group whose ID names no group.
fn reject_group(process_group_id: u32) -> IoError {
    assert!(i32::try_from(process_group_id).is_err());
    IoError::new(ErrorKind::InvalidInput, format!("invalid process group {process_group_id}"))
}

/// Runs the attempt that a handle owns, on a system that rejects every group.
fn run_attempt(handle: &Handle) -> Result<(), IoError> {
    match handle.inner.terminate_owned_process() {
        nothing @ OwnedTermination::Nothing => nothing.result().expect("success at once"),
        OwnedTermination::Executor { process, program_name, timeout } => {
            assert_eq!(timeout, 5_000_000_000);
            let reply = ExecutorReply::Answered(process.terminate());
            terminate_executor_process(reply, program_name)
        }
        OwnedTermination::Local(mut termination) => {
            let mut now: u64 = 0;
            loop {
                let event = match termination.action() {
                    ProcessAction::SendTerm { process_group_id } => {
                        ProcessEvent::TermSent(Err(reject_group(process_group_id)))
                    }
                    ProcessAction::SendKill { process_group_id } => {
                        ProcessEvent::KillSent(Err(reject_group(process_group_id)))
                    }
                    ProcessAction::ProbeGroup { process_group_id } => {
                        ProcessEvent::Probed(Err(reject_group(process_group_id)))
                    }
                    ProcessAction::ReadClock => ProcessEvent::Clock(now),
                    ProcessAction::Sleep { nanos } => {
                        now += nanos;
                        ProcessEvent::Slept
                    }
                    ProcessAction::TerminateJob { .. } => unreachable!(),
                    ProcessAction::TerminateProcess { .. } => unreachable!(),
                    ProcessAction::Finished => {
                        return termination.result().expect("the termination is over");
                    }
                };
                termination = termination.step(event);
            }
        }
    }
}

/// Starts a cleanup, runs it to its end and waits for its outcome.
fn terminate(handle: &mut Handle) -> Result<(), IoError> {
    let ticket = handle.terminate();
    if let Some(result) = ticket.result() {
        return result;
    }
    let (attempt, completion, finished) = match ticket {
        CleanupTicket::AlreadyComplete => panic!("a complete cleanup has its result at once"),
        CleanupTicket::Join { .. } => panic!("no attempt is running"),
        CleanupTicket::Start { attempt, completion, finished } => (attempt, completion, finished),
    };
    let result = run_attempt(handle);
    let _ = handle.inner.conclude_attempt(attempt, result, finished);
    match handle.inner.wait_for_cleanup(attempt, &completion, CompletionEvent::Ready) {
        CleanupWait::Return(result) => result,
        CleanupWait::AwaitChange => panic!("the outcome was announced"),
    }
}

/// Cleans up, and tries again once.
fn terminate_with_retry(handle: &mut Handle) -> Result<(), IoError> {
    let mut retry = handle.terminate_with_retry();
    loop {
        match retry.step(terminate(handle)) {
            RetryStep::Attempt(next) => retry = next,
            RetryStep::Return(result) => return result,
        }
    }
}

#[test]
fn failed_cleanup_attempt_can_be_retried() {
    let mut handle: Handle = StdioServerProcessHandle::local(
        "invalid-process-group".to_string(),
        Some(LocalProcessTerminator::new(u32::MAX)),
    );

    for expected_attempt in 2..=3 {
        let error = terminate(&mut handle).expect_err("invalid process group must fail cleanup");
        assert_eq!(error.kind, ErrorKind::InvalidInput);

        assert_eq!(handle.inner.cleanup.next_attempt, expected_attempt);
        assert!(matches!(&handle.inner.cleanup.status, ProcessCleanupStatus::Failed));
    }
}

#[test]
fn bounded_cleanup_retry_succeeds_after_one_failure() {
    let process = FailingThenSuccessfulExecProcess::new(1);
    let mut handle: Handle =
        StdioServerProcessHandle::executor("retry-cleanup".to_string(), Arc::clone(&process));

    terminate_with_retry(&mut handle).expect("second cleanup attempt should succeed");

    assert_eq!(process.terminate_calls.load(Ordering::SeqCst), 2);
}

#[test]
fn bounded_cleanup_retry_reports_both_failures() {
    let process = FailingThenSuccessfulExecProcess::new(2);
    let mut handle: Handle =
        StdioServerProcessHandle::executor("failed-cleanup".to_string(), Arc::clone(&process));

    let error = terminate_with_retry(&mut handle)
        .expect_err("two failed cleanup attempts must be reported");

    assert!(error.message.contains("first attempt"));
    assert!(error.message.contains("retry"));
    assert_eq!(process.terminate_calls.load(Ordering::SeqCst), 2);
}

#[test]
fn executor_drop_without_a_runtime_still_terminates_the_process() {
    let process = FailingThenSuccessfulExecProcess::new(0);
    let handle: Handle = StdioServerProcessHandle::executor(
        "runtime-independent-drop".to_string(),
        Arc::clone(&process),
    );

    match handle.inner.terminate_on_drop(false) {
        DropAction::Executor { process, program_name, timeout, host } => {
            assert_eq!(program_name, "runtime-independent-drop");
            assert_eq!(timeout, EXECUTOR_TERMINATION_TIMEOUT);
            assert_eq!(host, ExecutorHost::OwnThread);
            assert_eq!(process.terminate(), Ok(()));
        }
        _ => panic!("the executor must be asked"),
    }
    drop(handle);

    assert_eq!(process.terminate_calls.load(Ordering::SeqCst), 1);
}

#[test]
fn retry_failure_keeps_the_kind_of_the_retry_and_both_texts() {
    let handle: Handle = StdioServerProcessHandle::local("p".to_string(), None);
    let first = IoError::new(ErrorKind::PermissionDenied, "denied".to_string());
    let second = IoError::new(ErrorKind::TimedOut, "too late".to_string());
    let retry = match handle.terminate_with_retry().step(Err(first)) {
        RetryStep::Attempt(retry) => retry,
        RetryStep::Return(_) => panic!("the first failure is retried"),
    };
    match retry.step(Err(second)) {
        RetryStep::Return(Err(error)) => {
            assert_eq!(error.kind, ErrorKind::TimedOut);
            assert_eq!(
                error.message,
                "MCP process cleanup failed: first attempt: denied; retry: too late"
            );
        }
        _ => panic!("the second failure is reported"),
    }
}

#[test]
fn retry_ends_with_the_first_success() {
    let handle: Handle = StdioServerProcessHandle::local("p".to_string(), None);
    assert!(matches!(
        handle.terminate_with_retry().step(Ok(())),
        RetryStep::Return(Ok(()))
    ));
}

#[test]
fn second_request_joins_the_running_attempt() {
    let mut handle: Handle = StdioServerProcessHandle::local(
        "shared".to_string(),
        Some(LocalProcessTerminator::new(42)),
    );
    let (attempt, first, finished) = match handle.terminate() {
        CleanupTicket::Start { attempt, completion, finished } => (attempt, completion, finished),
        _ => panic!("the first request starts an attempt"),
    };
    assert_eq!(attempt, 1);
    let second = match handle.terminate() {
        CleanupTicket::Join { attempt, completion } => {
            assert_eq!(attempt, 1);
            completion
        }
        _ => panic!("the second request joins the attempt"),
    };
    assert!(second.same_channel(&first));
    for completion in [&first, &second] {
        assert!(matches!(
            handle.inner.wait_for_cleanup(attempt, completion, CompletionEvent::Ready),
            CleanupWait::AwaitChange
        ));
    }

    let announced = handle.inner.conclude_attempt(attempt, Ok(()), finished);
    assert_eq!(announced, Ok(()));

    for completion in [&first, &second] {
        assert!(matches!(
            handle.inner.wait_for_cleanup(attempt, completion, CompletionEvent::Ready),
            CleanupWait::Return(Ok(()))
        ));
    }
    assert!(matches!(handle.terminate(), CleanupTicket::AlreadyComplete));
    assert_eq!(handle.inner.cleanup.next_attempt, 2);
}

#[test]
fn every_waiter_gets_the_failure_of_the_attempt() {
    let mut handle: Handle = StdioServerProcessHandle::local(
        "shared".to_string(),
        Some(LocalProcessTerminator::new(42)),
    );
    let (attempt, completion, finished) = match handle.terminate() {
        CleanupTicket::Start { attempt, completion, finished } => (attempt, completion, finished),
        _ => panic!("the first request starts an attempt"),
    };
    let error = IoError::new(ErrorKind::PermissionDenied, "denied".to_string());
    let announced = handle.inner.conclude_attempt(attempt, Err(error), finished);
    assert_eq!(
        announced,
        Err(ProcessCleanupFailure {
            kind: ErrorKind::PermissionDenied,
            message: "denied".to_string(),
        })
    );
    match handle.inner.wait_for_cleanup(attempt, &completion, CompletionEvent::Ready) {
        CleanupWait::Return(Err(error)) => {
            assert_eq!(error.kind, ErrorKind::PermissionDenied);
            assert_eq!(error.message, "denied");
        }
        _ => panic!("the failure was announced"),
    }
}

#[test]
fn abandoned_attempt_fails_and_can_be_retried() {
    let mut handle: Handle = StdioServerProcessHandle::local(
        "abandoned".to_string(),
        Some(LocalProcessTerminator::new(42)),
    );
    let (attempt, completion, finished) = match handle.terminate() {
        CleanupTicket::Start { attempt, completion, finished } => (attempt, completion, finished),
        _ => panic!("the first request starts an attempt"),
    };
    drop(finished);
    match handle.inner.wait_for_cleanup(attempt, &completion, CompletionEvent::Closed) {
        CleanupWait::Return(Err(error)) => {
            assert_eq!(error.kind, ErrorKind::BrokenPipe);
            assert_eq!(error.message, "MCP process cleanup task ended without a result");
        }
        _ => panic!("the attempt has failed"),
    }
    assert!(matches!(handle.inner.cleanup.status, ProcessCleanupStatus::Failed));

    let retried = match handle.terminate() {
        CleanupTicket::Start { attempt, .. } => attempt,
        _ => panic!("a failed attempt is retried"),
    };
    assert_eq!(retried, 2);

    // A second waiter of the first attempt does not disturb the retry.
    let _ = handle.inner.wait_for_cleanup(attempt, &completion, CompletionEvent::Closed);
    assert!(matches!(
        handle.inner.cleanup.status,
        ProcessCleanupStatus::Running { attempt: 2, .. }
    ));
}

#[test]
fn results_are_there_at_once_only_where_nothing_is_left_to_do() {
    let mut handle: Handle = StdioServerProcessHandle::local("nothing".to_string(), None);
    assert_eq!(handle.inner.terminate_owned_process().result(), Some(Ok(())));
    let ticket = handle.terminate();
    assert_eq!(ticket.result(), None);
    assert_eq!(handle.terminate().result(), None);
    handle.inner.finish_cleanup_attempt(1, Ok(()));
    assert_eq!(handle.terminate().result(), Some(Ok(())));

    let handle: Handle =
        StdioServerProcessHandle::local("g".to_string(), Some(LocalProcessTerminator::new(42)));
    assert_eq!(handle.inner.terminate_owned_process().result(), None);
    let unsupported = Some(LocalProcessTerminator::Unsupported);
    let handle: Handle = StdioServerProcessHandle::local("u".to_string(), unsupported);
    assert_eq!(handle.inner.terminate_owned_process().result(), Some(Ok(())));
    let process = FailingThenSuccessfulExecProcess::new(0);
    let handle: Handle = StdioServerProcessHandle::executor("e".to_string(), process);
    assert_eq!(handle.inner.terminate_owned_process().result(), None);
}

#[test]
fn stale_and_repeated_reports_are_ignored() {
    let mut handle: Handle = StdioServerProcessHandle::local("stale".to_string(), None);
    handle.inner.finish_cleanup_attempt(1, Ok(()));
    assert!(matches!(handle.inner.cleanup.status, ProcessCleanupStatus::Idle));

    let _ = handle.terminate();
    handle.inner.finish_cleanup_attempt(7, Ok(()));
    assert!(matches!(
        handle.inner.cleanup.status,
        ProcessCleanupStatus::Running { attempt: 1, .. }
    ));
    let failure = ProcessCleanupFailure { kind: ErrorKind::Other, message: "x".to_string() };
    handle.inner.finish_cleanup_attempt(1, Err(failure));
    handle.inner.finish_cleanup_attempt(1, Ok(()));
    assert!(matches!(handle.inner.cleanup.status, ProcessCleanupStatus::Failed));
}

#[test]
fn attempt_numbers_wrap_around() {
    let mut handle: Handle = StdioServerProcessHandle::local("wrap".to_string(), None);
    handle.inner.cleanup.status = ProcessCleanupStatus::Failed;
    handle.inner.cleanup.next_attempt = u64::MAX;
    match handle.terminate() {
        CleanupTicket::Start { attempt, .. } => assert_eq!(attempt, u64::MAX),
        _ => panic!("a failed attempt is retried"),
    }
    assert_eq!(handle.inner.cleanup.next_attempt, 0);
}

#[test]
fn handle_without_a_terminator_has_nothing_to_terminate() {
    let mut handle: Handle = StdioServerProcessHandle::local("nothing".to_string(), None);
    assert_eq!(handle.inner.program_name, "nothing");
    assert!(matches!(handle.inner.kind, StdioServerProcessKind::Local(None)));
    assert!(matches!(handle.inner.terminate_on_drop(true), DropAction::Nothing));
    assert_eq!(terminate(&mut handle), Ok(()));
    assert!(matches!(handle.terminate(), CleanupTicket::AlreadyComplete));
}

#[test]
fn drop_signals_the_owned_group_unless_cleanup_is_complete() {
    let mut handle: Handle = StdioServerProcessHandle::local(
        "dropped".to_string(),
        Some(LocalProcessTerminator::new(42)),
    );
    let term = ProcessAction::SendTerm { process_group_id: 42 };
    for runtime_available in [false, true] {
        match handle.inner.terminate_on_drop(runtime_available) {
            DropAction::Local { terminator, action } => {
                assert_eq!(terminator, LocalProcessTerminator::new(42));
                assert_eq!(action, term);
            }
            _ => panic!("the group is signalled"),
        }
    }
    let finished = match handle.terminate() {
        CleanupTicket::Start { finished, .. } => finished,
        _ => panic!("the first request starts an attempt"),
    };
    match handle.inner.terminate_on_drop(true) {
        DropAction::Local { terminator, action } => {
                assert_eq!(terminator, LocalProcessTerminator::new(42));
                assert_eq!(action, term);
            }
        _ => panic!("a running attempt does not spare the group"),
    }
    let _ = handle.inner.conclude_attempt(1, Ok(()), finished);
    assert!(matches!(handle.inner.terminate_on_drop(true), DropAction::Nothing));
}

#[test]
fn drop_with_a_runtime_asks_the_executor_there() {
    let process = FailingThenSuccessfulExecProcess::new(0);
    let handle: Handle =
        StdioServerProcessHandle::executor("with-runtime".to_string(), Arc::clone(&process));
    match handle.inner.terminate_on_drop(true) {
        DropAction::Executor { host, .. } => assert_eq!(host, ExecutorHost::CurrentRuntime),
        _ => panic!("the executor must be asked"),
    }
}

#[test]
fn executor_replies_are_settled() {
    assert_eq!(terminate_executor_process(ExecutorReply::Answered(Ok(())), "server"), Ok(()));
    let refused = ExecutorReply::Answered(Err("refused".to_string()));
    assert_eq!(
        terminate_executor_process(refused, "server"),
        Err(IoError::other("refused".to_string()))
    );
    assert_eq!(
        terminate_executor_process(ExecutorReply::TimedOut, "server"),
        Err(IoError::new(
            ErrorKind::TimedOut,
            "executor MCP server termination timed out after 5 seconds (server)".to_string()
        ))
    );
}

#[test]
fn failures_survive_being_shared() {
    let error = IoError::new(ErrorKind::StorageFull, "disk is full".to_string());
    let failure = ProcessCleanupFailure::from(error);
    assert_eq!(failure.kind, ErrorKind::StorageFull);
    assert_eq!(failure.message, "disk is full");
    let error = failure.clone().into_error();
    assert_eq!(error, IoError::new(ErrorKind::StorageFull, "disk is full".to_string()));
    assert_eq!(ProcessCleanupFailure::from(error), failure);
}
