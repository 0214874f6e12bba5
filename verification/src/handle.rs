//! The owner of one spawned stdio MCP process tree.

use vstd::prelude::*;

use crate::cleanup::{
    CleanupTicket, CleanupWait, CompletionEvent, ProcessCleanupState, ProcessCleanupStatus,
};
use crate::completion;
use crate::completion::{Announcement, Completion};
use crate::error::{ErrorKind, IoError, ProcessCleanupOutcome};
use crate::executor::EXECUTOR_TERMINATION_TIMEOUT;
use crate::exit_wait::ProcessAction;
use crate::local::{LocalProcessTerminator, Termination};

verus! {

/// Who runs the process tree. `P` is the embedding program's handle of a
/// process that an executor runs.
pub enum StdioServerProcessKind<P> {
    Local(Option<LocalProcessTerminator>),
    Executor(P),
}

/// What one process tree is owned with.
pub struct StdioServerProcessHandleInner<P> {
    pub program_name: String,
    pub kind: StdioServerProcessKind<P>,
    pub cleanup: ProcessCleanupState,
}

/// The owner of one spawned stdio MCP process tree. Everyone who shares it
/// coordinates through its one cleanup state.
pub struct StdioServerProcessHandle<P> {
    pub inner: StdioServerProcessHandleInner<P>,
}

/// How an owned process tree is terminated.
pub enum OwnedTermination<'a, P> {
    /// There is no process tree to terminate.
    Nothing,
    /// Step by step, on this machine.
    Local(Termination),
    /// By the executor, which may take `timeout` nanoseconds to answer.
    Executor { process: &'a P, program_name: &'a str, timeout: u64 },
}

/// Where the termination of an executor's process runs when its last owner is
/// dropped.
#[derive(Clone, Copy, Debug, PartialEq, Eq, Structural)]
pub enum ExecutorHost {
    /// On the runtime that is there.
    CurrentRuntime,
    /// On a runtime of its own, in a thread of its own.
    OwnThread,
}

/// What is done when the last owner of a process tree is dropped.
pub enum DropAction<'a, P> {
    /// Nothing: the tree is gone, or there is none.
    Nothing,
    /// The action is performed at once, on this machine, and followed by the
    /// escalation that the token asks for.
    Local { terminator: LocalProcessTerminator, action: ProcessAction },
    /// The executor is asked to terminate the process, which may take `timeout`
    /// nanoseconds.
    Executor { process: &'a P, program_name: &'a str, timeout: u64, host: ExecutorHost },
}

/// A cleanup that is tried again once.
pub enum CleanupRetry {
    /// The first attempt is to be made.
    FirstAttempt,
    /// The first attempt failed; the retry is to be made.
    Retry { first_error: IoError },
}

/// What becomes of a retried cleanup after an attempt.
pub enum RetryStep {
    /// Another attempt is to be made.
    Attempt(CleanupRetry),
    /// The cleanup is over.
    Return(Result<(), IoError>),
}

/// The text of the failure of both attempts.
pub open spec fn both_failed_text(first: Seq<char>, retry: Seq<char>) -> Seq<char> {
    "MCP process cleanup failed: first attempt: "@ + first + "; retry: "@ + retry
}

/// What becomes of a retried cleanup when an attempt ends with `result`: success
/// ends it, the first failure leads to the retry, and the second is reported
/// together with the first.
pub open spec fn retry_advances(
    retry: CleanupRetry,
    result: Result<(), IoError>,
    step: RetryStep,
) -> bool {
    match (retry, result) {
        (_, Ok(())) => step == RetryStep::Return(Ok(())),
        (CleanupRetry::FirstAttempt, Err(first_error)) => step == RetryStep::Attempt(
            CleanupRetry::Retry { first_error },
        ),
        (CleanupRetry::Retry { first_error }, Err(retry_error)) => {
            &&& step matches RetryStep::Return(Err(error))
            &&& error.describes(
                retry_error.kind,
                both_failed_text(first_error.message@, retry_error.message@),
            )
        },
    }
}

impl<'a, P> OwnedTermination<'a, P> {
    /// The result that an attempt has at once: success, where there is no
    /// process tree to terminate, or where its termination is over.
    pub fn result(self) -> (result: Option<Result<(), IoError>>)
        ensures
            result == match self {
                OwnedTermination::Nothing => Some(Ok::<(), IoError>(())),
                OwnedTermination::Local(termination) => termination.result_spec(),
                OwnedTermination::Executor { .. } => None,
            },
    {
        match self {
            OwnedTermination::Nothing => Some(Ok(())),
            OwnedTermination::Local(termination) => termination.result(),
            OwnedTermination::Executor { .. } => None,
        }
    }
}

impl CleanupRetry {
    /// Hands over the result of an attempt.
    pub fn step(self, result: Result<(), IoError>) -> (step: RetryStep)
        ensures
            retry_advances(self, result, step),
    {
        match (self, result) {
            (_, Ok(())) => RetryStep::Return(Ok(())),
            (CleanupRetry::FirstAttempt, Err(first_error)) => RetryStep::Attempt(
                CleanupRetry::Retry { first_error },
            ),
            (CleanupRetry::Retry { first_error }, Err(retry_error)) => {
                let mut message = "MCP process cleanup failed: first attempt: ".to_owned();
                message.append(first_error.message.as_str());
                message.append("; retry: ");
                message.append(retry_error.message.as_str());
                RetryStep::Return(Err(IoError::new(retry_error.kind, message)))
            },
        }
    }
}

impl<P> StdioServerProcessHandleInner<P> {
    /// The owner of a process tree that no cleanup was asked for yet.
    pub open spec fn owned_by(
        self,
        program_name: String,
        kind: StdioServerProcessKind<P>,
    ) -> bool {
        &&& self.program_name == program_name
        &&& self.kind == kind
        &&& self.cleanup == ProcessCleanupState::initial()
    }

    /// Whether there is a process tree that is not known to be gone.
    pub open spec fn may_be_alive(self) -> bool {
        &&& !(self.cleanup.status is Complete)
        &&& match self.kind {
            StdioServerProcessKind::Local(None) => false,
            StdioServerProcessKind::Local(Some(_)) => true,
            StdioServerProcessKind::Executor(_) => true,
        }
    }

    /// Whether `action` is what is done when the last owner is dropped.
    pub open spec fn drops_to(self, runtime_available: bool, action: DropAction<'_, P>) -> bool {
        if !self.may_be_alive() {
            action == DropAction::<P>::Nothing
        } else {
            match self.kind {
                StdioServerProcessKind::Local(Some(terminator)) => {
                    &&& action matches DropAction::Local { terminator: token, action: performed }
                    &&& token == terminator
                    &&& performed == terminator.terminate_on_drop_spec()
                },
                StdioServerProcessKind::Local(None) => action == DropAction::<P>::Nothing,
                StdioServerProcessKind::Executor(process) => {
                    &&& action matches DropAction::Executor {
                        process: target,
                        program_name,
                        timeout,
                        host,
                    }
                    &&& *target == process
                    &&& program_name@ == self.program_name@
                    &&& timeout == EXECUTOR_TERMINATION_TIMEOUT
                    &&& host == if runtime_available {
                        ExecutorHost::CurrentRuntime
                    } else {
                        ExecutorHost::OwnThread
                    }
                },
            }
        }
    }

    /// How the owned process tree is terminated.
    pub fn terminate_owned_process(&self) -> (termination: OwnedTermination<'_, P>)
        ensures
            match self.kind {
                StdioServerProcessKind::Local(Some(terminator)) => {
                    termination == OwnedTermination::<P>::Local(terminator.terminate_spec())
                },
                StdioServerProcessKind::Local(None) => {
                    termination == OwnedTermination::<P>::Nothing
                },
                StdioServerProcessKind::Executor(process) => {
                    &&& termination matches OwnedTermination::Executor {
                        process: target,
                        program_name,
                        timeout,
                    }
                    &&& *target == process
                    &&& program_name@ == self.program_name@
                    &&& timeout == EXECUTOR_TERMINATION_TIMEOUT
                },
            },
    {
        match &self.kind {
            StdioServerProcessKind::Local(Some(terminator)) => OwnedTermination::Local(
                terminator.terminate(),
            ),
            StdioServerProcessKind::Local(None) => OwnedTermination::Nothing,
            StdioServerProcessKind::Executor(process) => OwnedTermination::Executor {
                process,
                program_name: self.program_name.as_str(),
                timeout: EXECUTOR_TERMINATION_TIMEOUT,
            },
        }
    }

    /// Records how an attempt ended.
    pub fn finish_cleanup_attempt(&mut self, attempt: u64, outcome: ProcessCleanupOutcome)
        ensures
            final(self).cleanup == old(self).cleanup.finished(attempt, outcome is Ok),
            final(self).kind == old(self).kind,
            final(self).program_name == old(self).program_name,
            old(self).cleanup.wf() ==> final(self).cleanup.wf(),
    {
        self.cleanup.finish_cleanup_attempt(attempt, outcome);
    }

    /// Ends an attempt: its outcome is recorded, announced and returned.
    pub fn conclude_attempt(
        &mut self,
        attempt: u64,
        result: Result<(), IoError>,
        finished: Announcement,
    ) -> (announced: ProcessCleanupOutcome)
        ensures
            final(self).cleanup == old(self).cleanup.finished(attempt, result is Ok),
            final(self).kind == old(self).kind,
            final(self).program_name == old(self).program_name,
            announced == crate::cleanup::outcome_of(result),
            completion::was_announced(finished, crate::cleanup::outcome_of(result)),
            old(self).cleanup.wf() ==> final(self).cleanup.wf(),
    {
        self.cleanup.conclude_attempt(attempt, result, finished)
    }

    /// One turn of the wait for an attempt.
    pub fn wait_for_cleanup(
        &mut self,
        attempt: u64,
        completion: &Completion,
        event: CompletionEvent,
    ) -> (wait: CleanupWait)
        ensures
            match event {
                CompletionEvent::Ready => {
                    &&& final(self).cleanup == old(self).cleanup
                    &&& exists|held: Option<ProcessCleanupOutcome>| #[trigger]
                        completion::was_found(completion, held) && wait
                            == crate::cleanup::wait_spec(held)
                },
                CompletionEvent::Closed => {
                    &&& final(self).cleanup == old(self).cleanup.finished(attempt, false)
                    &&& wait matches CleanupWait::Return(Err(error))
                    &&& error.describes(
                        ErrorKind::BrokenPipe,
                        crate::cleanup::abandoned_text(),
                    )
                },
            },
            final(self).kind == old(self).kind,
            final(self).program_name == old(self).program_name,
            old(self).cleanup.wf() ==> final(self).cleanup.wf(),
    {
        self.cleanup.wait_for_cleanup(attempt, completion, event)
    }

    /// What is done when the last owner is dropped. A tree that is not known to
    /// be gone is terminated, with or without a runtime.
    pub fn terminate_on_drop(&self, runtime_available: bool) -> (action: DropAction<'_, P>)
        ensures
            self.drops_to(runtime_available, action),
            action is Nothing <==> self.cleanup.status is Complete || (
            self.kind matches StdioServerProcessKind::Local(None)),
            action matches DropAction::Executor { process, program_name, timeout, host } ==> {
                &&& self.kind == StdioServerProcessKind::Executor(*process)
                &&& program_name@ == self.program_name@
                &&& timeout == EXECUTOR_TERMINATION_TIMEOUT
                &&& host is CurrentRuntime <==> runtime_available
            },
    {
        if let ProcessCleanupStatus::Complete = &self.cleanup.status {
            return DropAction::Nothing;
        }
        match &self.kind {
            StdioServerProcessKind::Local(Some(terminator)) => DropAction::Local {
                terminator: *terminator,
                action: terminator.terminate_on_drop(),
            },
            StdioServerProcessKind::Local(None) => DropAction::Nothing,
            StdioServerProcessKind::Executor(process) => DropAction::Executor {
                process,
                program_name: self.program_name.as_str(),
                timeout: EXECUTOR_TERMINATION_TIMEOUT,
                host: if runtime_available {
                    ExecutorHost::CurrentRuntime
                } else {
                    ExecutorHost::OwnThread
                },
            },
        }
    }
}

impl<P> StdioServerProcessHandle<P> {
    /// The owner of a process tree on this machine.
    pub fn local(program_name: String, terminator: Option<LocalProcessTerminator>) -> (handle: Self)
        ensures
            handle.inner.owned_by(program_name, StdioServerProcessKind::Local(terminator)),
            handle.inner.program_name == program_name,
            handle.inner.kind == StdioServerProcessKind::<P>::Local(terminator),
            handle.inner.cleanup.status is Idle,
            handle.inner.cleanup.next_attempt == 1,
            handle.inner.cleanup.wf(),
    {
        StdioServerProcessHandle {
            inner: StdioServerProcessHandleInner {
                program_name,
                kind: StdioServerProcessKind::Local(terminator),
                cleanup: ProcessCleanupState::new(),
            },
        }
    }

    /// The owner of a process that an executor runs.
    pub fn executor(program_name: String, process: P) -> (handle: Self)
        ensures
            handle.inner.owned_by(program_name, StdioServerProcessKind::Executor(process)),
            handle.inner.program_name == program_name,
            handle.inner.kind == StdioServerProcessKind::Executor(process),
            handle.inner.cleanup.status is Idle,
            handle.inner.cleanup.next_attempt == 1,
            handle.inner.cleanup.wf(),
    {
        StdioServerProcessHandle {
            inner: StdioServerProcessHandleInner {
                program_name,
                kind: StdioServerProcessKind::Executor(process),
                cleanup: ProcessCleanupState::new(),
            },
        }
    }

    /// Starts or joins cleanup of exactly the process tree that is owned.
    pub fn terminate(&mut self) -> (ticket: CleanupTicket)
        ensures
            match old(self).inner.cleanup.status {
                ProcessCleanupStatus::Complete => {
                    &&& ticket == CleanupTicket::AlreadyComplete
                    &&& final(self).inner.cleanup == old(self).inner.cleanup
                },
                ProcessCleanupStatus::Running { attempt, completion } => {
                    &&& ticket == (CleanupTicket::Join { attempt, completion })
                    &&& final(self).inner.cleanup == old(self).inner.cleanup
                },
                ProcessCleanupStatus::Idle | ProcessCleanupStatus::Failed => {
                    &&& ticket matches CleanupTicket::Start { attempt, completion, finished }
                    &&& attempt == old(self).inner.cleanup.next_attempt
                    &&& completion::opened(finished, completion)
                    &&& final(self).inner.cleanup == old(self).inner.cleanup.requested(completion)
                },
            },
            final(self).inner.kind == old(self).inner.kind,
            final(self).inner.program_name == old(self).inner.program_name,
            old(self).inner.cleanup.wf() ==> final(self).inner.cleanup.wf(),
    {
        self.inner.cleanup.request()
    }

    /// Begins a cleanup that is tried again once.
    pub fn terminate_with_retry(&self) -> (retry: CleanupRetry)
        ensures
            retry == CleanupRetry::FirstAttempt,
    {
        CleanupRetry::FirstAttempt
    }
}

/// A retried cleanup makes at most two attempts: the second result ends it, and
/// it succeeds exactly when one of the attempts did.
pub proof fn law_retry_is_bounded(
    first: Result<(), IoError>,
    second: Result<(), IoError>,
    after_first: RetryStep,
    after_second: RetryStep,
)
    requires
        retry_advances(CleanupRetry::FirstAttempt, first, after_first),
        after_first matches RetryStep::Attempt(retry) ==> retry_advances(
            retry,
            second,
            after_second,
        ),
    ensures
        first is Ok ==> after_first == RetryStep::Return(Ok(())),
        first is Err ==> after_first is Attempt && after_second is Return,
        first is Err ==> (after_second == RetryStep::Return(Ok(())) <==> second is Ok),
        first is Err && second is Err ==> {
            &&& after_second matches RetryStep::Return(Err(error))
            &&& error.describes(
                second->Err_0.kind,
                both_failed_text(first->Err_0.message@, second->Err_0.message@),
            )
            &&& error.kind == second->Err_0.kind
            &&& error.message@ == "MCP process cleanup failed: first attempt: "@
                + first->Err_0.message@ + "; retry: "@ + second->Err_0.message@
        },
        first is Err ==> (after_first matches RetryStep::Attempt(CleanupRetry::Retry { first_error })
            && first_error == first->Err_0),
{
}

/// Dropping the last owner never leaves a process tree alone that is not known
/// to be gone, and touches nothing else. A local tree is terminated through its
/// token; a process group that the first signal did not find gone is killed
/// after the grace period, that group and no other. An executor is asked to
/// terminate its process, on the runtime where there is one and in a thread of
/// its own where there is none, and has the same time either way.
pub proof fn law_drop_terminates_what_is_owned<P>(
    inner: StdioServerProcessHandleInner<P>,
    runtime_available: bool,
    action: DropAction<'_, P>,
    term_sent: Result<bool, IoError>,
)
    requires
        inner.drops_to(runtime_available, action),
    ensures
        action is Nothing <==> !inner.may_be_alive(),
        action matches DropAction::Local { terminator, action: performed } ==> {
            &&& inner.kind == StdioServerProcessKind::<P>::Local(Some(terminator))
            &&& terminator.owns(performed)
            &&& performed == ProcessAction::Finished <==> terminator
                == LocalProcessTerminator::Unsupported
            &&& terminator.escalation_spec(term_sent) matches Some(escalation) ==> {
                terminator.owns(
                    ProcessAction::SendKill { process_group_id: escalation.process_group_id },
                )
            }
            &&& performed is SendTerm ==> (terminator.escalation_spec(term_sent) is None
                <==> term_sent == Ok::<bool, IoError>(false))
        },
        action matches DropAction::Executor { process, .. } ==> inner.kind
            == StdioServerProcessKind::Executor(*process),
        action is Nothing <==> inner.cleanup.status is Complete || (
        inner.kind matches StdioServerProcessKind::Local(None)),
        action matches DropAction::Local { terminator, action: performed } ==> match terminator {
            LocalProcessTerminator::ProcessGroup { process_group_id } => {
                &&& performed == (ProcessAction::SendTerm { process_group_id })
                &&& terminator.escalation_spec(term_sent) matches Some(escalation) ==> {
                    &&& escalation.process_group_id == process_group_id
                    &&& escalation.delay == 2_000_000_000
                }
            },
            LocalProcessTerminator::Job { job } => {
                &&& performed == (ProcessAction::TerminateJob { job })
                &&& terminator.escalation_spec(term_sent) is None
            },
            LocalProcessTerminator::Process { process } => {
                &&& performed == (ProcessAction::TerminateProcess { process })
                &&& terminator.escalation_spec(term_sent) is None
            },
            LocalProcessTerminator::Unsupported => {
                &&& performed == ProcessAction::Finished
                &&& terminator.escalation_spec(term_sent) is None
            },
        },
        action matches DropAction::Executor { program_name, timeout, host, .. } ==> {
            &&& timeout == 5_000_000_000
            &&& timeout == EXECUTOR_TERMINATION_TIMEOUT
            &&& program_name@ == inner.program_name@
            &&& host == ExecutorHost::CurrentRuntime <==> runtime_available
            &&& host == ExecutorHost::OwnThread <==> !runtime_available
        },
{
}

/// A drop and a cleanup attempt go for the same target. As long as the tree is not
/// known to be gone, a drop does at once what an attempt does first, through the
/// same token; and it asks the executor for the same process, in the name of the
/// same program, with the same five seconds to answer.
pub proof fn law_drop_and_attempt_agree<P>(
    inner: StdioServerProcessHandleInner<P>,
    runtime_available: bool,
    attempted: OwnedTermination<'_, P>,
    dropped: DropAction<'_, P>,
)
    requires
        call_ensures(
            StdioServerProcessHandleInner::<P>::terminate_owned_process,
            (&inner,),
            attempted,
        ),
        call_ensures(
            StdioServerProcessHandleInner::<P>::terminate_on_drop,
            (&inner, runtime_available),
            dropped,
        ),
        !(inner.cleanup.status is Complete),
    ensures
        attempted is Nothing <==> dropped is Nothing,
        attempted matches OwnedTermination::Local(termination) ==> {
            &&& dropped matches DropAction::Local { terminator, action }
            &&& terminator == termination.terminator
            &&& action == termination.action_spec()
        },
        attempted matches OwnedTermination::Executor { process, program_name, timeout } ==> {
            &&& timeout == 5_000_000_000
            &&& dropped matches DropAction::Executor {
                process: target,
                program_name: name,
                timeout: same_timeout,
                ..
            }
            &&& *target == *process
            &&& name@ == program_name@
            &&& same_timeout == timeout
        },
{
}

} // verus!
