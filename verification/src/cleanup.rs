//! One cleanup of a process tree, shared by everyone who asks for it.

use vstd::prelude::*;

use crate::completion;
use crate::completion::{Announcement, Completion};
use crate::error::{ErrorKind, IoError, ProcessCleanupFailure, ProcessCleanupOutcome};

verus! {

/// `Idle | Failed -> Running -> Complete | Failed`.
///
/// All callers that find an attempt running wait on the same completion. A
/// failed attempt can be retried; a completed one stays completed.
pub enum ProcessCleanupStatus {
    Idle,
    Running { attempt: u64, completion: Completion },
    Complete,
    Failed,
}

/// The cleanup state of one process tree.
pub struct ProcessCleanupState {
    pub next_attempt: u64,
    pub status: ProcessCleanupStatus,
}

/// What a caller that asks for cleanup has to do.
pub enum CleanupTicket {
    /// The tree is gone already.
    AlreadyComplete,
    /// An attempt is running; its completion is to be awaited.
    Join { attempt: u64, completion: Completion },
    /// A new attempt is to be run. It announces its outcome on `finished`, the
    /// sending half of the channel that `completion` is the receiving half of.
    Start { attempt: u64, completion: Completion, finished: Announcement },
}

/// What happened to a completion that a caller waits on.
#[derive(Clone, Copy, Debug, PartialEq, Eq, Structural)]
pub enum CompletionEvent {
    /// The wait begins, or something was announced.
    Ready,
    /// The attempt ended without an announcement that the caller has not seen.
    Closed,
}

/// What a caller that waits on a completion has to do.
pub enum CleanupWait {
    /// The wait is over.
    Return(Result<(), IoError>),
    /// The next change of the completion is to be awaited.
    AwaitChange,
}

/// The number of the attempt after `attempt`.
pub open spec fn attempt_after(attempt: u64) -> u64 {
    if attempt == u64::MAX {
        0
    } else {
        (attempt + 1) as u64
    }
}

/// The outcome that is announced for the result of an attempt.
pub open spec fn outcome_of(result: Result<(), IoError>) -> ProcessCleanupOutcome {
    match result {
        Ok(()) => Ok(()),
        Err(error) => Err(crate::error::recorded(error)),
    }
}

/// What a caller has to do that found `announced` in the completion.
pub open spec fn wait_spec(announced: Option<ProcessCleanupOutcome>) -> CleanupWait {
    match announced {
        None => CleanupWait::AwaitChange,
        Some(Ok(())) => CleanupWait::Return(Ok(())),
        Some(Err(failure)) => CleanupWait::Return(Err(failure.error_spec())),
    }
}

/// The text of the failure of an attempt that ended without an outcome.
pub open spec fn abandoned_text() -> Seq<char> {
    "MCP process cleanup task ended without a result"@
}

impl CleanupTicket {
    /// The result that the caller has at once: success, where the tree is gone
    /// already.
    pub fn result(&self) -> (result: Option<Result<(), IoError>>)
        ensures
            result == Some(Ok::<(), IoError>(())) <==> *self is AlreadyComplete,
            result is None <==> !(*self is AlreadyComplete),
    {
        match self {
            CleanupTicket::AlreadyComplete => Some(Ok(())),
            CleanupTicket::Join { .. } | CleanupTicket::Start { .. } => None,
        }
    }
}

impl ProcessCleanupState {
    /// Before the first attempt its number is still to be given out; the number
    /// after that of a running attempt is the next one to be given out.
    pub open spec fn wf(self) -> bool {
        match self.status {
            ProcessCleanupStatus::Idle => self.next_attempt == 1,
            ProcessCleanupStatus::Running { attempt, .. } => {
                self.next_attempt == attempt_after(attempt)
            },
            ProcessCleanupStatus::Complete | ProcessCleanupStatus::Failed => true,
        }
    }

    /// No attempt yet.
    pub open spec fn initial() -> Self {
        ProcessCleanupState { next_attempt: 1, status: ProcessCleanupStatus::Idle }
    }

    /// Whether a request starts a new attempt.
    pub open spec fn can_start(self) -> bool {
        self.status is Idle || self.status is Failed
    }

    /// Whether the given attempt is the one that is running.
    pub open spec fn runs(self, attempt: u64) -> bool {
        self.status matches ProcessCleanupStatus::Running { attempt: running, .. } && running
            == attempt
    }

    /// The state after a request; `completion` is that of the new attempt where
    /// the request starts one.
    pub open spec fn requested(self, completion: Completion) -> Self {
        if self.can_start() {
            ProcessCleanupState {
                next_attempt: attempt_after(self.next_attempt),
                status: ProcessCleanupStatus::Running { attempt: self.next_attempt, completion },
            }
        } else {
            self
        }
    }

    /// The state after the given attempt has ended. Only the running attempt
    /// counts.
    pub open spec fn finished(self, attempt: u64, succeeded: bool) -> Self {
        if self.runs(attempt) {
            ProcessCleanupState {
                next_attempt: self.next_attempt,
                status: if succeeded {
                    ProcessCleanupStatus::Complete
                } else {
                    ProcessCleanupStatus::Failed
                },
            }
        } else {
            self
        }
    }

    /// The state of a process tree that no cleanup was asked for yet.
    pub fn new() -> (state: Self)
        ensures
            state == Self::initial(),
            state.next_attempt == 1,
            state.status is Idle,
            state.wf(),
    {
        ProcessCleanupState { next_attempt: 1, status: ProcessCleanupStatus::Idle }
    }

    /// Asks for cleanup: nothing is left to do, a running attempt is joined, or
    /// a new one is started.
    pub fn request(&mut self) -> (ticket: CleanupTicket)
        ensures
            match old(self).status {
                ProcessCleanupStatus::Complete => {
                    &&& ticket == CleanupTicket::AlreadyComplete
                    &&& *final(self) == *old(self)
                },
                ProcessCleanupStatus::Running { attempt, completion } => {
                    &&& ticket == (CleanupTicket::Join { attempt, completion })
                    &&& *final(self) == *old(self)
                },
                ProcessCleanupStatus::Idle | ProcessCleanupStatus::Failed => {
                    &&& ticket matches CleanupTicket::Start { attempt, completion, finished }
                    &&& attempt == old(self).next_attempt
                    &&& completion::opened(finished, completion)
                    &&& *final(self) == old(self).requested(completion)
                },
            },
            old(self).wf() ==> final(self).wf(),
    {
        match &self.status {
            ProcessCleanupStatus::Complete => {
                return CleanupTicket::AlreadyComplete;
            },
            ProcessCleanupStatus::Running { attempt, completion } => {
                return CleanupTicket::Join { attempt: *attempt, completion: completion.clone() };
            },
            ProcessCleanupStatus::Idle | ProcessCleanupStatus::Failed => {},
        }
        let attempt: u64 = self.next_attempt;
        self.next_attempt = attempt.wrapping_add(1);
        let (finished, completion) = completion::open_channel();
        self.status = ProcessCleanupStatus::Running { attempt, completion: completion.clone() };
        CleanupTicket::Start { attempt, completion, finished }
    }

    /// Records how an attempt ended. An attempt that is not the running one is
    /// ignored.
    pub fn finish_cleanup_attempt(&mut self, attempt: u64, outcome: ProcessCleanupOutcome)
        ensures
            *final(self) == old(self).finished(attempt, outcome is Ok),
            final(self).next_attempt == old(self).next_attempt,
            match old(self).status {
                ProcessCleanupStatus::Running { attempt: running, .. } => {
                    &&& running != attempt ==> *final(self) == *old(self)
                    &&& running == attempt ==> (final(self).status is Complete <==> outcome is Ok)
                    &&& running == attempt ==> (final(self).status is Failed <==> outcome is Err)
                },
                _ => *final(self) == *old(self),
            },
            old(self).wf() ==> final(self).wf(),
    {
        let running = match &self.status {
            ProcessCleanupStatus::Running { attempt: running_attempt, .. } => {
                *running_attempt == attempt
            },
            _ => false,
        };
        if running {
            self.status = if outcome.is_ok() {
                ProcessCleanupStatus::Complete
            } else {
                ProcessCleanupStatus::Failed
            };
        }
    }

    /// Ends an attempt: its outcome is recorded, then announced to everyone who
    /// waits for it, and returned.
    pub fn conclude_attempt(
        &mut self,
        attempt: u64,
        result: Result<(), IoError>,
        finished: Announcement,
    ) -> (announced: ProcessCleanupOutcome)
        ensures
            *final(self) == old(self).finished(attempt, result is Ok),
            announced == outcome_of(result),
            announced is Ok <==> result is Ok,
            completion::was_announced(finished, outcome_of(result)),
            old(self).wf() ==> final(self).wf(),
    {
        let outcome = match result {
            Ok(()) => Ok(()),
            Err(error) => Err(ProcessCleanupFailure::from(error)),
        };
        self.finish_cleanup_attempt(attempt, copy_outcome(&outcome));
        finished.announce(copy_outcome(&outcome));
        outcome
    }

    /// One turn of the wait for an attempt. On `Ready` the completion is looked
    /// at, and what it holds decides; on `Closed` the attempt has failed.
    pub fn wait_for_cleanup(
        &mut self,
        attempt: u64,
        completion: &Completion,
        event: CompletionEvent,
    ) -> (wait: CleanupWait)
        ensures
            match event {
                CompletionEvent::Ready => {
                    &&& *final(self) == *old(self)
                    &&& exists|held: Option<ProcessCleanupOutcome>| #[trigger]
                        completion::was_found(completion, held) && wait == wait_spec(held)
                },
                CompletionEvent::Closed => {
                    &&& *final(self) == old(self).finished(attempt, false)
                    &&& wait matches CleanupWait::Return(Err(error))
                    &&& error.describes(ErrorKind::BrokenPipe, abandoned_text())
                    &&& error.kind == ErrorKind::BrokenPipe
                    &&& error.message@ == "MCP process cleanup task ended without a result"@
                },
            },
            old(self).wf() ==> final(self).wf(),
    {
        match event {
            CompletionEvent::Ready => wait_step(completion::look(completion)),
            CompletionEvent::Closed => {
                let message = "MCP process cleanup task ended without a result".to_owned();
                let failure = ProcessCleanupFailure {
                    kind: ErrorKind::BrokenPipe,
                    message: message.clone(),
                };
                self.finish_cleanup_attempt(attempt, Err(failure));
                CleanupWait::Return(Err(IoError::new(ErrorKind::BrokenPipe, message)))
            },
        }
    }
}

/// A copy of an outcome.
fn copy_outcome(outcome: &ProcessCleanupOutcome) -> (copy: ProcessCleanupOutcome)
    ensures
        copy == *outcome,
{
    match outcome {
        Ok(done) => Ok(*done),
        Err(failure) => Err(failure.clone()),
    }
}

/// What a caller has to do that found `held` in the completion: return the
/// outcome that was announced, or wait for one.
pub fn wait_step(held: Option<ProcessCleanupOutcome>) -> (wait: CleanupWait)
    ensures
        wait == wait_spec(held),
{
    match held {
        None => CleanupWait::AwaitChange,
        Some(Ok(())) => CleanupWait::Return(Ok(())),
        Some(Err(failure)) => CleanupWait::Return(Err(failure.into_error())),
    }
}

} // verus!
