//! Termination of a process tree that runs on this machine.

use vstd::prelude::*;

use crate::error::{ErrorKind, IoError};
use crate::exit_wait::{
    ExitWait, ExitWaitPhase, ExitWaitStep, ProcessAction, ProcessEvent,
    PROCESS_GROUP_KILL_CONFIRM_PERIOD, PROCESS_GROUP_TERM_GRACE_PERIOD,
};
use crate::text::decimal_string;

verus! {

/// The ownership token of a local process tree, captured when the server is
/// spawned. Nothing but the token ever names a target.
#[derive(Clone, Copy, Debug, PartialEq, Eq, Structural)]
pub enum LocalProcessTerminator {
    /// The process group that the server leads.
    ProcessGroup { process_group_id: u32 },
    /// The raw handle of a job object that owns the complete process tree.
    Job { job: u64 },
    /// The raw handle of the server process, where there is no job object.
    Process { process: u64 },
    /// A process tree on a target without support for its termination.
    Unsupported,
}

/// Where the termination of a process tree stands.
pub enum TerminationState {
    /// SIGTERM is to be sent.
    SendTerm,
    /// SIGTERM was sent; the clock is to be read for the end of the grace period.
    TermClock,
    /// The group is given its grace period.
    TermWait(ExitWait),
    /// SIGKILL is to be sent.
    SendKill,
    /// SIGKILL was sent; the clock is to be read for the end of the confirmation.
    KillClock { kill_error: Option<IoError> },
    /// The disappearance of the group is awaited.
    KillWait { kill_error: Option<IoError>, wait: ExitWait },
    /// The job or the process is to be terminated.
    TerminateHandle,
    /// The termination is over.
    Done(Result<(), IoError>),
}

/// The termination of one process tree, step by step.
pub struct Termination {
    pub terminator: LocalProcessTerminator,
    pub state: TerminationState,
}

/// What is left to do for a process group that was sent SIGTERM on drop.
#[derive(Clone, Copy, Debug, PartialEq, Eq, Structural)]
pub struct Escalation {
    /// The pause, in nanoseconds, before SIGKILL is sent.
    pub delay: u64,
    /// The group that is then sent SIGKILL.
    pub process_group_id: u32,
}

/// The text of the failure to get rid of a process group.
pub open spec fn survived_kill(process_group_id: u32) -> Seq<char> {
    "MCP process group "@ + crate::text::decimal(process_group_id as nat)
        + " still exists after SIGKILL confirmation timeout"@
}

/// Whether `error` reports that the group survived: the failure to send SIGKILL
/// where there was one, or else the failure to look at the group where there
/// was one, or else a timeout that names the group.
pub open spec fn reports_survival(
    error: IoError,
    process_group_id: u32,
    kill_error: Option<IoError>,
    probe_error: Option<IoError>,
) -> bool {
    match (kill_error, probe_error) {
        (Some(kill_error), _) => error == kill_error,
        (None, Some(probe_error)) => error == probe_error,
        (None, None) => error.describes(ErrorKind::TimedOut, survived_kill(process_group_id)),
    }
}

/// The transitions of the termination of a process group.
pub open spec fn group_advances(
    process_group_id: u32,
    pre: TerminationState,
    event: ProcessEvent,
    post: TerminationState,
) -> bool {
    match (pre, event) {
        (TerminationState::SendTerm, ProcessEvent::TermSent(Ok(existed))) => if existed {
            post == TerminationState::TermClock
        } else {
            post == TerminationState::Done(Ok(()))
        },
        (TerminationState::SendTerm, ProcessEvent::TermSent(Err(_))) => {
            post == TerminationState::SendKill
        },
        (TerminationState::TermClock, ProcessEvent::Clock(now)) => {
            post == TerminationState::TermWait(
                LocalProcessTerminator::wait_for_exit_spec(
                    process_group_id,
                    now + PROCESS_GROUP_TERM_GRACE_PERIOD,
                ),
            )
        },
        (TerminationState::TermWait(wait), _) => match wait.step_spec(event) {
            ExitWaitStep::Continue(next) => post == TerminationState::TermWait(next),
            ExitWaitStep::Return(Ok(true)) => post == TerminationState::Done(Ok(())),
            ExitWaitStep::Return(_) => post == TerminationState::SendKill,
        },
        (TerminationState::SendKill, ProcessEvent::KillSent(sent)) => {
            post == TerminationState::KillClock {
                kill_error: match sent {
                    Ok(()) => None,
                    Err(error) => Some(error),
                },
            }
        },
        (TerminationState::KillClock { kill_error }, ProcessEvent::Clock(now)) => {
            post == TerminationState::KillWait {
                kill_error,
                wait: LocalProcessTerminator::wait_for_exit_spec(
                    process_group_id,
                    now + PROCESS_GROUP_KILL_CONFIRM_PERIOD,
                ),
            }
        },
        (TerminationState::KillWait { kill_error, wait }, _) => match wait.step_spec(event) {
            ExitWaitStep::Continue(next) => {
                post == TerminationState::KillWait { kill_error, wait: next }
            },
            ExitWaitStep::Return(Ok(true)) => post == TerminationState::Done(Ok(())),
            ExitWaitStep::Return(Ok(false)) => {
                &&& post matches TerminationState::Done(Err(error))
                &&& reports_survival(error, process_group_id, kill_error, None)
            },
            ExitWaitStep::Return(Err(probe_error)) => {
                &&& post matches TerminationState::Done(Err(error))
                &&& reports_survival(error, process_group_id, kill_error, Some(probe_error))
            },
        },
        _ => post == pre,
    }
}

/// The transitions of the termination of a job or of a process.
pub open spec fn handle_advances(
    pre: TerminationState,
    event: ProcessEvent,
    post: TerminationState,
) -> bool {
    match (pre, event) {
        (TerminationState::TerminateHandle, ProcessEvent::HandleTerminated(Ok(()))) => {
            post == TerminationState::Done(Ok(()))
        },
        (TerminationState::TerminateHandle, ProcessEvent::HandleTerminated(Err(message))) => {
            post == TerminationState::Done(
                Err(IoError { kind: ErrorKind::Other, message }),
            )
        },
        _ => post == pre,
    }
}

/// The transitions of a termination. An event that does not answer the action
/// asked for changes nothing.
pub open spec fn advances(pre: Termination, event: ProcessEvent, post: Termination) -> bool {
    &&& post.terminator == pre.terminator
    &&& match pre.terminator {
        LocalProcessTerminator::ProcessGroup { process_group_id } => group_advances(
            process_group_id,
            pre.state,
            event,
            post.state,
        ),
        LocalProcessTerminator::Job { .. } | LocalProcessTerminator::Process { .. } => {
            handle_advances(pre.state, event, post.state)
        },
        LocalProcessTerminator::Unsupported => post.state == pre.state,
    }
}

impl LocalProcessTerminator {
    /// Whether an action touches no process but those of this tree.
    pub open spec fn owns(self, action: ProcessAction) -> bool {
        match action {
            ProcessAction::SendTerm { process_group_id }
            | ProcessAction::SendKill { process_group_id }
            | ProcessAction::ProbeGroup { process_group_id } => {
                self == LocalProcessTerminator::ProcessGroup { process_group_id }
            },
            ProcessAction::TerminateJob { job } => self == LocalProcessTerminator::Job { job },
            ProcessAction::TerminateProcess { process } => {
                self == LocalProcessTerminator::Process { process }
            },
            ProcessAction::ReadClock
            | ProcessAction::Sleep { .. }
            | ProcessAction::Finished => true,
        }
    }

    /// A wait for the group that begins with a look at it.
    pub open spec fn wait_for_exit_spec(process_group_id: u32, deadline: int) -> ExitWait {
        ExitWait { process_group_id, deadline: deadline as u64, phase: ExitWaitPhase::Probe }
    }

    /// The termination of the tree, before its first action.
    pub open spec fn terminate_spec(self) -> Termination {
        Termination {
            terminator: self,
            state: match self {
                LocalProcessTerminator::ProcessGroup { .. } => TerminationState::SendTerm,
                LocalProcessTerminator::Job { .. } | LocalProcessTerminator::Process { .. } => {
                    TerminationState::TerminateHandle
                },
                LocalProcessTerminator::Unsupported => TerminationState::Done(Ok(())),
            },
        }
    }

    /// The one action that is performed at once when the last owner is dropped.
    pub open spec fn terminate_on_drop_spec(self) -> ProcessAction {
        match self {
            LocalProcessTerminator::ProcessGroup { process_group_id } => ProcessAction::SendTerm {
                process_group_id,
            },
            LocalProcessTerminator::Job { job } => ProcessAction::TerminateJob { job },
            LocalProcessTerminator::Process { process } => ProcessAction::TerminateProcess {
                process,
            },
            LocalProcessTerminator::Unsupported => ProcessAction::Finished,
        }
    }

    /// What follows the SIGTERM of a drop: SIGKILL for the owned group after the
    /// grace period, unless the group was found gone.
    pub open spec fn escalation_spec(self, term_sent: Result<bool, IoError>) -> Option<Escalation> {
        match self {
            LocalProcessTerminator::ProcessGroup { process_group_id } => if term_sent == Ok::<
                bool,
                IoError,
            >(false) {
                None
            } else {
                Some(Escalation { delay: PROCESS_GROUP_TERM_GRACE_PERIOD, process_group_id })
            },
            _ => None,
        }
    }

    /// The token of a server that leads the given process group, on a target
    /// with process groups.
    pub fn new(process_group_id: u32) -> (terminator: Self)
        ensures
            terminator == (LocalProcessTerminator::ProcessGroup { process_group_id }),
    {
        LocalProcessTerminator::ProcessGroup { process_group_id }
    }

    /// Begins the termination of the tree.
    pub fn terminate(&self) -> (termination: Termination)
        ensures
            termination == self.terminate_spec(),
            termination.wf(),
    {
        let state = match self {
            LocalProcessTerminator::ProcessGroup { .. } => TerminationState::SendTerm,
            LocalProcessTerminator::Job { .. } => TerminationState::TerminateHandle,
            LocalProcessTerminator::Process { .. } => TerminationState::TerminateHandle,
            LocalProcessTerminator::Unsupported => TerminationState::Done(Ok(())),
        };
        Termination { terminator: *self, state }
    }

    /// Begins a wait for the group to disappear, given up at the deadline.
    pub fn wait_for_exit(process_group_id: u32, deadline: u64) -> (wait: ExitWait)
        ensures
            wait == Self::wait_for_exit_spec(process_group_id, deadline as int),
            wait.process_group_id == process_group_id,
            wait.deadline == deadline,
            wait.phase == ExitWaitPhase::Probe,
    {
        ExitWait { process_group_id, deadline, phase: ExitWaitPhase::Probe }
    }

    /// The action that is performed at once when the last owner is dropped.
    pub fn terminate_on_drop(&self) -> (action: ProcessAction)
        ensures
            action == self.terminate_on_drop_spec(),
            self.owns(action),
    {
        match self {
            LocalProcessTerminator::ProcessGroup { process_group_id } => ProcessAction::SendTerm {
                process_group_id: *process_group_id,
            },
            LocalProcessTerminator::Job { job } => ProcessAction::TerminateJob { job: *job },
            LocalProcessTerminator::Process { process } => ProcessAction::TerminateProcess {
                process: *process,
            },
            LocalProcessTerminator::Unsupported => ProcessAction::Finished,
        }
    }

    /// What follows the SIGTERM of a drop: nothing for a group that did not
    /// exist, or else SIGKILL after the grace period. A group that could not be
    /// sent SIGTERM is killed too. Only a process group is sent signals.
    pub fn escalate_on_drop(&self, term_sent: &Result<bool, IoError>) -> (escalation: Option<
        Escalation,
    >)
        ensures
            escalation == self.escalation_spec(*term_sent),
            escalation is Some <==> *self is ProcessGroup && *term_sent != Ok::<bool, IoError>(
                false,
            ),
            escalation matches Some(escalation) ==> escalation.delay
                == PROCESS_GROUP_TERM_GRACE_PERIOD,
            escalation matches Some(escalation) ==> *self == (LocalProcessTerminator::ProcessGroup {
                process_group_id: escalation.process_group_id,
            }),
    {
        let should_escalate = match term_sent {
            Ok(existed) => *existed,
            Err(_) => true,
        };
        match self {
            LocalProcessTerminator::ProcessGroup { process_group_id } if should_escalate => Some(
                Escalation {
                    delay: PROCESS_GROUP_TERM_GRACE_PERIOD,
                    process_group_id: *process_group_id,
                },
            ),
            _ => None,
        }
    }
}

/// The failure to get rid of a process group that SIGKILL was sent to.
fn survived_kill_error(process_group_id: u32) -> (error: IoError)
    ensures
        error.describes(ErrorKind::TimedOut, survived_kill(process_group_id)),
{
    let mut message = "MCP process group ".to_owned();
    message.append(decimal_string(process_group_id as u64).as_str());
    message.append(" still exists after SIGKILL confirmation timeout");
    IoError::new(ErrorKind::TimedOut, message)
}

impl Termination {
    /// The token and the state fit together, and a wait is for the owned group.
    pub open spec fn wf(self) -> bool {
        match self.terminator {
            LocalProcessTerminator::ProcessGroup { process_group_id } => match self.state {
                TerminationState::TermWait(wait) => wait.process_group_id == process_group_id,
                TerminationState::KillWait { wait, .. } => {
                    wait.process_group_id == process_group_id
                },
                TerminationState::TerminateHandle => false,
                _ => true,
            },
            LocalProcessTerminator::Job { .. } | LocalProcessTerminator::Process { .. } => {
                self.state is TerminateHandle || self.state is Done
            },
            LocalProcessTerminator::Unsupported => self.state is Done,
        }
    }

    /// The action that the termination asks for.
    pub open spec fn action_spec(self) -> ProcessAction {
        match (self.state, self.terminator) {
            (
                TerminationState::SendTerm,
                LocalProcessTerminator::ProcessGroup { process_group_id },
            ) => ProcessAction::SendTerm { process_group_id },
            (
                TerminationState::SendKill,
                LocalProcessTerminator::ProcessGroup { process_group_id },
            ) => ProcessAction::SendKill { process_group_id },
            (TerminationState::TermClock, _) => ProcessAction::ReadClock,
            (TerminationState::KillClock { .. }, _) => ProcessAction::ReadClock,
            (TerminationState::TermWait(wait), _) => wait.action_spec(),
            (TerminationState::KillWait { wait, .. }, _) => wait.action_spec(),
            (TerminationState::TerminateHandle, LocalProcessTerminator::Job { job }) => {
                ProcessAction::TerminateJob { job }
            },
            (TerminationState::TerminateHandle, LocalProcessTerminator::Process { process }) => {
                ProcessAction::TerminateProcess { process }
            },
            _ => ProcessAction::Finished,
        }
    }

    /// The result of a termination that is over.
    pub open spec fn result_spec(self) -> Option<Result<(), IoError>> {
        match self.state {
            TerminationState::Done(result) => Some(result),
            _ => None,
        }
    }

    /// The result of a termination that is over.
    pub fn result(self) -> (result: Option<Result<(), IoError>>)
        ensures
            result == self.result_spec(),
    {
        match self.state {
            TerminationState::Done(result) => Some(result),
            _ => None,
        }
    }

    /// Whether the deadline that an event fixes, if any, can be represented.
    pub open spec fn deadline_fits(self, event: ProcessEvent) -> bool {
        event matches ProcessEvent::Clock(now) ==> {
            &&& self.state is TermClock ==> now + PROCESS_GROUP_TERM_GRACE_PERIOD <= u64::MAX
            &&& self.state is KillClock ==> now + PROCESS_GROUP_KILL_CONFIRM_PERIOD <= u64::MAX
        }
    }

    /// The action that the termination asks for.
    pub fn action(&self) -> (action: ProcessAction)
        ensures
            action == self.action_spec(),
            self.wf() ==> self.terminator.owns(action),
            self.wf() ==> (action == ProcessAction::Finished <==> self.state is Done),
    {
        match &self.state {
            TerminationState::SendTerm => match self.terminator {
                LocalProcessTerminator::ProcessGroup { process_group_id } => {
                    ProcessAction::SendTerm { process_group_id }
                },
                _ => ProcessAction::Finished,
            },
            TerminationState::SendKill => match self.terminator {
                LocalProcessTerminator::ProcessGroup { process_group_id } => {
                    ProcessAction::SendKill { process_group_id }
                },
                _ => ProcessAction::Finished,
            },
            TerminationState::TermClock => ProcessAction::ReadClock,
            TerminationState::KillClock { .. } => ProcessAction::ReadClock,
            TerminationState::TermWait(wait) => wait.action(),
            TerminationState::KillWait { wait, .. } => wait.action(),
            TerminationState::TerminateHandle => match self.terminator {
                LocalProcessTerminator::Job { job } => ProcessAction::TerminateJob { job },
                LocalProcessTerminator::Process { process } => ProcessAction::TerminateProcess {
                    process,
                },
                _ => ProcessAction::Finished,
            },
            TerminationState::Done(_) => ProcessAction::Finished,
        }
    }

    /// Hands the termination an event.
    pub fn step(self, event: ProcessEvent) -> (next: Self)
        requires
            self.deadline_fits(event),
        ensures
            advances(self, event, next),
            self.wf() ==> next.wf(),
    {
        let terminator = self.terminator;
        let state = match terminator {
            LocalProcessTerminator::ProcessGroup { process_group_id } => Self::step_group(
                process_group_id,
                self.state,
                event,
            ),
            LocalProcessTerminator::Job { .. } => Self::step_handle(self.state, event),
            LocalProcessTerminator::Process { .. } => Self::step_handle(self.state, event),
            LocalProcessTerminator::Unsupported => self.state,
        };
        Termination { terminator, state }
    }

    fn step_handle(state: TerminationState, event: ProcessEvent) -> (next: TerminationState)
        ensures
            handle_advances(state, event, next),
    {
        match (state, event) {
            (TerminationState::TerminateHandle, ProcessEvent::HandleTerminated(terminated)) => {
                match terminated {
                    Ok(()) => TerminationState::Done(Ok(())),
                    Err(message) => TerminationState::Done(Err(IoError::other(message))),
                }
            },
            (state, _) => state,
        }
    }

    fn step_group(process_group_id: u32, state: TerminationState, event: ProcessEvent) -> (next:
        TerminationState)
        requires
            (Termination {
                terminator: LocalProcessTerminator::ProcessGroup { process_group_id },
                state,
            }).deadline_fits(event),
        ensures
            group_advances(process_group_id, state, event, next),
    {
        match (state, event) {
            (TerminationState::SendTerm, ProcessEvent::TermSent(sent)) => match sent {
                Ok(true) => TerminationState::TermClock,
                Ok(false) => TerminationState::Done(Ok(())),
                Err(_) => TerminationState::SendKill,
            },
            (TerminationState::TermClock, ProcessEvent::Clock(now)) => TerminationState::TermWait(
                LocalProcessTerminator::wait_for_exit(
                    process_group_id,
                    now + PROCESS_GROUP_TERM_GRACE_PERIOD,
                ),
            ),
            (TerminationState::TermWait(wait), event) => match wait.step(event) {
                ExitWaitStep::Continue(next) => TerminationState::TermWait(next),
                ExitWaitStep::Return(Ok(true)) => TerminationState::Done(Ok(())),
                ExitWaitStep::Return(_) => TerminationState::SendKill,
            },
            (TerminationState::SendKill, ProcessEvent::KillSent(sent)) => {
                TerminationState::KillClock {
                    kill_error: match sent {
                        Ok(()) => None,
                        Err(error) => Some(error),
                    },
                }
            },
            (TerminationState::KillClock { kill_error }, ProcessEvent::Clock(now)) => {
                TerminationState::KillWait {
                    kill_error,
                    wait: LocalProcessTerminator::wait_for_exit(
                        process_group_id,
                        now + PROCESS_GROUP_KILL_CONFIRM_PERIOD,
                    ),
                }
            },
            (TerminationState::KillWait { kill_error, wait }, event) => match wait.step(event) {
                ExitWaitStep::Continue(next) => TerminationState::KillWait {
                    kill_error,
                    wait: next,
                },
                ExitWaitStep::Return(Ok(true)) => TerminationState::Done(Ok(())),
                ExitWaitStep::Return(Ok(false)) => TerminationState::Done(
                    Err(
                        match kill_error {
                            Some(error) => error,
                            None => survived_kill_error(process_group_id),
                        },
                    ),
                ),
                ExitWaitStep::Return(Err(probe_error)) => TerminationState::Done(
                    Err(
                        match kill_error {
                            Some(error) => error,
                            None => probe_error,
                        },
                    ),
                ),
            },
            (state, _) => state,
        }
    }
}

} // verus!
