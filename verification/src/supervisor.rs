//! Supervision of a local stdio MCP process group.
//!
//! The supervisor runs the target program as its child, in its own process
//! group. It ends with the target's exit code, or terminates the group once its
//! parent is gone. Time is counted in nanoseconds.

use vstd::prelude::*;

use crate::error::{ErrorKind, IoError};

verus! {

/// The first argument that makes an executable act as the supervisor.
pub const CODEX_MCP_PROCESS_SUPERVISOR_ARG1: &'static str = "--codex-mcp-process-supervisor";

/// The pause between two looks at the target and the parent.
pub const PARENT_POLL_INTERVAL: u64 = 25_000_000;

/// How long the group may take to react to SIGTERM.
pub const PROCESS_GROUP_TERM_GRACE_PERIOD: u64 = 2_000_000_000;

/// The program to supervise and its arguments.
pub struct SupervisedCommand<A> {
    pub program: A,
    pub args: Vec<A>,
}

/// The signals that the supervisor deals with.
#[derive(Clone, Copy, Debug, PartialEq, Eq, Structural)]
pub enum Signal {
    Term,
    Int,
    Hup,
    Kill,
}

/// The standard streams that the supervisor leaves to the target.
#[derive(Clone, Copy, Debug, PartialEq, Eq, Structural)]
pub enum StandardStream {
    Stdin,
    Stdout,
    Stderr,
}

/// How the target ended: with an exit code, or by a signal.
#[derive(Clone, Copy, Debug, PartialEq, Eq, Structural)]
pub struct TargetStatus {
    pub code: Option<i32>,
    pub signal: Option<i32>,
}

/// What came of sending the null signal to the parent: the value returned, and
/// whether the error number was then set to that of an operation that is not
/// permitted.
#[derive(Clone, Copy, Debug, PartialEq, Eq, Structural)]
pub struct ParentProbe {
    pub returned: i32,
    pub not_permitted: bool,
}

/// Where the termination of the group stands.
#[derive(Clone, Copy, Debug, PartialEq, Eq, Structural)]
pub enum GroupTerminationStep {
    /// SIGTERM is to be sent.
    Term,
    /// The grace period is to be waited for.
    Grace,
    /// SIGKILL is to be sent.
    Kill,
    /// The supervisor is to exit.
    Exit,
}

/// The termination of the supervisor's own group, which the supervisor does not
/// outlive.
#[derive(Clone, Copy, Debug, PartialEq, Eq, Structural)]
pub struct GroupTermination {
    pub process_group_id: i32,
    pub step: GroupTerminationStep,
}

/// What the embedding program is asked to do for the supervisor.
#[derive(Clone, Copy, Debug, PartialEq, Eq, Structural)]
pub enum SupervisorAction {
    /// Read the IDs of the parent and of the process group; report `Ids`.
    ReadIds,
    /// Spawn the command with the standard streams inherited; report `Spawned`.
    SpawnTarget,
    /// Ignore the signal from now on; report `Performed`.
    IgnoreSignal(Signal),
    /// Close the stream; report `Performed`.
    CloseStream(StandardStream),
    /// Find out whether the target has ended; report `Polled`.
    PollTarget,
    /// Read the ID of the parent; report `ParentRead`.
    ReadParent,
    /// Send the null signal to the process; report `ParentProbed`.
    ProbeParent { pid: i32 },
    /// Pause; report `Performed`.
    Sleep { nanos: u64 },
    /// Send the signal to the group; report `Performed`.
    SignalGroup { process_group_id: i32, signal: Signal },
    /// Exit with the code, without any cleanup of the process.
    ExitAtOnce { code: i32 },
    /// Exit with the code.
    Exit { code: i32 },
}

/// What the embedding program observed when it performed an action.
pub enum SupervisorEvent {
    /// The IDs of the parent and of the process group.
    Ids { parent_pid: i32, process_group_id: i32 },
    /// Whether the target was spawned.
    Spawned(Result<(), IoError>),
    /// The action was performed.
    Performed,
    /// How the target has ended, if it has.
    Polled(Result<Option<TargetStatus>, IoError>),
    /// The ID of the parent.
    ParentRead(i32),
    /// What came of the null signal.
    ParentProbed(ParentProbe),
}

/// Where the supervisor stands.
pub enum SupervisorPhase {
    ReadIds,
    Spawn,
    Ignore(Signal),
    Close(StandardStream),
    Poll,
    ReadParent,
    ProbeParent,
    Sleep,
    Terminate(GroupTermination),
    Done(Result<i32, IoError>),
}

/// The supervisor of one target.
pub struct Supervisor<A> {
    pub command: Option<SupervisedCommand<A>>,
    pub parent_pid: i32,
    pub process_group_id: i32,
    pub phase: SupervisorPhase,
}

/// The text of the failure to name a target.
pub open spec fn no_target_text() -> Seq<char> {
    "MCP process supervisor requires a target program"@
}

/// The text of the failure to find a parent and a process group.
pub open spec fn no_parent_text() -> Seq<char> {
    "MCP process supervisor requires a live parent and process group"@
}

/// The exit code that reports how the target ended.
pub open spec fn exit_code_spec(status: TargetStatus) -> int {
    match (status.code, status.signal) {
        (Some(code), _) => code as int,
        (None, Some(signal)) => 128 + signal,
        (None, None) => 1,
    }
}

/// Whether the exit code that reports how the target ended can be represented.
pub open spec fn exit_code_fits(status: TargetStatus) -> bool {
    exit_code_spec(status) <= i32::MAX
}

/// Whether the parent is alive. It is not if the supervisor has another parent
/// by now; or else the null signal decides, and nothing is known before that.
pub open spec fn parent_is_alive_spec(
    parent_pid: i32,
    current_parent: i32,
    probe: Option<ParentProbe>,
) -> Option<bool> {
    if current_parent != parent_pid {
        Some(false)
    } else {
        match probe {
            None => None,
            Some(probe) => Some(probe.returned == 0 || probe.not_permitted),
        }
    }
}

/// Splits the arguments of the supervisor: after its own name and its flag come
/// the target program and the target's arguments.
pub fn supervised_command<A>(argv: Vec<A>) -> (command: Result<SupervisedCommand<A>, IoError>)
    ensures
        argv@.len() > 2 ==> {
            &&& command matches Ok(command)
            &&& command.program == argv@[2]
            &&& command.args@ == argv@.skip(3)
        },
        argv@.len() <= 2 ==> {
            &&& command matches Err(error)
            &&& error.describes(ErrorKind::InvalidInput, no_target_text())
            &&& error.kind == ErrorKind::InvalidInput
            &&& error.message@ == "MCP process supervisor requires a target program"@
        },
{
    let mut argv = argv;
    if argv.len() > 2 {
        let args = argv.split_off(3);
        if let Some(program) = argv.pop() {
            return Ok(SupervisedCommand { program, args });
        }
    }
    Err(
        IoError::new(
            ErrorKind::InvalidInput,
            "MCP process supervisor requires a target program".to_owned(),
        ),
    )
}

/// The exit code that reports how the target ended: its own, or 128 and the
/// number of the signal that ended it, or 1.
pub fn exit_code(status: TargetStatus) -> (code: i32)
    requires
        exit_code_fits(status),
    ensures
        code == exit_code_spec(status),
        status.code matches Some(own) ==> code == own,
        status.code is None ==> (status.signal matches Some(signal) ==> code == 128 + signal),
        status.code is None && status.signal is None ==> code == 1,
{
    match (status.code, status.signal) {
        (Some(code), _) => code,
        (None, Some(signal)) => 128 + signal,
        (None, None) => 1,
    }
}

/// Whether the parent is alive, as far as is known: `None` asks for a probe.
pub fn parent_is_alive(parent_pid: i32, current_parent: i32, probe: Option<ParentProbe>) -> (alive:
    Option<bool>)
    ensures
        alive == parent_is_alive_spec(parent_pid, current_parent, probe),
        alive is None <==> current_parent == parent_pid && probe is None,
        alive == Some(true) <==> current_parent == parent_pid && (probe matches Some(probe) && (
        probe.returned == 0 || probe.not_permitted)),
{
    if current_parent != parent_pid {
        return Some(false);
    }
    match probe {
        None => None,
        Some(probe) => Some(probe.returned == 0 || probe.not_permitted),
    }
}

/// The exit code of the supervisor: what it came to, or 1 where it failed.
pub fn run_mcp_process_supervisor_main(result: &Result<i32, IoError>) -> (code: i32)
    ensures
        code == match *result {
            Ok(code) => code,
            Err(_) => 1,
        },
{
    match result {
        Ok(code) => *code,
        Err(_) => 1,
    }
}

/// Begins the termination of the group.
pub fn terminate_process_group(process_group_id: i32) -> (termination: GroupTermination)
    ensures
        termination == GroupTermination::begin(process_group_id),
        termination.process_group_id == process_group_id,
        termination.step == GroupTerminationStep::Term,
{
    GroupTermination { process_group_id, step: GroupTerminationStep::Term }
}

impl GroupTermination {
    /// The termination of the group, before its first action.
    pub open spec fn begin(process_group_id: i32) -> Self {
        GroupTermination { process_group_id, step: GroupTerminationStep::Term }
    }

    /// The action that the termination asks for.
    pub open spec fn action_spec(self) -> SupervisorAction {
        let process_group_id = self.process_group_id;
        match self.step {
            GroupTerminationStep::Term => SupervisorAction::SignalGroup {
                process_group_id,
                signal: Signal::Term,
            },
            GroupTerminationStep::Grace => SupervisorAction::Sleep {
                nanos: PROCESS_GROUP_TERM_GRACE_PERIOD,
            },
            GroupTerminationStep::Kill => SupervisorAction::SignalGroup {
                process_group_id,
                signal: Signal::Kill,
            },
            GroupTerminationStep::Exit => SupervisorAction::ExitAtOnce { code: 1 },
        }
    }

    /// The termination after its action was performed.
    pub open spec fn performed_spec(self) -> Self {
        GroupTermination {
            process_group_id: self.process_group_id,
            step: match self.step {
                GroupTerminationStep::Term => GroupTerminationStep::Grace,
                GroupTerminationStep::Grace => GroupTerminationStep::Kill,
                GroupTerminationStep::Kill => GroupTerminationStep::Exit,
                GroupTerminationStep::Exit => GroupTerminationStep::Exit,
            },
        }
    }

    /// The action that the termination asks for.
    pub fn action(&self) -> (action: SupervisorAction)
        ensures
            action == self.action_spec(),
    {
        let process_group_id: i32 = self.process_group_id;
        match self.step {
            GroupTerminationStep::Term => SupervisorAction::SignalGroup {
                process_group_id,
                signal: Signal::Term,
            },
            GroupTerminationStep::Grace => SupervisorAction::Sleep {
                nanos: PROCESS_GROUP_TERM_GRACE_PERIOD,
            },
            GroupTerminationStep::Kill => SupervisorAction::SignalGroup {
                process_group_id,
                signal: Signal::Kill,
            },
            GroupTerminationStep::Exit => SupervisorAction::ExitAtOnce { code: 1 },
        }
    }

    /// The termination after its action was performed.
    pub fn performed(self) -> (next: Self)
        ensures
            next == self.performed_spec(),
            next.process_group_id == self.process_group_id,
            self.step == GroupTerminationStep::Term <==> next.step == GroupTerminationStep::Grace,
            self.step == GroupTerminationStep::Grace <==> next.step == GroupTerminationStep::Kill,
    {
        GroupTermination {
            process_group_id: self.process_group_id,
            step: match self.step {
                GroupTerminationStep::Term => GroupTerminationStep::Grace,
                GroupTerminationStep::Grace => GroupTerminationStep::Kill,
                GroupTerminationStep::Kill => GroupTerminationStep::Exit,
                GroupTerminationStep::Exit => GroupTerminationStep::Exit,
            },
        }
    }
}

/// What follows once a signal is ignored: the next one, then the streams.
pub open spec fn after_ignoring(signal: Signal) -> SupervisorPhase {
    match signal {
        Signal::Term => SupervisorPhase::Ignore(Signal::Int),
        Signal::Int => SupervisorPhase::Ignore(Signal::Hup),
        _ => SupervisorPhase::Close(StandardStream::Stdin),
    }
}

/// What follows once a stream is closed: the next one, then the supervision.
pub open spec fn after_closing(stream: StandardStream) -> SupervisorPhase {
    match stream {
        StandardStream::Stdin => SupervisorPhase::Close(StandardStream::Stdout),
        StandardStream::Stdout => SupervisorPhase::Close(StandardStream::Stderr),
        StandardStream::Stderr => SupervisorPhase::Poll,
    }
}

/// What follows once it is known, or not yet known, whether the parent is alive.
pub open spec fn after_parent_check(
    process_group_id: i32,
    alive: Option<bool>,
) -> SupervisorPhase {
    match alive {
        None => SupervisorPhase::ProbeParent,
        Some(true) => SupervisorPhase::Sleep,
        Some(false) => SupervisorPhase::Terminate(GroupTermination::begin(process_group_id)),
    }
}

impl<A> Supervisor<A> {
    /// Whether `post` is the same supervisor in another phase.
    pub open spec fn moves_to(self, post: Self, phase: SupervisorPhase) -> bool {
        post == (Supervisor { phase, ..self })
    }

    /// The transitions of the supervisor. An event that does not answer the
    /// action asked for changes nothing.
    pub open spec fn advances(self, event: SupervisorEvent, post: Self) -> bool {
        match (self.phase, event) {
            (
                SupervisorPhase::ReadIds,
                SupervisorEvent::Ids { parent_pid, process_group_id },
            ) => if parent_pid <= 1 || process_group_id <= 0 {
                &&& post.phase matches SupervisorPhase::Done(Err(error))
                &&& error.describes(ErrorKind::Other, no_parent_text())
                &&& self.moves_to(post, post.phase)
            } else {
                post == (Supervisor {
                    parent_pid,
                    process_group_id,
                    phase: SupervisorPhase::Spawn,
                    ..self
                })
            },
            (SupervisorPhase::Spawn, SupervisorEvent::Spawned(Ok(()))) => self.moves_to(
                post,
                SupervisorPhase::Ignore(Signal::Term),
            ),
            (SupervisorPhase::Spawn, SupervisorEvent::Spawned(Err(error))) => self.moves_to(
                post,
                SupervisorPhase::Done(Err(error)),
            ),
            (SupervisorPhase::Ignore(signal), SupervisorEvent::Performed) => self.moves_to(
                post,
                after_ignoring(signal),
            ),
            (SupervisorPhase::Close(stream), SupervisorEvent::Performed) => self.moves_to(
                post,
                after_closing(stream),
            ),
            (SupervisorPhase::Poll, SupervisorEvent::Polled(Ok(Some(status)))) => self.moves_to(
                post,
                SupervisorPhase::Done(Ok(exit_code_spec(status) as i32)),
            ),
            (SupervisorPhase::Poll, SupervisorEvent::Polled(Ok(None))) => self.moves_to(
                post,
                SupervisorPhase::ReadParent,
            ),
            (SupervisorPhase::Poll, SupervisorEvent::Polled(Err(error))) => self.moves_to(
                post,
                SupervisorPhase::Done(Err(error)),
            ),
            (SupervisorPhase::ReadParent, SupervisorEvent::ParentRead(current)) => self.moves_to(
                post,
                after_parent_check(
                    self.process_group_id,
                    parent_is_alive_spec(self.parent_pid, current, None),
                ),
            ),
            (SupervisorPhase::ProbeParent, SupervisorEvent::ParentProbed(probe)) => self.moves_to(
                post,
                after_parent_check(
                    self.process_group_id,
                    parent_is_alive_spec(self.parent_pid, self.parent_pid, Some(probe)),
                ),
            ),
            (SupervisorPhase::Sleep, SupervisorEvent::Performed) => self.moves_to(
                post,
                SupervisorPhase::Poll,
            ),
            (
                SupervisorPhase::Terminate(termination),
                SupervisorEvent::Performed,
            ) => self.moves_to(post, SupervisorPhase::Terminate(termination.performed_spec())),
            _ => post == self,
        }
    }

    /// Whether the supervisor was started with these arguments.
    pub open spec fn started_with(self, argv: Seq<A>) -> bool {
        if argv.len() > 2 {
            &&& self.phase == SupervisorPhase::ReadIds
            &&& self.command matches Some(command)
            &&& command.program == argv[2]
            &&& command.args@ == argv.skip(3)
        } else {
            &&& self.phase matches SupervisorPhase::Done(Err(error))
            &&& error.describes(ErrorKind::InvalidInput, no_target_text())
            &&& self.command is None
        }
    }

    /// Before the target is spawned, and as long as it is supervised, there is a
    /// target, a parent and a process group, and no other group is terminated.
    pub open spec fn wf(self) -> bool {
        match self.phase {
            SupervisorPhase::ReadIds => self.command is Some,
            SupervisorPhase::Done(_) => true,
            SupervisorPhase::Ignore(signal) => {
                self.command is Some && self.parent_pid > 1 && self.process_group_id > 0
                    && signal != Signal::Kill
            },
            SupervisorPhase::Terminate(termination) => {
                &&& self.command is Some && self.parent_pid > 1 && self.process_group_id > 0
                &&& termination.process_group_id == self.process_group_id
            },
            _ => self.command is Some && self.parent_pid > 1 && self.process_group_id > 0,
        }
    }

    /// The action that the supervisor asks for.
    pub open spec fn action_spec(self) -> SupervisorAction {
        match self.phase {
            SupervisorPhase::ReadIds => SupervisorAction::ReadIds,
            SupervisorPhase::Spawn => SupervisorAction::SpawnTarget,
            SupervisorPhase::Ignore(signal) => SupervisorAction::IgnoreSignal(signal),
            SupervisorPhase::Close(stream) => SupervisorAction::CloseStream(stream),
            SupervisorPhase::Poll => SupervisorAction::PollTarget,
            SupervisorPhase::ReadParent => SupervisorAction::ReadParent,
            SupervisorPhase::ProbeParent => SupervisorAction::ProbeParent { pid: self.parent_pid },
            SupervisorPhase::Sleep => SupervisorAction::Sleep { nanos: PARENT_POLL_INTERVAL },
            SupervisorPhase::Terminate(termination) => termination.action_spec(),
            SupervisorPhase::Done(Ok(code)) => SupervisorAction::Exit { code },
            SupervisorPhase::Done(Err(_)) => SupervisorAction::Exit { code: 1 },
        }
    }

    /// Whether the exit code that an event brings, if any, can be represented.
    pub open spec fn code_fits(self, event: SupervisorEvent) -> bool {
        self.phase is Poll ==> (event matches SupervisorEvent::Polled(Ok(Some(status)))
            ==> exit_code_fits(status))
    }

    /// The action that the supervisor asks for.
    pub fn action(&self) -> (action: SupervisorAction)
        ensures
            action == self.action_spec(),
    {
        match &self.phase {
            SupervisorPhase::ReadIds => SupervisorAction::ReadIds,
            SupervisorPhase::Spawn => SupervisorAction::SpawnTarget,
            SupervisorPhase::Ignore(signal) => SupervisorAction::IgnoreSignal(*signal),
            SupervisorPhase::Close(stream) => SupervisorAction::CloseStream(*stream),
            SupervisorPhase::Poll => SupervisorAction::PollTarget,
            SupervisorPhase::ReadParent => SupervisorAction::ReadParent,
            SupervisorPhase::ProbeParent => SupervisorAction::ProbeParent { pid: self.parent_pid },
            SupervisorPhase::Sleep => SupervisorAction::Sleep { nanos: PARENT_POLL_INTERVAL },
            SupervisorPhase::Terminate(termination) => termination.action(),
            SupervisorPhase::Done(result) => SupervisorAction::Exit {
                code: run_mcp_process_supervisor_main(result),
            },
        }
    }

    /// Hands the supervisor an event.
    pub fn step(self, event: SupervisorEvent) -> (next: Self)
        requires
            self.code_fits(event),
        ensures
            self.advances(event, next),
            self.wf() ==> next.wf(),
    {
        let mut next = self;
        match (next.phase, event) {
            (
                SupervisorPhase::ReadIds,
                SupervisorEvent::Ids { parent_pid, process_group_id },
            ) => {
                if parent_pid <= 1 || process_group_id <= 0 {
                    next.phase = SupervisorPhase::Done(
                        Err(
                            IoError::other(
                                "MCP process supervisor requires a live parent and process group".to_owned(),
                            ),
                        ),
                    );
                } else {
                    next.parent_pid = parent_pid;
                    next.process_group_id = process_group_id;
                    next.phase = SupervisorPhase::Spawn;
                }
            },
            (SupervisorPhase::Spawn, SupervisorEvent::Spawned(spawned)) => {
                next.phase = match spawned {
                    Ok(()) => SupervisorPhase::Ignore(Signal::Term),
                    Err(error) => SupervisorPhase::Done(Err(error)),
                };
            },
            (SupervisorPhase::Ignore(signal), SupervisorEvent::Performed) => {
                next.phase = match signal {
                    Signal::Term => SupervisorPhase::Ignore(Signal::Int),
                    Signal::Int => SupervisorPhase::Ignore(Signal::Hup),
                    _ => SupervisorPhase::Close(StandardStream::Stdin),
                };
            },
            (SupervisorPhase::Close(stream), SupervisorEvent::Performed) => {
                next.phase = match stream {
                    StandardStream::Stdin => SupervisorPhase::Close(StandardStream::Stdout),
                    StandardStream::Stdout => SupervisorPhase::Close(StandardStream::Stderr),
                    StandardStream::Stderr => SupervisorPhase::Poll,
                };
            },
            (SupervisorPhase::Poll, SupervisorEvent::Polled(polled)) => {
                next.phase = match polled {
                    Ok(Some(status)) => SupervisorPhase::Done(Ok(exit_code(status))),
                    Ok(None) => SupervisorPhase::ReadParent,
                    Err(error) => SupervisorPhase::Done(Err(error)),
                };
            },
            (SupervisorPhase::ReadParent, SupervisorEvent::ParentRead(current)) => {
                next.phase = next_after_parent_check(
                    next.process_group_id,
                    parent_is_alive(next.parent_pid, current, None),
                );
            },
            (SupervisorPhase::ProbeParent, SupervisorEvent::ParentProbed(probe)) => {
                next.phase = next_after_parent_check(
                    next.process_group_id,
                    parent_is_alive(next.parent_pid, next.parent_pid, Some(probe)),
                );
            },
            (SupervisorPhase::Sleep, SupervisorEvent::Performed) => {
                next.phase = SupervisorPhase::Poll;
            },
            (SupervisorPhase::Terminate(termination), SupervisorEvent::Performed) => {
                next.phase = SupervisorPhase::Terminate(termination.performed());
            },
            (phase, _) => {
                next.phase = phase;
            },
        }
        next
    }
}

/// Starts a supervisor with the arguments of its process. Without a target
/// it has failed at once.
pub fn run_mcp_process_supervisor<A>(argv: Vec<A>) -> (supervisor: Supervisor<A>)
    ensures
        supervisor.started_with(argv@),
        supervisor.wf(),
{
    match supervised_command(argv) {
        Ok(command) => Supervisor {
            command: Some(command),
            parent_pid: 0,
            process_group_id: 0,
            phase: SupervisorPhase::ReadIds,
        },
        Err(error) => Supervisor {
            command: None,
            parent_pid: 0,
            process_group_id: 0,
            phase: SupervisorPhase::Done(Err(error)),
        },
    }
}

/// What follows once it is known, or not yet known, whether the parent is alive.
fn next_after_parent_check(process_group_id: i32, alive: Option<bool>) -> (phase: SupervisorPhase)
    ensures
        phase == after_parent_check(process_group_id, alive),
{
    match alive {
        None => SupervisorPhase::ProbeParent,
        Some(true) => SupervisorPhase::Sleep,
        Some(false) => SupervisorPhase::Terminate(terminate_process_group(process_group_id)),
    }
}

} // verus!
