//! Waiting, until a deadline, for a process group to disappear.
//!
//! Time is counted in nanoseconds from an origin that the embedding program
//! fixes once.

use vstd::prelude::*;

use crate::error::IoError;

verus! {

/// How long a process group may take to react to SIGTERM, in nanoseconds.
pub const PROCESS_GROUP_TERM_GRACE_PERIOD: u64 = 2_000_000_000;

/// The longest pause between two looks at a process group, in nanoseconds.
pub const PROCESS_GROUP_EXIT_POLL_INTERVAL: u64 = 25_000_000;

/// How long the disappearance of a killed process group is awaited, in
/// nanoseconds.
pub const PROCESS_GROUP_KILL_CONFIRM_PERIOD: u64 = 1_000_000_000;

/// What the embedding program is asked to do on behalf of one process tree.
#[derive(Clone, Copy, Debug, PartialEq, Eq, Structural)]
pub enum ProcessAction {
    /// Send SIGTERM to the group; report `TermSent`.
    SendTerm { process_group_id: u32 },
    /// Send SIGKILL to the group; report `KillSent`.
    SendKill { process_group_id: u32 },
    /// Find out whether the group exists; report `Probed`.
    ProbeGroup { process_group_id: u32 },
    /// Read the clock; report `Clock`.
    ReadClock,
    /// Pause for that many nanoseconds; report `Slept`.
    Sleep { nanos: u64 },
    /// Terminate the processes of the job object; report `HandleTerminated`.
    TerminateJob { job: u64 },
    /// Terminate the process behind the handle; report `HandleTerminated`.
    TerminateProcess { process: u64 },
    /// Nothing is left to do.
    Finished,
}

/// What the embedding program observed when it performed an action.
pub enum ProcessEvent {
    /// SIGTERM was sent, and the group existed or did not; or sending failed.
    TermSent(Result<bool, IoError>),
    /// SIGKILL was sent, or sending failed.
    KillSent(Result<(), IoError>),
    /// Whether the group exists, or why that could not be found out.
    Probed(Result<bool, IoError>),
    /// The time on the clock, in nanoseconds.
    Clock(u64),
    /// A pause is over.
    Slept,
    /// A job or a process was terminated, or the text of the failure.
    HandleTerminated(Result<(), String>),
}

/// Where a wait for a process group stands.
#[derive(Clone, Copy, Debug, PartialEq, Eq, Structural)]
pub enum ExitWaitPhase {
    /// The group is to be looked at.
    Probe,
    /// The group exists; the clock is to be read.
    Clock,
    /// The deadline has not come; a pause is to be made.
    Sleep { nanos: u64 },
}

/// A wait for the process group to disappear, given up at the deadline.
#[derive(Clone, Copy, Debug, PartialEq, Eq, Structural)]
pub struct ExitWait {
    pub process_group_id: u32,
    pub deadline: u64,
    pub phase: ExitWaitPhase,
}

/// What a wait does with an event.
pub enum ExitWaitStep {
    /// The wait goes on.
    Continue(ExitWait),
    /// The wait is over: the group is gone, it still exists at the deadline, or
    /// its existence could not be found out.
    Return(Result<bool, IoError>),
}

/// The pause between two looks: the poll interval, or what is left until the
/// deadline where that is less.
pub open spec fn pause(deadline: int, now: int) -> int {
    if PROCESS_GROUP_EXIT_POLL_INTERVAL <= deadline - now {
        PROCESS_GROUP_EXIT_POLL_INTERVAL as int
    } else {
        deadline - now
    }
}

impl ExitWait {
    /// The same wait in another phase.
    pub open spec fn at(self, phase: ExitWaitPhase) -> Self {
        ExitWait { phase, ..self }
    }

    /// The action that the wait asks for.
    pub open spec fn action_spec(self) -> ProcessAction {
        match self.phase {
            ExitWaitPhase::Probe => ProcessAction::ProbeGroup {
                process_group_id: self.process_group_id,
            },
            ExitWaitPhase::Clock => ProcessAction::ReadClock,
            ExitWaitPhase::Sleep { nanos } => ProcessAction::Sleep { nanos },
        }
    }

    /// What the wait does with an event. A group that is gone, or that cannot be
    /// looked at, ends the wait, whatever the time is; the deadline ends it only
    /// for a group that was just seen to exist. An event that does not answer
    /// the action asked for changes nothing.
    pub open spec fn step_spec(self, event: ProcessEvent) -> ExitWaitStep {
        match (self.phase, event) {
            (ExitWaitPhase::Probe, ProcessEvent::Probed(Ok(true))) => ExitWaitStep::Continue(
                self.at(ExitWaitPhase::Clock),
            ),
            (ExitWaitPhase::Probe, ProcessEvent::Probed(Ok(false))) => ExitWaitStep::Return(
                Ok(true),
            ),
            (ExitWaitPhase::Probe, ProcessEvent::Probed(Err(error))) => ExitWaitStep::Return(
                Err(error),
            ),
            (ExitWaitPhase::Clock, ProcessEvent::Clock(now)) => if now >= self.deadline {
                ExitWaitStep::Return(Ok(false))
            } else {
                ExitWaitStep::Continue(
                    self.at(
                        ExitWaitPhase::Sleep { nanos: pause(self.deadline as int, now as int) as u64 },
                    ),
                )
            },
            (ExitWaitPhase::Sleep { .. }, ProcessEvent::Slept) => ExitWaitStep::Continue(
                self.at(ExitWaitPhase::Probe),
            ),
            _ => ExitWaitStep::Continue(self),
        }
    }

    /// The action that the wait asks for.
    pub fn action(&self) -> (action: ProcessAction)
        ensures
            action == self.action_spec(),
    {
        match self.phase {
            ExitWaitPhase::Probe => ProcessAction::ProbeGroup {
                process_group_id: self.process_group_id,
            },
            ExitWaitPhase::Clock => ProcessAction::ReadClock,
            ExitWaitPhase::Sleep { nanos } => ProcessAction::Sleep { nanos },
        }
    }

    /// Hands the wait an event.
    pub fn step(self, event: ProcessEvent) -> (step: ExitWaitStep)
        ensures
            step == self.step_spec(event),
    {
        match (self.phase, event) {
            (ExitWaitPhase::Probe, ProcessEvent::Probed(probed)) => match probed {
                Ok(true) => ExitWaitStep::Continue(
                    ExitWait { phase: ExitWaitPhase::Clock, ..self },
                ),
                Ok(false) => ExitWaitStep::Return(Ok(true)),
                Err(error) => ExitWaitStep::Return(Err(error)),
            },
            (ExitWaitPhase::Clock, ProcessEvent::Clock(now)) => {
                if now >= self.deadline {
                    return ExitWaitStep::Return(Ok(false));
                }
                let left: u64 = self.deadline - now;
                let nanos: u64 = if PROCESS_GROUP_EXIT_POLL_INTERVAL <= left {
                    PROCESS_GROUP_EXIT_POLL_INTERVAL
                } else {
                    left
                };
                ExitWaitStep::Continue(ExitWait { phase: ExitWaitPhase::Sleep { nanos }, ..self })
            },
            (ExitWaitPhase::Sleep { .. }, ProcessEvent::Slept) => ExitWaitStep::Continue(
                ExitWait { phase: ExitWaitPhase::Probe, ..self },
            ),
            _ => ExitWaitStep::Continue(self),
        }
    }
}

/// A pause is never empty, never longer than the poll interval and never goes
/// past the deadline.
pub proof fn law_pause_fits(deadline: u64, now: u64)
    requires
        now < deadline,
    ensures
        0 < pause(deadline as int, now as int) <= PROCESS_GROUP_EXIT_POLL_INTERVAL,
        now + pause(deadline as int, now as int) <= deadline,
{
}

/// Whether the clock, read again after each pause, shows at least the time that
/// the pause was to take.
pub open spec fn clock_keeps_up(readings: Seq<u64>, deadline: u64) -> bool {
    forall|i: int|
        0 <= i < readings.len() - 1 ==> #[trigger] readings[i + 1] >= readings[i] + pause(
            deadline as int,
            readings[i] as int,
        )
}

/// One round of a wait on a group that exists: a look, a look at the clock and,
/// before the deadline, a pause.
pub open spec fn round(wait: ExitWait, now: u64) -> ExitWaitStep {
    match wait.step_spec(ProcessEvent::Probed(Ok(true))) {
        ExitWaitStep::Continue(seen) => match seen.step_spec(ProcessEvent::Clock(now)) {
            ExitWaitStep::Continue(early) => early.step_spec(ProcessEvent::Slept),
            over => over,
        },
        over => over,
    }
}

/// The wait after the given number of rounds, with the clock readings in order.
pub open spec fn rounds(wait: ExitWait, readings: Seq<u64>, count: nat) -> ExitWaitStep
    decreases count,
{
    if count == 0 {
        ExitWaitStep::Continue(wait)
    } else {
        match rounds(wait, readings, (count - 1) as nat) {
            ExitWaitStep::Continue(going_on) => round(going_on, readings[count - 1]),
            over => over,
        }
    }
}

/// A wait ends: on a group that never disappears, as long as the clock keeps up
/// with the pauses, a wait over at most `polls` poll intervals is given up
/// after at most `polls` pauses.
pub proof fn law_wait_is_bounded(wait: ExitWait, readings: Seq<u64>, polls: nat)
    requires
        wait.phase == ExitWaitPhase::Probe,
        clock_keeps_up(readings, wait.deadline),
        readings.len() > polls,
        wait.deadline <= readings[0] + polls * PROCESS_GROUP_EXIT_POLL_INTERVAL,
    ensures
        rounds(wait, readings, polls + 1) == ExitWaitStep::Return(Ok(false)),
{
    let deadline = wait.deadline;
    if forall|k: int| 0 <= k <= polls ==> #[trigger] readings[k] < deadline {
        lemma_clock_advances(readings, deadline, polls, polls);
        assert(readings[polls as int] < deadline);
    }
    let late = choose|k: int| 0 <= k <= polls && #[trigger] readings[k] >= deadline;
    lemma_rounds(wait, readings, polls + 1);
    assert(readings[late] >= deadline);
}

/// The rounds go on exactly as long as no reading has reached the deadline.
proof fn lemma_rounds(wait: ExitWait, readings: Seq<u64>, count: nat)
    requires
        wait.phase == ExitWaitPhase::Probe,
        count <= readings.len(),
    ensures
        (forall|k: int| 0 <= k < count ==> #[trigger] readings[k] < wait.deadline) ==> rounds(
            wait,
            readings,
            count,
        ) == ExitWaitStep::Continue(wait),
        (exists|k: int| 0 <= k < count && #[trigger] readings[k] >= wait.deadline) ==> rounds(
            wait,
            readings,
            count,
        ) == ExitWaitStep::Return(Ok(false)),
    decreases count,
{
    if count > 0 {
        lemma_rounds(wait, readings, (count - 1) as nat);
        let now = readings[count - 1];
        assert(now < wait.deadline ==> round(wait, now) == ExitWaitStep::Continue(wait));
        assert(now >= wait.deadline ==> round(wait, now) == ExitWaitStep::Return(Ok(false)));
        if forall|k: int| 0 <= k < count - 1 ==> #[trigger] readings[k] < wait.deadline {
        } else {
            let k = choose|k: int| 0 <= k < count - 1 && #[trigger] readings[k] >= wait.deadline;
            assert(readings[k] >= wait.deadline);
        }
    }
}

/// While the deadline has not come, every pause moves the clock by a poll
/// interval, or to the deadline.
proof fn lemma_clock_advances(readings: Seq<u64>, deadline: u64, polls: nat, k: nat)
    requires
        clock_keeps_up(readings, deadline),
        readings.len() > polls,
        k <= polls,
        forall|i: int| 0 <= i <= polls ==> #[trigger] readings[i] < deadline,
    ensures
        readings[k as int] >= readings[0] + k * PROCESS_GROUP_EXIT_POLL_INTERVAL,
    decreases k,
{
    if k > 0 {
        lemma_clock_advances(readings, deadline, polls, (k - 1) as nat);
        let i = k - 1;
        assert(readings[i + 1] >= readings[i] + pause(deadline as int, readings[i] as int));
        assert(readings[k as int] < deadline);
        assert(k * PROCESS_GROUP_EXIT_POLL_INTERVAL == (k - 1) * PROCESS_GROUP_EXIT_POLL_INTERVAL
            + PROCESS_GROUP_EXIT_POLL_INTERVAL) by (nonlinear_arith);
    }
}

/// A wait that looks at its group is over once the group is gone, with `true`,
/// or cannot be looked at, with that failure. One that reads the clock is over
/// once the deadline has come, with `false`, and no earlier. Nothing else ends a
/// wait, and a wait that goes on is for the same group until the same deadline.
pub proof fn law_wait_ends_by_group_or_deadline(wait: ExitWait, event: ProcessEvent)
    ensures
        wait.step_spec(event) == ExitWaitStep::Return(Ok(true)) <==> wait.phase is Probe && event
            == ProcessEvent::Probed(Ok(false)),
        wait.step_spec(event) == ExitWaitStep::Return(Ok(false)) <==> wait.phase is Clock && (
        event matches ProcessEvent::Clock(now) && now >= wait.deadline),
        wait.phase is Probe ==> (event matches ProcessEvent::Probed(Err(error)) ==> wait.step_spec(
            event,
        ) == ExitWaitStep::Return(Err(error))),
        wait.step_spec(event) matches ExitWaitStep::Return(Err(error)) ==> wait.phase is Probe
            && event == ProcessEvent::Probed(Err(error)),
        wait.step_spec(event) matches ExitWaitStep::Continue(next) ==> {
            &&& next.process_group_id == wait.process_group_id
            &&& next.deadline == wait.deadline
            &&& next.phase is Clock && !(wait.phase is Clock) ==> wait.phase is Probe && event
                == ProcessEvent::Probed(Ok(true))
            &&& next.phase is Sleep && !(wait.phase is Sleep) ==> wait.phase is Clock
            &&& next.phase is Probe && !(wait.phase is Probe) ==> wait.phase is Sleep && event
                is Slept
        },
{
}

} // verus!
