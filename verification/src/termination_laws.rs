//! What holds of every run of a termination, whatever the embedding program
//! observes.

use vstd::prelude::*;

use crate::error::{ErrorKind, IoError};
use crate::exit_wait;
use crate::exit_wait::{
    ExitWait, ExitWaitStep, ProcessAction, ProcessEvent, PROCESS_GROUP_KILL_CONFIRM_PERIOD,
    PROCESS_GROUP_TERM_GRACE_PERIOD,
};
use crate::local;
use crate::local::{LocalProcessTerminator, Termination, TerminationState};

verus! {

/// Whether `states` are the successive states of the termination of
/// `terminator`'s tree, with one event between each two.
pub open spec fn is_run(
    terminator: LocalProcessTerminator,
    states: Seq<Termination>,
    events: Seq<ProcessEvent>,
) -> bool {
    &&& states.len() == events.len() + 1
    &&& states[0] == terminator.terminate_spec()
    &&& forall|i: int|
        #![trigger states[i], events[i]]
        0 <= i < events.len() ==> local::advances(states[i], events[i], states[i + 1])
}

/// Whether the group was reported gone in answer to what was asked in step `i`.
pub open spec fn reported_gone(
    states: Seq<Termination>,
    events: Seq<ProcessEvent>,
    i: int,
) -> bool {
    ||| states[i].action_spec() is SendTerm && events[i] == ProcessEvent::TermSent(Ok(false))
    ||| states[i].action_spec() is ProbeGroup && events[i] == ProcessEvent::Probed(Ok(false))
}

/// Whether a failure was reported in answer to what was asked in step `i`.
pub open spec fn reported_failure(
    states: Seq<Termination>,
    events: Seq<ProcessEvent>,
    i: int,
    error: IoError,
) -> bool {
    ||| states[i].action_spec() is SendTerm && events[i] == ProcessEvent::TermSent(Err(error))
    ||| states[i].action_spec() is ProbeGroup && events[i] == ProcessEvent::Probed(Err(error))
}

/// Whether the clock was read in step `i` and showed `now`.
pub open spec fn read_clock(
    states: Seq<Termination>,
    events: Seq<ProcessEvent>,
    i: int,
    now: u64,
) -> bool {
    states[i].action_spec() is ReadClock && events[i] == ProcessEvent::Clock(now)
}

/// Whether the answer to SIGKILL arrived in step `i`.
pub open spec fn reported_kill(
    states: Seq<Termination>,
    events: Seq<ProcessEvent>,
    i: int,
    sent: Result<(), IoError>,
) -> bool {
    states[i].action_spec() is SendKill && events[i] == ProcessEvent::KillSent(sent)
}

/// How far the termination of a process group has come.
pub open spec fn progress(state: TerminationState) -> nat {
    match state {
        TerminationState::SendTerm => 0,
        TerminationState::TermClock => 1,
        TerminationState::TermWait(_) => 2,
        TerminationState::SendKill => 3,
        TerminationState::KillClock { .. } => 4,
        TerminationState::KillWait { .. } => 5,
        TerminationState::TerminateHandle => 0,
        TerminationState::Done(_) => 6,
    }
}

/// Every state of a run is well formed and keeps the token.
proof fn lemma_run_wf(
    terminator: LocalProcessTerminator,
    states: Seq<Termination>,
    events: Seq<ProcessEvent>,
    n: int,
)
    requires
        is_run(terminator, states, events),
        0 <= n < states.len(),
    ensures
        states[n].wf(),
        states[n].terminator == terminator,
    decreases n,
{
    if n > 0 {
        lemma_run_wf(terminator, states, events, n - 1);
        assert(local::advances(states[n - 1], events[n - 1], states[n - 1 + 1]));
    }
}

/// A termination touches nothing but the process tree whose token it was given:
/// no action of any run names another group, job or process.
pub proof fn law_only_the_owned_tree_is_touched(
    terminator: LocalProcessTerminator,
    states: Seq<Termination>,
    events: Seq<ProcessEvent>,
    n: int,
)
    requires
        is_run(terminator, states, events),
        0 <= n < states.len(),
    ensures
        terminator.owns(states[n].action_spec()),
{
    lemma_run_wf(terminator, states, events, n);
}

/// A termination that is over stays over, with the same result.
pub proof fn law_result_is_final(
    terminator: LocalProcessTerminator,
    states: Seq<Termination>,
    events: Seq<ProcessEvent>,
    i: int,
    n: int,
)
    requires
        is_run(terminator, states, events),
        0 <= i <= n < states.len(),
        states[i].state is Done,
    ensures
        states[n] == states[i],
    decreases n,
{
    if i < n {
        law_result_is_final(terminator, states, events, i, n - 1);
        assert(local::advances(states[n - 1], events[n - 1], states[n - 1 + 1]));
    }
}

/// The termination of a process group never goes back, and the answer to a
/// signal moves it on. So SIGTERM comes first, SIGKILL can only follow it, and
/// neither is asked for again once it was sent.
pub proof fn law_signals_are_sent_once(
    process_group_id: u32,
    states: Seq<Termination>,
    events: Seq<ProcessEvent>,
    i: int,
    n: int,
)
    requires
        is_run(LocalProcessTerminator::ProcessGroup { process_group_id }, states, events),
        0 <= i <= n < states.len(),
    ensures
        states[0].action_spec() == (ProcessAction::SendTerm { process_group_id }),
        progress(states[i].state) <= progress(states[n].state),
        i < n && states[i].action_spec() is SendTerm && events[i] is TermSent ==> !(
        states[n].action_spec() is SendTerm),
        i < n && states[i].action_spec() is SendKill && events[i] is KillSent ==> !(
        states[n].action_spec() is SendKill),
        states[i].action_spec() is SendKill ==> !(states[n].action_spec() is SendTerm),
    decreases n - i,
{
    let terminator = LocalProcessTerminator::ProcessGroup { process_group_id };
    if i < n {
        law_signals_are_sent_once(process_group_id, states, events, i, n - 1);
        lemma_run_wf(terminator, states, events, n - 1);
        assert(local::advances(states[n - 1], events[n - 1], states[n - 1 + 1]));
        lemma_run_wf(terminator, states, events, n);
        assert(local::advances(states[i], events[i], states[i + 1]));
        law_signals_are_sent_once(process_group_id, states, events, i + 1, n);
    }
    lemma_run_wf(terminator, states, events, i);
    lemma_run_wf(terminator, states, events, n);
}

/// The termination of a process group succeeds exactly when the group was
/// reported gone: by the SIGTERM that found no group, or by a later look.
pub proof fn law_success_means_gone(
    process_group_id: u32,
    states: Seq<Termination>,
    events: Seq<ProcessEvent>,
    n: int,
)
    requires
        is_run(LocalProcessTerminator::ProcessGroup { process_group_id }, states, events),
        0 <= n < states.len(),
    ensures
        states[n].state == TerminationState::Done(Ok(())) <==> exists|i: int|
            0 <= i < n && #[trigger] reported_gone(states, events, i),
    decreases n,
{
    if n > 0 {
        law_success_means_gone(process_group_id, states, events, n - 1);
        let terminator = LocalProcessTerminator::ProcessGroup { process_group_id };
        lemma_run_wf(terminator, states, events, n - 1);
        assert(local::advances(states[n - 1], events[n - 1], states[n - 1 + 1]));
        assert(reported_gone(states, events, n - 1) ==> states[n].state
            == TerminationState::Done(Ok(())));
        if states[n].state == TerminationState::Done(Ok(())) && states[n - 1].state
            != TerminationState::Done(Ok(())) {
            assert(reported_gone(states, events, n - 1));
        }
        if exists|i: int| 0 <= i < n && #[trigger] reported_gone(states, events, i) {
            let i = choose|i: int| 0 <= i < n && #[trigger] reported_gone(states, events, i);
            if i < n - 1 {
                assert(states[n - 1].state == TerminationState::Done(Ok(())));
            }
        }
    }
}

/// Whether there was reason to kill the group before step `n`: SIGTERM could
/// not be sent, the group could not be looked at, or a whole grace period lies
/// between two readings of the clock.
pub open spec fn kill_is_due(
    states: Seq<Termination>,
    events: Seq<ProcessEvent>,
    n: int,
) -> bool {
    ||| exists|i: int, error: IoError|
        0 <= i < n && #[trigger] reported_failure(states, events, i, error)
    ||| grace_period_over(states, events, n)
}

/// Whether a whole grace period lies between two readings of the clock before
/// step `n`.
pub open spec fn grace_period_over(
    states: Seq<Termination>,
    events: Seq<ProcessEvent>,
    n: int,
) -> bool {
    exists|i: int, j: int, from: u64, to: u64|
        0 <= i < j < n && to >= from + PROCESS_GROUP_TERM_GRACE_PERIOD && #[trigger] read_clock(
            states,
            events,
            i,
            from,
        ) && #[trigger] read_clock(states, events, j, to)
}

/// The deadline of the first wait is the end of a grace period that began with
/// a reading of the clock.
proof fn lemma_grace_deadline(
    process_group_id: u32,
    states: Seq<Termination>,
    events: Seq<ProcessEvent>,
    n: int,
)
    requires
        is_run(LocalProcessTerminator::ProcessGroup { process_group_id }, states, events),
        forall|i: int| 0 <= i < events.len() ==> #[trigger] states[i].deadline_fits(events[i]),
        0 <= n < states.len(),
    ensures
        states[n].state matches TerminationState::TermWait(wait) ==> exists|i: int, from: u64|
            0 <= i < n && #[trigger] read_clock(states, events, i, from) && wait.deadline == from
                + PROCESS_GROUP_TERM_GRACE_PERIOD,
    decreases n,
{
    if n > 0 {
        lemma_grace_deadline(process_group_id, states, events, n - 1);
        assert(local::advances(states[n - 1], events[n - 1], states[n - 1 + 1]));
        assert(states[n - 1].deadline_fits(events[n - 1]));
        if states[n].state is TermWait && states[n - 1].state is TermClock {
            if let ProcessEvent::Clock(from) = events[n - 1] {
                assert(read_clock(states, events, n - 1, from));
            }
        }
    }
}

/// SIGKILL is asked for only after SIGTERM could not be sent, the group could
/// not be looked at, or the grace period is over.
pub proof fn law_kill_waits_for_the_grace_period(
    process_group_id: u32,
    states: Seq<Termination>,
    events: Seq<ProcessEvent>,
    n: int,
)
    requires
        is_run(LocalProcessTerminator::ProcessGroup { process_group_id }, states, events),
        forall|i: int| 0 <= i < events.len() ==> #[trigger] states[i].deadline_fits(events[i]),
        0 <= n < states.len(),
        states[n].action_spec() is SendKill,
    ensures
        kill_is_due(states, events, n),
    decreases n,
{
    let terminator = LocalProcessTerminator::ProcessGroup { process_group_id };
    lemma_run_wf(terminator, states, events, n);
    if n > 0 {
        lemma_run_wf(terminator, states, events, n - 1);
        let pre = states[n - 1];
        let event = events[n - 1];
        assert(local::advances(pre, event, states[n - 1 + 1]));
        if pre.state is SendKill {
            law_kill_waits_for_the_grace_period(process_group_id, states, events, n - 1);
            if grace_period_over(states, events, n - 1) {
                assert(grace_period_over(states, events, n));
            }
        } else if let TerminationState::TermWait(wait) = pre.state {
            lemma_grace_deadline(process_group_id, states, events, n - 1);
            let (i, from) = choose|i: int, from: u64|
                0 <= i < n - 1 && #[trigger] read_clock(states, events, i, from) && wait.deadline
                    == from + PROCESS_GROUP_TERM_GRACE_PERIOD;
            match event {
                ProcessEvent::Clock(to) => {
                    assert(read_clock(states, events, i, from));
                    assert(read_clock(states, events, n - 1, to));
                },
                ProcessEvent::Probed(Err(error)) => {
                    assert(reported_failure(states, events, n - 1, error));
                },
                _ => {},
            }
        } else if let ProcessEvent::TermSent(Err(error)) = event {
            assert(reported_failure(states, events, n - 1, error));
        }
    }
}

/// Whether the group could not be looked at in step `i`, with this failure.
pub open spec fn reported_blind(
    states: Seq<Termination>,
    events: Seq<ProcessEvent>,
    i: int,
    error: IoError,
) -> bool {
    states[i].action_spec() is ProbeGroup && events[i] == ProcessEvent::Probed(Err(error))
}

/// Whether step `k` brought the answer that is remembered as `kill_error`.
pub open spec fn kill_remembered(
    states: Seq<Termination>,
    events: Seq<ProcessEvent>,
    k: int,
    kill_error: Option<IoError>,
) -> bool {
    reported_kill(
        states,
        events,
        k,
        match kill_error {
            Some(error) => Err(error),
            None => Ok(()),
        },
    )
}

/// After SIGKILL, the failure to send it is remembered.
proof fn lemma_kill_error_is_remembered(
    process_group_id: u32,
    states: Seq<Termination>,
    events: Seq<ProcessEvent>,
    n: int,
)
    requires
        is_run(LocalProcessTerminator::ProcessGroup { process_group_id }, states, events),
        0 <= n < states.len(),
    ensures
        states[n].state matches TerminationState::KillClock { kill_error } ==> exists|k: int|
            0 <= k < n && #[trigger] kill_remembered(states, events, k, kill_error),
        states[n].state matches TerminationState::KillWait { kill_error, .. } ==> exists|k: int|
            0 <= k < n && #[trigger] kill_remembered(states, events, k, kill_error),
    decreases n,
{
    if n > 0 {
        lemma_kill_error_is_remembered(process_group_id, states, events, n - 1);
        let terminator = LocalProcessTerminator::ProcessGroup { process_group_id };
        lemma_run_wf(terminator, states, events, n - 1);
        assert(local::advances(states[n - 1], events[n - 1], states[n - 1 + 1]));
        if states[n - 1].state is SendKill {
            if let TerminationState::KillClock { kill_error } = states[n].state {
                if let ProcessEvent::KillSent(sent) = events[n - 1] {
                    assert(reported_kill(states, events, n - 1, sent));
                    if let Ok(unit) = sent {
                        assert(unit == ());
                    }
                }
                assert(kill_remembered(states, events, n - 1, kill_error));
            }
        }
    }
}

/// The termination of a process group fails only after SIGKILL, and reports the
/// failure to send it, or else the failure to look at the group afterwards, or
/// else that the group outlived the confirmation period.
pub proof fn law_failure_is_explained(
    process_group_id: u32,
    states: Seq<Termination>,
    events: Seq<ProcessEvent>,
    n: int,
    error: IoError,
)
    requires
        is_run(LocalProcessTerminator::ProcessGroup { process_group_id }, states, events),
        0 <= n < states.len(),
        states[n].state == TerminationState::Done(Err(error)),
    ensures
        exists|k: int, kill_error: Option<IoError>, probe_error: Option<IoError>|
            0 <= k < n && #[trigger] kill_remembered(states, events, k, kill_error)
                && #[trigger] local::reports_survival(error, process_group_id, kill_error, probe_error)
                && (probe_error matches Some(probe_error) ==> exists|j: int|
                k < j < n && #[trigger] reported_blind(states, events, j, probe_error)),
    decreases n,
{
    let terminator = LocalProcessTerminator::ProcessGroup { process_group_id };
    if n > 0 {
        lemma_run_wf(terminator, states, events, n - 1);
        let pre = states[n - 1];
        assert(local::advances(pre, events[n - 1], states[n - 1 + 1]));
        if pre.state is Done {
            law_failure_is_explained(process_group_id, states, events, n - 1, error);
            let (k, kill_error, probe_error) = choose|
                k: int,
                kill_error: Option<IoError>,
                probe_error: Option<IoError>,
            |
                0 <= k < n - 1 && #[trigger] kill_remembered(states, events, k, kill_error)
                    && #[trigger] local::reports_survival(
                    error,
                    process_group_id,
                    kill_error,
                    probe_error,
                ) && (probe_error matches Some(probe_error) ==> exists|j: int|
                    k < j < n - 1 && #[trigger] reported_blind(states, events, j, probe_error));
            assert(kill_remembered(states, events, k, kill_error));
            assert(local::reports_survival(error, process_group_id, kill_error, probe_error));
            if let Some(probe_error) = probe_error {
                let j = choose|j: int|
                    k < j < n - 1 && #[trigger] reported_blind(states, events, j, probe_error);
                assert(k < j < n && reported_blind(states, events, j, probe_error));
            }
        } else if let TerminationState::KillWait { kill_error, wait } = pre.state {
            lemma_kill_error_is_remembered(process_group_id, states, events, n - 1);
            let k = choose|k: int|
                0 <= k < n - 1 && #[trigger] kill_remembered(states, events, k, kill_error);
            assert(kill_remembered(states, events, k, kill_error));
            match wait.step_spec(events[n - 1]) {
                ExitWaitStep::Return(Err(probe_error)) => {
                    assert(reported_blind(states, events, n - 1, probe_error));
                    assert(local::reports_survival(
                        error,
                        process_group_id,
                        kill_error,
                        Some(probe_error),
                    ));
                },
                _ => {
                    assert(local::reports_survival(error, process_group_id, kill_error, None));
                },
            }
        }
    }
}

/// No termination waits forever: once the clock was read for a deadline, and as
/// long as it keeps up with the pauses, a group that never disappears is given
/// up after at most eighty pauses of the grace period, and after at most forty
/// of the confirmation.
pub proof fn law_waits_are_bounded(
    process_group_id: u32,
    fixed_at: u64,
    readings: Seq<u64>,
)
    requires
        fixed_at + PROCESS_GROUP_TERM_GRACE_PERIOD <= u64::MAX,
        readings.len() > 80,
        fixed_at <= readings[0],
    ensures
        ({
            let wait = LocalProcessTerminator::wait_for_exit_spec(
                process_group_id,
                fixed_at + PROCESS_GROUP_TERM_GRACE_PERIOD,
            );
            exit_wait::clock_keeps_up(readings, wait.deadline) ==> exit_wait::rounds(wait, readings, 81)
                == ExitWaitStep::Return(Ok(false))
        }),
        ({
            let wait = LocalProcessTerminator::wait_for_exit_spec(
                process_group_id,
                fixed_at + PROCESS_GROUP_KILL_CONFIRM_PERIOD,
            );
            exit_wait::clock_keeps_up(readings, wait.deadline) ==> exit_wait::rounds(wait, readings, 41)
                == ExitWaitStep::Return(Ok(false))
        }),
{
    let grace = LocalProcessTerminator::wait_for_exit_spec(
        process_group_id,
        fixed_at + PROCESS_GROUP_TERM_GRACE_PERIOD,
    );
    let confirm = LocalProcessTerminator::wait_for_exit_spec(
        process_group_id,
        fixed_at + PROCESS_GROUP_KILL_CONFIRM_PERIOD,
    );
    if exit_wait::clock_keeps_up(readings, grace.deadline) {
        exit_wait::law_wait_is_bounded(grace, readings, 80);
    }
    if exit_wait::clock_keeps_up(readings, confirm.deadline) {
        exit_wait::law_wait_is_bounded(confirm, readings, 40);
    }
}

/// Whether an event is an answer to an action.
pub open spec fn answers(action: ProcessAction, event: ProcessEvent) -> bool {
    match event {
        ProcessEvent::TermSent(_) => action is SendTerm,
        ProcessEvent::KillSent(_) => action is SendKill,
        ProcessEvent::Probed(_) => action is ProbeGroup,
        ProcessEvent::Clock(_) => action is ReadClock,
        ProcessEvent::Slept => action is Sleep,
        ProcessEvent::HandleTerminated(_) => action is TerminateJob || action is TerminateProcess,
    }
}

/// Whether a termination is over with this result, and says so.
pub open spec fn over_with(termination: Termination, result: Result<(), IoError>) -> bool {
    &&& termination.state == TerminationState::Done(result)
    &&& termination.result_spec() == Some(result)
    &&& termination.action_spec() == ProcessAction::Finished
}

/// The wait of a termination that is waiting for its group to disappear.
pub open spec fn waiting(termination: Termination) -> Option<ExitWait> {
    match termination.state {
        TerminationState::TermWait(wait) => Some(wait),
        TerminationState::KillWait { wait, .. } => Some(wait),
        _ => None,
    }
}

/// A termination reacts to answers only: any other event leaves it as it is. It
/// never changes its token, and only one that is over has a result.
pub proof fn law_only_answers_count(pre: Termination, event: ProcessEvent, post: Termination)
    requires
        pre.wf(),
        local::advances(pre, event, post),
    ensures
        post.terminator == pre.terminator,
        !answers(pre.action_spec(), event) ==> post == pre,
        pre.result_spec() is Some <==> pre.state is Done,
        pre.action_spec() == ProcessAction::Finished <==> pre.state is Done,
        pre.state matches TerminationState::Done(result) ==> over_with(pre, result) && post == pre,
{
}

/// A process group is first sent SIGTERM. One that did not exist is gone for
/// good; one that did gets two seconds from the next reading of the clock; and
/// one that could not be signalled is killed at once.
pub proof fn law_term_comes_first(
    process_group_id: u32,
    pre: Termination,
    event: ProcessEvent,
    post: Termination,
)
    requires
        pre.terminator == (LocalProcessTerminator::ProcessGroup { process_group_id }),
        pre.deadline_fits(event),
        local::advances(pre, event, post),
    ensures
        pre.terminator.terminate_spec().action_spec() == (ProcessAction::SendTerm {
            process_group_id,
        }),
        pre.state is SendTerm ==> pre.action_spec() == (ProcessAction::SendTerm {
            process_group_id,
        }),
        pre.state is SendTerm && event == ProcessEvent::TermSent(Ok(false)) ==> over_with(
            post,
            Ok(()),
        ),
        pre.state is SendTerm && event == ProcessEvent::TermSent(Ok(true)) ==> post.state
            is TermClock && post.action_spec() == ProcessAction::ReadClock,
        pre.state is SendTerm && (event matches ProcessEvent::TermSent(Err(_)))
            ==> post.action_spec() == (ProcessAction::SendKill { process_group_id }),
        pre.state is TermClock ==> pre.action_spec() == ProcessAction::ReadClock,
        pre.state is TermClock ==> (event matches ProcessEvent::Clock(now) ==> {
            &&& post.state is TermWait
            &&& waiting(post) matches Some(wait)
            &&& wait.deadline == now + 2_000_000_000
            &&& wait.process_group_id == process_group_id
            &&& post.action_spec() == (ProcessAction::ProbeGroup { process_group_id })
        }),
{
}

/// A process group is sent SIGKILL once, and what came of it is kept. Then it
/// has one second from the next reading of the clock to disappear.
pub proof fn law_kill_is_confirmed(
    process_group_id: u32,
    pre: Termination,
    event: ProcessEvent,
    post: Termination,
)
    requires
        pre.terminator == (LocalProcessTerminator::ProcessGroup { process_group_id }),
        pre.deadline_fits(event),
        local::advances(pre, event, post),
    ensures
        pre.state is SendKill ==> pre.action_spec() == (ProcessAction::SendKill {
            process_group_id,
        }),
        pre.state is SendKill ==> (event matches ProcessEvent::KillSent(sent) ==> {
            &&& post.action_spec() == ProcessAction::ReadClock
            &&& post.state matches TerminationState::KillClock { kill_error }
            &&& sent is Ok ==> kill_error is None
            &&& sent matches Err(error) ==> kill_error == Some(error)
        }),
        pre.state is KillClock ==> pre.action_spec() == ProcessAction::ReadClock,
        pre.state matches TerminationState::KillClock { kill_error } ==> (
        event matches ProcessEvent::Clock(now) ==> {
            &&& post.state matches TerminationState::KillWait { kill_error: kept, wait }
            &&& kept == kill_error
            &&& wait.deadline == now + 1_000_000_000
            &&& wait.process_group_id == process_group_id
            &&& post.action_spec() == (ProcessAction::ProbeGroup { process_group_id })
        }),
{
}

/// While it waits, a termination looks at the group, reads the clock if the
/// group exists, and pauses if the deadline has not come: for twenty-five
/// milliseconds, or until the deadline where that is sooner. It goes on waiting
/// for the same group until the same deadline. A group that is gone ends the
/// termination with success, whatever the time is.
pub proof fn law_waits_look_at_group_and_clock(
    process_group_id: u32,
    pre: Termination,
    event: ProcessEvent,
    post: Termination,
    wait: ExitWait,
)
    requires
        pre.terminator == (LocalProcessTerminator::ProcessGroup { process_group_id }),
        pre.wf(),
        local::advances(pre, event, post),
        waiting(pre) == Some(wait),
    ensures
        wait.phase is Probe ==> pre.action_spec() == (ProcessAction::ProbeGroup {
            process_group_id,
        }),
        wait.phase is Clock ==> pre.action_spec() == ProcessAction::ReadClock,
        wait.phase matches exit_wait::ExitWaitPhase::Sleep { nanos } ==> pre.action_spec() == (
        ProcessAction::Sleep { nanos }),
        wait.phase is Probe && event == ProcessEvent::Probed(Ok(false)) ==> over_with(post, Ok(())),
        wait.phase is Probe && event == ProcessEvent::Probed(Ok(true)) ==> {
            &&& waits_on(pre, post)
            &&& post.action_spec() == ProcessAction::ReadClock
        },
        wait.phase is Clock ==> (event matches ProcessEvent::Clock(now) ==> (now < wait.deadline
            ==> {
            &&& waits_on(pre, post)
            &&& post.action_spec() matches ProcessAction::Sleep { nanos }
            &&& 0 < nanos <= 25_000_000
            &&& now + nanos <= wait.deadline
            &&& nanos == 25_000_000 || now + nanos == wait.deadline
        })),
        wait.phase is Sleep && event is Slept ==> {
            &&& waits_on(pre, post)
            &&& post.action_spec() == (ProcessAction::ProbeGroup { process_group_id })
        },
{
}

/// Whether a termination goes on with the same wait: for the same group, until
/// the same deadline, with the same knowledge of SIGKILL.
pub open spec fn waits_on(pre: Termination, post: Termination) -> bool {
    &&& waiting(pre) matches Some(before)
    &&& waiting(post) matches Some(after)
    &&& after.process_group_id == before.process_group_id
    &&& after.deadline == before.deadline
    &&& pre.state is TermWait <==> post.state is TermWait
    &&& pre.state matches TerminationState::KillWait { kill_error, .. } ==> (
    post.state matches TerminationState::KillWait { kill_error: kept, .. } && kept == kill_error)
}

/// The grace period ends: a group that was just seen to exist at or past the
/// deadline, or that cannot be looked at, is sent SIGKILL next.
pub proof fn law_grace_period_ends_in_kill(
    process_group_id: u32,
    pre: Termination,
    event: ProcessEvent,
    post: Termination,
    wait: ExitWait,
)
    requires
        pre.terminator == (LocalProcessTerminator::ProcessGroup { process_group_id }),
        pre.state == TerminationState::TermWait(wait),
        local::advances(pre, event, post),
    ensures
        wait.phase is Clock ==> (event matches ProcessEvent::Clock(now) && now >= wait.deadline ==> {
            &&& post.state is SendKill
            &&& post.action_spec() == (ProcessAction::SendKill { process_group_id })
        }),
        wait.phase is Probe ==> (event matches ProcessEvent::Probed(Err(_)) ==> {
            &&& post.state is SendKill
            &&& post.action_spec() == (ProcessAction::SendKill { process_group_id })
        }),
{
}

/// The confirmation ends: a group that was just seen to exist at or past the
/// deadline, or that cannot be looked at, makes the termination fail. It fails
/// as SIGKILL did, or else as the look did, or else with a timeout whose text
/// names the group by its number.
pub proof fn law_confirmation_ends_in_failure(
    process_group_id: u32,
    pre: Termination,
    event: ProcessEvent,
    post: Termination,
    kill_error: Option<IoError>,
    wait: ExitWait,
)
    requires
        pre.terminator == (LocalProcessTerminator::ProcessGroup { process_group_id }),
        pre.state == (TerminationState::KillWait { kill_error, wait }),
        local::advances(pre, event, post),
    ensures
        wait.phase is Clock ==> (event matches ProcessEvent::Clock(now) && now >= wait.deadline ==> {
            &&& post.result_spec() matches Some(Err(error))
            &&& over_with(post, Err(error))
            &&& kill_error matches Some(kill_error) ==> error == kill_error
            &&& kill_error is None ==> {
                &&& error.kind == ErrorKind::TimedOut
                &&& error.message@ == "MCP process group "@ + crate::text::decimal(
                    process_group_id as nat,
                ) + " still exists after SIGKILL confirmation timeout"@
            }
        }),
        wait.phase is Probe ==> (event matches ProcessEvent::Probed(Err(probe_error)) ==> {
            &&& post.result_spec() matches Some(Err(error))
            &&& over_with(post, Err(error))
            &&& kill_error matches Some(kill_error) ==> error == kill_error
            &&& kill_error is None ==> error == probe_error
        }),
{
}

/// A job or a process is terminated by one call: the answer to it ends the
/// termination, with success exactly when the answer was success, and otherwise
/// with a failure of no particular kind that carries the reported text.
pub proof fn law_handles_are_terminated_once(
    terminator: LocalProcessTerminator,
    states: Seq<Termination>,
    events: Seq<ProcessEvent>,
    i: int,
    n: int,
    terminated: Result<(), String>,
)
    requires
        is_run(terminator, states, events),
        terminator is Job || terminator is Process,
        0 <= i < n < states.len(),
        forall|j: int|
            0 <= j < i ==> !answers((#[trigger] states[j]).action_spec(), events[j]),
        events[i] == ProcessEvent::HandleTerminated(terminated),
    ensures
        terminator matches LocalProcessTerminator::Job { job } ==> states[i].action_spec() == (
        ProcessAction::TerminateJob { job }),
        terminator matches LocalProcessTerminator::Process { process } ==> states[i].action_spec()
            == (ProcessAction::TerminateProcess { process }),
        terminated is Ok ==> over_with(states[n], Ok(())),
        terminated matches Err(text) ==> {
            &&& states[n].result_spec() matches Some(Err(error))
            &&& over_with(states[n], Err(error))
            &&& error.kind == ErrorKind::Other
            &&& error.message == text
        },
{
    lemma_unanswered(terminator, states, events, i);
    assert(local::advances(states[i], events[i], states[i + 1]));
    law_result_is_final(terminator, states, events, i + 1, n);
}

/// Until an event answers the first action, a run stays where it began.
proof fn lemma_unanswered(
    terminator: LocalProcessTerminator,
    states: Seq<Termination>,
    events: Seq<ProcessEvent>,
    n: int,
)
    requires
        is_run(terminator, states, events),
        0 <= n < states.len(),
        forall|j: int|
            0 <= j < n ==> !answers((#[trigger] states[j]).action_spec(), events[j]),
    ensures
        states[n] == states[0],
    decreases n,
{
    if n > 0 {
        lemma_unanswered(terminator, states, events, n - 1);
        lemma_run_wf(terminator, states, events, n - 1);
        assert(!answers(states[n - 1].action_spec(), events[n - 1]));
        assert(local::advances(states[n - 1], events[n - 1], states[n - 1 + 1]));
    }
}

/// A process tree on a target without support for its termination is left
/// alone: the termination has succeeded before it began, whatever happens.
pub proof fn law_unsupported_trees_are_left_alone(
    states: Seq<Termination>,
    events: Seq<ProcessEvent>,
    n: int,
)
    requires
        is_run(LocalProcessTerminator::Unsupported, states, events),
        0 <= n < states.len(),
    ensures
        over_with(states[n], Ok(())),
{
    law_result_is_final(LocalProcessTerminator::Unsupported, states, events, 0, n);
}

/// Whether every event of a run answers what was asked for.
pub open spec fn all_answered(states: Seq<Termination>, events: Seq<ProcessEvent>) -> bool {
    forall|i: int|
        0 <= i < events.len() && !((#[trigger] states[i]).state is Done) ==> answers(
            states[i].action_spec(),
            events[i],
        )
}

/// Whether no event reports the group gone.
pub open spec fn never_gone(events: Seq<ProcessEvent>) -> bool {
    forall|i: int|
        0 <= i < events.len() ==> #[trigger] events[i] != ProcessEvent::TermSent(Ok(false))
            && events[i] != ProcessEvent::Probed(Ok(false))
}

/// Whether the pause that was asked for in step `i`, of that many nanoseconds,
/// was made.
pub open spec fn paused(
    states: Seq<Termination>,
    events: Seq<ProcessEvent>,
    i: int,
    nanos: u64,
) -> bool {
    states[i].action_spec() == (ProcessAction::Sleep { nanos }) && events[i] is Slept
}

/// Whether the clock never goes back, and a pause takes at least the time that
/// was asked for.
pub open spec fn clock_is_faithful(states: Seq<Termination>, events: Seq<ProcessEvent>) -> bool {
    &&& forall|i: int, from: u64, j: int, to: u64|
        0 <= i < j < events.len() && #[trigger] read_clock(states, events, i, from)
            && #[trigger] read_clock(states, events, j, to) ==> from <= to
    &&& forall|i: int, from: u64, p: int, nanos: u64, j: int, to: u64|
        0 <= i < p < j < events.len() && #[trigger] read_clock(states, events, i, from)
            && #[trigger] paused(states, events, p, nanos) && #[trigger] read_clock(
            states,
            events,
            j,
            to,
        ) ==> from + nanos <= to
}

/// The time that the clock showed in step `i`.
pub open spec fn reading(events: Seq<ProcessEvent>, i: int) -> u64 {
    match events[i] {
        ProcessEvent::Clock(now) => now,
        _ => 0,
    }
}

/// The pause that is asked for in step `i`.
pub open spec fn pause_asked(states: Seq<Termination>, i: int) -> u64 {
    match states[i].action_spec() {
        ProcessAction::Sleep { nanos } => nanos,
        _ => 0,
    }
}

/// What is known in step `n` of a wait that began in step `begin`: three steps
/// make a round, and the clock has moved by a poll interval for every round but
/// the last one.
spec fn waited(
    states: Seq<Termination>,
    events: Seq<ProcessEvent>,
    begin: int,
    deadline: u64,
    n: int,
) -> bool {
    let in_round = (n - begin) % 3;
    let round = (n - begin - 2) / 3;
    let last = begin + 1 + 3 * round;
    &&& waiting(states[n]) matches Some(wait)
    &&& wait.deadline == deadline
    &&& states[n].state is TermWait <==> states[begin].state is TermWait
    &&& in_round == 0 <==> wait.phase is Probe
    &&& in_round == 1 <==> wait.phase is Clock
    &&& n - begin >= 2 ==> {
        &&& read_clock(states, events, last, reading(events, last))
        &&& reading(events, begin - 1) + round * 25_000_000 <= reading(events, last) < deadline
        &&& states[last + 1].action_spec() is Sleep
        &&& pause_asked(states, last + 1) == 25_000_000 || reading(events, last) + pause_asked(
            states,
            last + 1,
        ) == deadline
        &&& in_round != 2 ==> paused(states, events, last + 1, pause_asked(states, last + 1))
    }
}

/// One step of a wait that goes on.
proof fn lemma_waits_one_step(
    process_group_id: u32,
    states: Seq<Termination>,
    events: Seq<ProcessEvent>,
    begin: int,
    deadline: u64,
    n: int,
)
    requires
        1 <= begin <= n < events.len(),
        waited(states, events, begin, deadline, n),
        clock_is_faithful(states, events),
        read_clock(states, events, begin - 1, reading(events, begin - 1)),
        states[n].terminator == (LocalProcessTerminator::ProcessGroup { process_group_id }),
        states[n].wf(),
        local::advances(states[n], events[n], states[n + 1]),
        answers(states[n].action_spec(), events[n]),
        waiting(states[n + 1]) is Some,
    ensures
        waited(states, events, begin, deadline, n + 1),
{
    let pre = states[n];
    let wait = waiting(pre)->Some_0;
    law_waits_look_at_group_and_clock(process_group_id, pre, events[n], states[n + 1], wait);
    if pre.state is TermWait {
        law_grace_period_ends_in_kill(process_group_id, pre, events[n], states[n + 1], wait);
    } else if let TerminationState::KillWait { kill_error, wait } = pre.state {
        law_confirmation_ends_in_failure(
            process_group_id,
            pre,
            events[n],
            states[n + 1],
            kill_error,
            wait,
        );
    }
    if wait.phase is Clock {
        let now = reading(events, n);
        assert(read_clock(states, events, n, now));
        if n - begin >= 2 {
            let last = begin + 1 + 3 * ((n - begin - 2) / 3);
            assert(last + 3 == n);
            assert(read_clock(states, events, last, reading(events, last)));
            assert(paused(states, events, last + 1, pause_asked(states, last + 1)));
            assert((n + 1 - begin - 2) / 3 == (n - begin - 2) / 3 + 1);
        } else {
            assert(n + 1 - begin - 2 == 0);
        }
    } else if wait.phase is Sleep {
        assert(paused(states, events, n, pause_asked(states, n)));
    }
}

/// What is known of a wait that goes on all the time.
proof fn lemma_rounds_of_a_run(
    process_group_id: u32,
    states: Seq<Termination>,
    events: Seq<ProcessEvent>,
    begin: int,
    deadline: u64,
    n: int,
)
    requires
        is_run(LocalProcessTerminator::ProcessGroup { process_group_id }, states, events),
        all_answered(states, events),
        clock_is_faithful(states, events),
        1 <= begin <= n < states.len(),
        read_clock(states, events, begin - 1, reading(events, begin - 1)),
        waiting(states[begin]) matches Some(wait) && wait.phase is Probe && wait.deadline
            == deadline,
        forall|m: int| begin <= m <= n ==> waiting(#[trigger] states[m]) is Some,
    ensures
        waited(states, events, begin, deadline, n),
    decreases n - begin,
{
    let terminator = LocalProcessTerminator::ProcessGroup { process_group_id };
    if n > begin {
        lemma_rounds_of_a_run(process_group_id, states, events, begin, deadline, n - 1);
        lemma_run_wf(terminator, states, events, n - 1);
        assert(waiting(states[n - 1]) is Some);
        assert(waiting(states[n]) is Some);
        assert(local::advances(states[n - 1], events[n - 1], states[n - 1 + 1]));
        assert(answers(states[n - 1].action_spec(), events[n - 1]));
        lemma_waits_one_step(process_group_id, states, events, begin, deadline, n - 1);
    }
}

/// The first state from `from` on that no longer waits.
proof fn lemma_first_exit(states: Seq<Termination>, from: int, to: int) -> (exit: int)
    requires
        0 <= from <= to < states.len(),
        waiting(states[to]) is None,
    ensures
        from <= exit <= to,
        waiting(states[exit]) is None,
        forall|m: int| from <= m < exit ==> waiting(#[trigger] states[m]) is Some,
    decreases to - from,
{
    if waiting(states[from]) is None {
        from
    } else {
        lemma_first_exit(states, from + 1, to)
    }
}

/// A wait over at most `polls` poll intervals ends after at most `polls` pauses.
/// The wait of the grace period then leads to SIGKILL, unless the group is
/// gone; the one after SIGKILL leads to the end.
proof fn lemma_wait_of_a_run_ends(
    process_group_id: u32,
    states: Seq<Termination>,
    events: Seq<ProcessEvent>,
    begin: int,
    polls: int,
) -> (exit: int)
    requires
        is_run(LocalProcessTerminator::ProcessGroup { process_group_id }, states, events),
        all_answered(states, events),
        clock_is_faithful(states, events),
        1 <= begin,
        0 <= polls,
        begin + 3 * polls + 2 < states.len(),
        read_clock(states, events, begin - 1, reading(events, begin - 1)),
        waiting(states[begin]) matches Some(wait) && wait.phase is Probe && wait.deadline
            <= reading(events, begin - 1) + polls * 25_000_000,
    ensures
        begin < exit <= begin + 3 * polls + 2,
        states[begin].state is TermWait ==> states[exit].state is SendKill || over_with(
            states[exit],
            Ok(()),
        ),
        states[begin].state is KillWait ==> states[exit].state is Done,
{
    let terminator = LocalProcessTerminator::ProcessGroup { process_group_id };
    let last = begin + 3 * polls + 2;
    let deadline = waiting(states[begin])->Some_0.deadline;
    if forall|m: int| begin <= m <= last ==> waiting(#[trigger] states[m]) is Some {
        lemma_rounds_of_a_run(process_group_id, states, events, begin, deadline, last);
        assert((last - begin - 2) / 3 == polls);
        assert(false);
    }
    let late = choose|m: int| begin <= m <= last && waiting(#[trigger] states[m]) is None;
    let exit = lemma_first_exit(states, begin, late);
    let pre = states[exit - 1];
    let event = events[exit - 1];
    assert(waiting(pre) is Some);
    let wait = waiting(pre)->Some_0;
    lemma_rounds_of_a_run(process_group_id, states, events, begin, deadline, exit - 1);
    lemma_run_wf(terminator, states, events, exit - 1);
    assert(local::advances(pre, event, states[exit - 1 + 1]));
    assert(answers(pre.action_spec(), event));
    law_waits_look_at_group_and_clock(process_group_id, pre, event, states[exit], wait);
    if let TerminationState::KillWait { kill_error, wait } = pre.state {
        law_confirmation_ends_in_failure(
            process_group_id,
            pre,
            event,
            states[exit],
            kill_error,
            wait,
        );
    } else {
        law_grace_period_ends_in_kill(process_group_id, pre, event, states[exit], wait);
    }
    exit
}

/// After SIGKILL was asked for in step `kill`, a termination is over within one
/// hundred and twenty-four events.
proof fn lemma_kill_leads_to_the_end(
    process_group_id: u32,
    states: Seq<Termination>,
    events: Seq<ProcessEvent>,
    kill: int,
) -> (end: int)
    requires
        is_run(LocalProcessTerminator::ProcessGroup { process_group_id }, states, events),
        forall|i: int| 0 <= i < events.len() ==> #[trigger] states[i].deadline_fits(events[i]),
        all_answered(states, events),
        clock_is_faithful(states, events),
        0 <= kill,
        kill + 124 < states.len(),
        states[kill].state is SendKill,
    ensures
        kill < end <= kill + 124,
        states[end].state is Done,
{
    let terminator = LocalProcessTerminator::ProcessGroup { process_group_id };
    lemma_run_wf(terminator, states, events, kill);
    lemma_run_wf(terminator, states, events, kill + 1);
    assert(local::advances(states[kill], events[kill], states[kill + 1]));
    assert(states[kill].deadline_fits(events[kill]));
    law_kill_is_confirmed(process_group_id, states[kill], events[kill], states[kill + 1]);
    assert(answers(states[kill].action_spec(), events[kill]));
    assert(local::advances(states[kill + 1], events[kill + 1], states[kill + 1 + 1]));
    assert(states[kill + 1].deadline_fits(events[kill + 1]));
    law_kill_is_confirmed(
        process_group_id,
        states[kill + 1],
        events[kill + 1],
        states[kill + 2],
    );
    assert(answers(states[kill + 1].action_spec(), events[kill + 1]));
    assert(read_clock(states, events, kill + 1, reading(events, kill + 1)));
    lemma_wait_of_a_run_ends(process_group_id, states, events, kill + 2, 40)
}

/// As long as every action is answered and the clock keeps up with the pauses,
/// a process group that is never reported gone is sent SIGKILL within two
/// hundred and forty-four events.
pub proof fn law_lasting_group_is_killed(
    process_group_id: u32,
    states: Seq<Termination>,
    events: Seq<ProcessEvent>,
) -> (kill: int)
    requires
        is_run(LocalProcessTerminator::ProcessGroup { process_group_id }, states, events),
        forall|i: int| 0 <= i < events.len() ==> #[trigger] states[i].deadline_fits(events[i]),
        all_answered(states, events),
        clock_is_faithful(states, events),
        never_gone(events),
        244 < states.len(),
    ensures
        0 < kill <= 244,
        states[kill].action_spec() == (ProcessAction::SendKill { process_group_id }),
{
    let terminator = LocalProcessTerminator::ProcessGroup { process_group_id };
    let kill = lemma_way_to_kill(process_group_id, states, events);
    lemma_run_wf(terminator, states, events, kill);
    law_success_means_gone(process_group_id, states, events, kill);
    assert forall|i: int| 0 <= i < kill implies !#[trigger] reported_gone(states, events, i) by {
        assert(events[i] != ProcessEvent::TermSent(Ok(false)));
    }
    kill
}

/// Within two hundred and forty-four events a termination asks for SIGKILL, or
/// the group is gone.
proof fn lemma_way_to_kill(
    process_group_id: u32,
    states: Seq<Termination>,
    events: Seq<ProcessEvent>,
) -> (kill: int)
    requires
        is_run(LocalProcessTerminator::ProcessGroup { process_group_id }, states, events),
        forall|i: int| 0 <= i < events.len() ==> #[trigger] states[i].deadline_fits(events[i]),
        all_answered(states, events),
        clock_is_faithful(states, events),
        244 < states.len(),
    ensures
        0 < kill <= 244,
        states[kill].state is SendKill || over_with(states[kill], Ok(())),
{
    let terminator = LocalProcessTerminator::ProcessGroup { process_group_id };
    lemma_run_wf(terminator, states, events, 1);
    assert(local::advances(states[0], events[0], states[1]));
    assert(states[0].deadline_fits(events[0]));
    law_term_comes_first(process_group_id, states[0], events[0], states[1]);
    assert(answers(states[0].action_spec(), events[0]));
    if states[1].state is TermClock {
        assert(local::advances(states[1], events[1], states[2]));
        assert(states[1].deadline_fits(events[1]));
        law_term_comes_first(process_group_id, states[1], events[1], states[2]);
        assert(answers(states[1].action_spec(), events[1]));
        assert(read_clock(states, events, 1, reading(events, 1)));
        lemma_wait_of_a_run_ends(process_group_id, states, events, 2, 80)
    } else {
        1
    }
}

/// The termination of a process group comes to its end: as long as every action
/// is answered and the clock keeps up with the pauses, it is over after three
/// hundred and sixty-eight events. For a group that was never reported gone it
/// is over with a failure, and SIGKILL was asked for on the way.
pub proof fn law_termination_is_bounded(
    process_group_id: u32,
    states: Seq<Termination>,
    events: Seq<ProcessEvent>,
    n: int,
)
    requires
        is_run(LocalProcessTerminator::ProcessGroup { process_group_id }, states, events),
        forall|i: int| 0 <= i < events.len() ==> #[trigger] states[i].deadline_fits(events[i]),
        all_answered(states, events),
        clock_is_faithful(states, events),
        368 <= n < states.len(),
    ensures
        states[n].state is Done,
        states[n].action_spec() == ProcessAction::Finished,
        never_gone(events) ==> states[n].result_spec() matches Some(Err(_)),
        never_gone(events) ==> exists|kill: int|
            0 < kill <= 244 && (#[trigger] states[kill]).action_spec() == (
            ProcessAction::SendKill { process_group_id }),
{
    let terminator = LocalProcessTerminator::ProcessGroup { process_group_id };
    let kill = lemma_way_to_kill(process_group_id, states, events);
    let end = if states[kill].state is SendKill {
        lemma_kill_leads_to_the_end(process_group_id, states, events, kill)
    } else {
        kill
    };
    law_result_is_final(terminator, states, events, end, n);
    if never_gone(events) {
        let killed = law_lasting_group_is_killed(process_group_id, states, events);
        assert(states[killed].action_spec() == (ProcessAction::SendKill { process_group_id }));
        law_success_means_gone(process_group_id, states, events, n);
        assert forall|i: int| 0 <= i < n implies !#[trigger] reported_gone(states, events, i) by {
            assert(events[i] != ProcessEvent::TermSent(Ok(false)));
        }
        if let TerminationState::Done(Ok(unit)) = states[n].state {
            assert(unit == ());
        }
    }
}

/// In every run: when a termination in its grace period has just seen the group
/// exist, and the clock then shows the deadline or a later time, SIGKILL is
/// asked for next; at an earlier time a pause is. The deadline lies two seconds
/// after an earlier reading of the clock.
pub proof fn law_deadline_decides(
    process_group_id: u32,
    states: Seq<Termination>,
    events: Seq<ProcessEvent>,
    n: int,
    wait: ExitWait,
    now: u64,
)
    requires
        is_run(LocalProcessTerminator::ProcessGroup { process_group_id }, states, events),
        forall|i: int| 0 <= i < events.len() ==> #[trigger] states[i].deadline_fits(events[i]),
        0 < n < events.len(),
        states[n - 1].state is TermWait,
        states[n - 1].action_spec() is ProbeGroup,
        events[n - 1] == ProcessEvent::Probed(Ok(true)),
        states[n].state == TerminationState::TermWait(wait),
        events[n] == ProcessEvent::Clock(now),
    ensures
        states[n].action_spec() == ProcessAction::ReadClock,
        now >= wait.deadline <==> states[n + 1].action_spec() == (ProcessAction::SendKill {
            process_group_id,
        }),
        now < wait.deadline <==> states[n + 1].action_spec() is Sleep,
        exists|i: int, from: u64|
            0 <= i < n && #[trigger] read_clock(states, events, i, from) && wait.deadline == from
                + 2_000_000_000,
{
    let terminator = LocalProcessTerminator::ProcessGroup { process_group_id };
    lemma_run_wf(terminator, states, events, n - 1);
    lemma_run_wf(terminator, states, events, n);
    lemma_run_wf(terminator, states, events, n + 1);
    lemma_grace_deadline(process_group_id, states, events, n);
    assert(local::advances(states[n - 1], events[n - 1], states[n - 1 + 1]));
    assert(local::advances(states[n], events[n], states[n + 1]));
}

/// Nothing but the owned tree is ever named, by a termination or by a drop: a
/// signal or a look goes to the group of the token, and a job or a process is
/// terminated only by the token that holds it.
pub proof fn law_actions_name_the_token(
    terminator: LocalProcessTerminator,
    states: Seq<Termination>,
    events: Seq<ProcessEvent>,
    n: int,
    action: ProcessAction,
)
    requires
        is_run(terminator, states, events),
        0 <= n < states.len(),
        action == states[n].action_spec() || action == terminator.terminate_on_drop_spec(),
    ensures
        match action {
            ProcessAction::SendTerm { process_group_id }
            | ProcessAction::SendKill { process_group_id }
            | ProcessAction::ProbeGroup { process_group_id } => terminator == (
            LocalProcessTerminator::ProcessGroup { process_group_id }),
            ProcessAction::TerminateJob { job } => terminator == (LocalProcessTerminator::Job {
                job,
            }),
            ProcessAction::TerminateProcess { process } => terminator == (
            LocalProcessTerminator::Process { process }),
            _ => true,
        },
{
    lemma_run_wf(terminator, states, events, n);
}

/// A drop does at once what a termination does first. What it leaves to be done
/// later is one SIGKILL, two seconds on, for the group of the token, unless that
/// group was found gone.
pub proof fn law_drop_begins_like_a_termination(
    terminator: LocalProcessTerminator,
    term_sent: Result<bool, IoError>,
)
    ensures
        terminator.terminate_on_drop_spec() == terminator.terminate_spec().action_spec(),
        terminator matches LocalProcessTerminator::ProcessGroup { process_group_id } ==> {
            &&& terminator.terminate_on_drop_spec() == (ProcessAction::SendTerm {
                process_group_id,
            })
            &&& terminator.escalation_spec(term_sent) is None <==> term_sent == Ok::<
                bool,
                IoError,
            >(false)
            &&& terminator.escalation_spec(term_sent) matches Some(escalation) ==> {
                &&& escalation.delay == 2_000_000_000
                &&& escalation.process_group_id == process_group_id
            }
        },
        terminator matches LocalProcessTerminator::Job { job } ==> {
            &&& terminator.terminate_on_drop_spec() == (ProcessAction::TerminateJob { job })
            &&& terminator.escalation_spec(term_sent) is None
        },
        terminator matches LocalProcessTerminator::Process { process } ==> {
            &&& terminator.terminate_on_drop_spec() == (ProcessAction::TerminateProcess { process })
            &&& terminator.escalation_spec(term_sent) is None
        },
        terminator is Unsupported ==> {
            &&& terminator.terminate_on_drop_spec() == ProcessAction::Finished
            &&& terminator.escalation_spec(term_sent) is None
        },
{
}

/// A reading of the clock is accepted up to the last two seconds of the clock's
/// range, and wherever it fixes no deadline; no other event is ever too large.
pub proof fn law_deadlines_fit(termination: Termination, event: ProcessEvent)
    ensures
        event matches ProcessEvent::Clock(now) ==> (now <= u64::MAX - 2_000_000_000
            ==> termination.deadline_fits(event)),
        !(termination.state is TermClock) && !(termination.state is KillClock)
            ==> termination.deadline_fits(event),
        !(event is Clock) ==> termination.deadline_fits(event),
{
}

/// A state that does not belong to the kind of tree stays as it is.
pub proof fn law_foreign_states_stay(pre: Termination, event: ProcessEvent, post: Termination)
    requires
        local::advances(pre, event, post),
        match pre.terminator {
            LocalProcessTerminator::ProcessGroup { .. } => pre.state is TerminateHandle,
            LocalProcessTerminator::Job { .. } | LocalProcessTerminator::Process { .. } => !(
            pre.state is TerminateHandle),
            LocalProcessTerminator::Unsupported => true,
        },
    ensures
        post == pre,
{
}

} // verus!
