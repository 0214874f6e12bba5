//! What holds of every run of a supervisor, whatever the embedding program
//! observes.

use vstd::prelude::*;

use crate::error::ErrorKind;
use crate::supervisor;
use crate::supervisor::{
    GroupTermination, GroupTerminationStep, ParentProbe, Signal, StandardStream, Supervisor,
    SupervisorAction, SupervisorEvent, SupervisorPhase, TargetStatus,
    PROCESS_GROUP_TERM_GRACE_PERIOD,
};

verus! {

/// Whether `states` are the successive states of a supervisor that was started
/// with `argv`, with one event between each two.
pub open spec fn is_run<A>(
    argv: Seq<A>,
    states: Seq<Supervisor<A>>,
    events: Seq<SupervisorEvent>,
) -> bool {
    &&& states.len() == events.len() + 1
    &&& states[0].started_with(argv)
    &&& forall|i: int|
        #![trigger states[i], events[i]]
        0 <= i < events.len() ==> states[i].advances(events[i], states[i + 1])
}

/// Whether the IDs of a parent and of a process group were read in step `i`.
pub open spec fn ids_read<A>(
    states: Seq<Supervisor<A>>,
    events: Seq<SupervisorEvent>,
    i: int,
    parent_pid: i32,
    process_group_id: i32,
) -> bool {
    states[i].action_spec() is ReadIds && events[i] == (SupervisorEvent::Ids {
        parent_pid,
        process_group_id,
    })
}

/// Whether the ID of this process group was read before step `n`.
pub open spec fn group_was_read<A>(
    states: Seq<Supervisor<A>>,
    events: Seq<SupervisorEvent>,
    n: int,
    process_group_id: i32,
) -> bool {
    exists|i: int, parent_pid: i32|
        0 <= i < n && #[trigger] ids_read(states, events, i, parent_pid, process_group_id)
}

/// Whether the ID of this parent was read before step `n`.
pub open spec fn parent_was_read<A>(
    states: Seq<Supervisor<A>>,
    events: Seq<SupervisorEvent>,
    n: int,
    parent_pid: i32,
) -> bool {
    exists|i: int, process_group_id: i32|
        0 <= i < n && #[trigger] ids_read(states, events, i, parent_pid, process_group_id)
}

/// Whether the parent was found to be gone in step `i`.
pub open spec fn parent_lost<A>(
    states: Seq<Supervisor<A>>,
    events: Seq<SupervisorEvent>,
    i: int,
) -> bool {
    ||| states[i].action_spec() is ReadParent && (events[i] matches SupervisorEvent::ParentRead(
        current,
    ) && current != states[i].parent_pid)
    ||| states[i].action_spec() is ProbeParent && (events[i] matches SupervisorEvent::ParentProbed(
        probe,
    ) && probe.returned != 0 && !probe.not_permitted)
}

/// Whether the target was spawned in step `i`.
pub open spec fn target_spawned<A>(
    states: Seq<Supervisor<A>>,
    events: Seq<SupervisorEvent>,
    i: int,
) -> bool {
    states[i].action_spec() is SpawnTarget && events[i] == SupervisorEvent::Spawned(Ok(()))
}

/// Whether the target was found to have ended in step `i`.
pub open spec fn target_ended<A>(
    states: Seq<Supervisor<A>>,
    events: Seq<SupervisorEvent>,
    i: int,
    status: TargetStatus,
) -> bool {
    states[i].action_spec() is PollTarget && events[i] == SupervisorEvent::Polled(
        Ok(Some(status)),
    )
}

/// Whether the given action was performed in step `i`.
pub open spec fn performed<A>(
    states: Seq<Supervisor<A>>,
    events: Seq<SupervisorEvent>,
    i: int,
    action: SupervisorAction,
) -> bool {
    states[i].action_spec() == action && events[i] == SupervisorEvent::Performed
}

/// How far the termination of the group has come.
pub open spec fn rank(step: GroupTerminationStep) -> nat {
    match step {
        GroupTerminationStep::Term => 0,
        GroupTerminationStep::Grace => 1,
        GroupTerminationStep::Kill => 2,
        GroupTerminationStep::Exit => 3,
    }
}

/// Every state of a run is well formed.
proof fn lemma_run_wf<A>(
    argv: Seq<A>,
    states: Seq<Supervisor<A>>,
    events: Seq<SupervisorEvent>,
    n: int,
)
    requires
        is_run(argv, states, events),
        0 <= n < states.len(),
    ensures
        states[n].wf(),
    decreases n,
{
    if n > 0 {
        lemma_run_wf(argv, states, events, n - 1);
        assert(states[n - 1].advances(events[n - 1], states[n - 1 + 1]));
    }
}

/// The IDs that the supervisor works with are those that were read.
proof fn lemma_ids_were_read<A>(
    argv: Seq<A>,
    states: Seq<Supervisor<A>>,
    events: Seq<SupervisorEvent>,
    n: int,
)
    requires
        is_run(argv, states, events),
        0 <= n < states.len(),
        !(states[n].phase is ReadIds),
        !(states[n].phase is Done),
    ensures
        exists|i: int|
            0 <= i < n && #[trigger] ids_read(
                states,
                events,
                i,
                states[n].parent_pid,
                states[n].process_group_id,
            ),
    decreases n,
{
    if n > 0 {
        assert(states[n - 1].advances(events[n - 1], states[n - 1 + 1]));
        if states[n - 1].phase is ReadIds {
            assert(ids_read(
                states,
                events,
                n - 1,
                states[n].parent_pid,
                states[n].process_group_id,
            ));
        } else {
            lemma_ids_were_read(argv, states, events, n - 1);
            let i = choose|i: int|
                0 <= i < n - 1 && #[trigger] ids_read(
                    states,
                    events,
                    i,
                    states[n - 1].parent_pid,
                    states[n - 1].process_group_id,
                );
            assert(ids_read(
                states,
                events,
                i,
                states[n].parent_pid,
                states[n].process_group_id,
            ));
        }
    }
}

/// The supervisor signals no group but its own, and probes no process but its
/// parent: the IDs are those that were read at the start, and were found to
/// name a live parent and a real group.
pub proof fn law_only_the_own_group_is_signalled<A>(
    argv: Seq<A>,
    states: Seq<Supervisor<A>>,
    events: Seq<SupervisorEvent>,
    n: int,
)
    requires
        is_run(argv, states, events),
        0 <= n < states.len(),
    ensures
        states[n].action_spec() matches SupervisorAction::SignalGroup { process_group_id, .. }
            ==> process_group_id > 0 && group_was_read(states, events, n, process_group_id),
        states[n].action_spec() matches SupervisorAction::ProbeParent { pid } ==> pid > 1
            && parent_was_read(states, events, n, pid),
{
    lemma_run_wf(argv, states, events, n);
    if !(states[n].phase is ReadIds) && !(states[n].phase is Done) {
        lemma_ids_were_read(argv, states, events, n);
        let parent_pid = states[n].parent_pid;
        let process_group_id = states[n].process_group_id;
        let i = choose|i: int|
            0 <= i < n && #[trigger] ids_read(states, events, i, parent_pid, process_group_id);
        assert(ids_read(states, events, i, parent_pid, process_group_id));
        assert(group_was_read(states, events, n, process_group_id));
        assert(parent_was_read(states, events, n, parent_pid));
    }
}

/// The group is signalled only after the parent was found to be gone.
pub proof fn law_group_outlives_a_live_parent<A>(
    argv: Seq<A>,
    states: Seq<Supervisor<A>>,
    events: Seq<SupervisorEvent>,
    n: int,
)
    requires
        is_run(argv, states, events),
        0 <= n < states.len(),
        states[n].phase is Terminate || states[n].action_spec() is SignalGroup
            || states[n].action_spec() is ExitAtOnce,
    ensures
        exists|i: int| 0 <= i < n && #[trigger] parent_lost(states, events, i),
    decreases n,
{
    if n > 0 {
        assert(states[n - 1].advances(events[n - 1], states[n - 1 + 1]));
        if states[n - 1].phase is Terminate {
            law_group_outlives_a_live_parent(argv, states, events, n - 1);
        } else {
            assert(parent_lost(states, events, n - 1));
        }
    }
}

/// A supervisor that has found its parent gone terminates the group at once, and
/// from then on does nothing else.
pub proof fn law_lost_parent_ends_the_group<A>(
    argv: Seq<A>,
    states: Seq<Supervisor<A>>,
    events: Seq<SupervisorEvent>,
    i: int,
    n: int,
)
    requires
        is_run(argv, states, events),
        0 <= i < n < states.len(),
        parent_lost(states, events, i),
    ensures
        states[i + 1].phase == SupervisorPhase::Terminate(
            GroupTermination::begin(states[i].process_group_id),
        ),
        states[n].phase matches SupervisorPhase::Terminate(termination)
            && termination.process_group_id == states[i].process_group_id,
    decreases n,
{
    assert(states[i].advances(events[i], states[i + 1]));
    lemma_run_wf(argv, states, events, i);
    if i + 1 < n {
        law_lost_parent_ends_the_group(argv, states, events, i, n - 1);
        assert(states[n - 1].advances(events[n - 1], states[n - 1 + 1]));
    }
}

/// The termination of the group runs in one direction only: SIGTERM, the grace
/// period, SIGKILL, exit. Whatever is asked for was preceded by the others, each
/// performed.
pub proof fn law_termination_runs_in_order<A>(
    argv: Seq<A>,
    states: Seq<Supervisor<A>>,
    events: Seq<SupervisorEvent>,
    n: int,
    termination: GroupTermination,
)
    requires
        is_run(argv, states, events),
        0 <= n < states.len(),
        states[n].phase == SupervisorPhase::Terminate(termination),
    ensures
        rank(termination.step) >= 1 ==> exists|t: int|
            0 <= t < n && #[trigger] performed(
                states,
                events,
                t,
                SupervisorAction::SignalGroup {
                    process_group_id: termination.process_group_id,
                    signal: Signal::Term,
                },
            ),
        rank(termination.step) >= 2 ==> exists|t: int, g: int|
            0 <= t < g < n && #[trigger] performed(
                states,
                events,
                t,
                SupervisorAction::SignalGroup {
                    process_group_id: termination.process_group_id,
                    signal: Signal::Term,
                },
            ) && #[trigger] performed(
                states,
                events,
                g,
                SupervisorAction::Sleep { nanos: PROCESS_GROUP_TERM_GRACE_PERIOD },
            ),
        rank(termination.step) >= 3 ==> exists|t: int, g: int, k: int|
            0 <= t < g < k < n && #[trigger] performed(
                states,
                events,
                t,
                SupervisorAction::SignalGroup {
                    process_group_id: termination.process_group_id,
                    signal: Signal::Term,
                },
            ) && #[trigger] performed(
                states,
                events,
                g,
                SupervisorAction::Sleep { nanos: PROCESS_GROUP_TERM_GRACE_PERIOD },
            ) && #[trigger] performed(
                states,
                events,
                k,
                SupervisorAction::SignalGroup {
                    process_group_id: termination.process_group_id,
                    signal: Signal::Kill,
                },
            ),
    decreases n,
{
    let group = termination.process_group_id;
    let term = SupervisorAction::SignalGroup { process_group_id: group, signal: Signal::Term };
    let grace = SupervisorAction::Sleep { nanos: PROCESS_GROUP_TERM_GRACE_PERIOD };
    let kill = SupervisorAction::SignalGroup { process_group_id: group, signal: Signal::Kill };
    if n > 0 {
        assert(states[n - 1].advances(events[n - 1], states[n - 1 + 1]));
        if let SupervisorPhase::Terminate(before) = states[n - 1].phase {
            law_termination_runs_in_order(argv, states, events, n - 1, before);
            assert(before.process_group_id == group);
            if rank(before.step) >= 1 {
                let t = choose|t: int| 0 <= t < n - 1 && #[trigger] performed(states, events, t, term);
                assert(performed(states, events, t, term));
            }
            if rank(before.step) >= 2 {
                let (t, g) = choose|t: int, g: int|
                    0 <= t < g < n - 1 && #[trigger] performed(states, events, t, term)
                        && #[trigger] performed(states, events, g, grace);
                assert(performed(states, events, t, term));
                assert(performed(states, events, g, grace));
            }
            if rank(before.step) >= 3 {
                let (t, g, k) = choose|t: int, g: int, k: int|
                    0 <= t < g < k < n - 1 && #[trigger] performed(states, events, t, term)
                        && #[trigger] performed(states, events, g, grace)
                        && #[trigger] performed(states, events, k, kill);
                assert(performed(states, events, t, term));
                assert(performed(states, events, g, grace));
                assert(performed(states, events, k, kill));
            }
            if events[n - 1] is Performed {
                assert(performed(states, events, n - 1, before.action_spec()));
            }
        }
    }
}

/// The graceful signals are ignored, and the standard streams closed, only once
/// the target was spawned, which therefore has inherited neither.
pub proof fn law_target_starts_undisturbed<A>(
    argv: Seq<A>,
    states: Seq<Supervisor<A>>,
    events: Seq<SupervisorEvent>,
    n: int,
)
    requires
        is_run(argv, states, events),
        0 <= n < states.len(),
        !(states[n].phase is ReadIds),
        !(states[n].phase is Spawn),
        !(states[n].phase is Done),
    ensures
        exists|i: int| 0 <= i < n && #[trigger] target_spawned(states, events, i),
    decreases n,
{
    if n > 0 {
        assert(states[n - 1].advances(events[n - 1], states[n - 1 + 1]));
        if states[n - 1].phase is Spawn {
            if let SupervisorEvent::Spawned(Ok(unit)) = events[n - 1] {
                assert(unit == ());
            }
            assert(target_spawned(states, events, n - 1));
        } else {
            law_target_starts_undisturbed(argv, states, events, n - 1);
        }
    }
}

/// Whether a code reports how the target ended: the target's own code, or 128
/// more than the number of the signal that ended it, or 1 where neither is known.
pub open spec fn reports(code: i32, status: TargetStatus) -> bool {
    &&& status.code matches Some(own) ==> code == own
    &&& status.code is None ==> (status.signal matches Some(signal) ==> code - 128 == signal)
    &&& status.code is None && status.signal is None ==> code == 1
}

/// A supervisor that succeeds has seen its target end, and exits with the code
/// that reports how.
pub proof fn law_success_reports_the_target<A>(
    argv: Seq<A>,
    states: Seq<Supervisor<A>>,
    events: Seq<SupervisorEvent>,
    n: int,
    code: i32,
)
    requires
        is_run(argv, states, events),
        forall|i: int| 0 <= i < events.len() ==> #[trigger] states[i].code_fits(events[i]),
        0 <= n < states.len(),
        states[n].phase == SupervisorPhase::Done(Ok(code)),
    ensures
        exists|i: int, status: TargetStatus|
            0 <= i < n && #[trigger] target_ended(states, events, i, status) && code
                == supervisor::exit_code_spec(status) && reports(code, status),
        states[n].action_spec() == (SupervisorAction::Exit { code }),
    decreases n,
{
    if n > 0 {
        assert(states[n - 1].advances(events[n - 1], states[n - 1 + 1]));
        assert(states[n - 1].code_fits(events[n - 1]));
        if states[n - 1].phase is Done {
            law_success_reports_the_target(argv, states, events, n - 1, code);
            let (i, status) = choose|i: int, status: TargetStatus|
                0 <= i < n - 1 && #[trigger] target_ended(states, events, i, status) && code
                    == supervisor::exit_code_spec(status) && reports(code, status);
            assert(target_ended(states, events, i, status));
        } else if let SupervisorEvent::Polled(Ok(Some(status))) = events[n - 1] {
            assert(target_ended(states, events, n - 1, status));
        }
    }
}

/// As long as the target runs and the parent is alive, supervision goes on: one
/// round of looks ends in a pause of the poll interval and comes back to where
/// it began. A parent that must not be signalled counts as alive.
pub proof fn law_supervision_goes_on<A>(
    start: Supervisor<A>,
    polled: Supervisor<A>,
    parent_read: Supervisor<A>,
    probed: Supervisor<A>,
    end: Supervisor<A>,
    probe: ParentProbe,
)
    requires
        start.phase is Poll,
        probe.returned == 0 || probe.not_permitted,
        start.advances(SupervisorEvent::Polled(Ok(None)), polled),
        polled.advances(SupervisorEvent::ParentRead(start.parent_pid), parent_read),
        parent_read.advances(SupervisorEvent::ParentProbed(probe), probed),
        probed.advances(SupervisorEvent::Performed, end),
    ensures
        end == start,
        polled.action_spec() is ReadParent,
        parent_read.action_spec() == (SupervisorAction::ProbeParent { pid: start.parent_pid }),
        probed.action_spec() == (SupervisorAction::Sleep {
            nanos: supervisor::PARENT_POLL_INTERVAL,
        }),
{
}

/// Different codes, and different signals, are reported by different exit codes:
/// what ended a target can be read off the code, given whether it was a signal.
pub proof fn law_exit_codes_tell_apart(status: TargetStatus, other: TargetStatus)
    requires
        supervisor::exit_code_fits(status),
        supervisor::exit_code_fits(other),
        supervisor::exit_code_spec(status) == supervisor::exit_code_spec(other),
    ensures
        reports(supervisor::exit_code_spec(status) as i32, status),
        status.code is Some && other.code is Some ==> status.code == other.code,
        status.code is None && other.code is None ==> (status.signal matches Some(signal) ==> (
        other.signal matches Some(other_signal) ==> signal == other_signal)),
{
}

/// The parent is known to be gone exactly when the supervisor has another parent
/// or the null signal failed for another reason than a missing permission; it is
/// known to be alive exactly when the supervisor still has it and the null signal
/// found it.
pub proof fn law_parent_is_known_by_id_and_probe(
    parent_pid: i32,
    current_parent: i32,
    probe: Option<ParentProbe>,
)
    ensures
        supervisor::parent_is_alive_spec(parent_pid, current_parent, probe) == Some(false)
            <==> current_parent != parent_pid || (probe matches Some(probe) && probe.returned != 0
            && !probe.not_permitted),
        supervisor::parent_is_alive_spec(parent_pid, current_parent, probe) == Some(true)
            <==> current_parent == parent_pid && (probe matches Some(probe) && (probe.returned == 0
            || probe.not_permitted)),
        supervisor::parent_is_alive_spec(parent_pid, current_parent, probe) is None
            <==> current_parent == parent_pid && probe is None,
{
}

/// Whether an event is an answer to an action.
pub open spec fn answers(action: SupervisorAction, event: SupervisorEvent) -> bool {
    match event {
        SupervisorEvent::Ids { .. } => action is ReadIds,
        SupervisorEvent::Spawned(_) => action is SpawnTarget,
        SupervisorEvent::Performed => {
            action is IgnoreSignal || action is CloseStream || action is Sleep
                || action is SignalGroup
        },
        SupervisorEvent::Polled(_) => action is PollTarget,
        SupervisorEvent::ParentRead(_) => action is ReadParent,
        SupervisorEvent::ParentProbed(_) => action is ProbeParent,
    }
}

/// The supervisor reacts to answers only: any other event leaves it as it is. It
/// never changes its target, and its parent and its group only when it reads
/// them.
pub proof fn law_only_answers_count<A>(
    pre: Supervisor<A>,
    event: SupervisorEvent,
    post: Supervisor<A>,
)
    requires
        pre.advances(event, post),
    ensures
        !answers(pre.action_spec(), event) ==> post == pre,
        post.command == pre.command,
        !(pre.action_spec() is ReadIds) ==> {
            &&& post.parent_pid == pre.parent_pid
            &&& post.process_group_id == pre.process_group_id
        },
        pre.phase is Done ==> post == pre,
{
}

/// The supervisor runs the program that stands third among its arguments, with
/// the arguments that follow; without one it has failed before it began.
pub proof fn law_target_comes_from_the_arguments<A>(
    argv: Seq<A>,
    states: Seq<Supervisor<A>>,
    events: Seq<SupervisorEvent>,
    n: int,
)
    requires
        is_run(argv, states, events),
        0 <= n < states.len(),
    ensures
        argv.len() > 2 ==> {
            &&& states[0].action_spec() == SupervisorAction::ReadIds
            &&& states[n].command matches Some(command)
            &&& argv == argv.take(2).push(command.program) + command.args@
        },
        argv.len() <= 2 ==> {
            &&& states[n].command is None
            &&& states[n].action_spec() == (SupervisorAction::Exit { code: 1 })
            &&& states[n].phase matches SupervisorPhase::Done(Err(error))
            &&& error.kind == ErrorKind::InvalidInput
            &&& error.message@ == "MCP process supervisor requires a target program"@
        },
    decreases n,
{
    if n > 0 {
        law_target_comes_from_the_arguments(argv, states, events, n - 1);
        assert(states[n - 1].advances(events[n - 1], states[n - 1 + 1]));
    } else if argv.len() > 2 {
        let command = states[0].command->Some_0;
        assert(argv =~= argv.take(2).push(command.program) + command.args@);
    }
}

/// The supervisor spawns its target once it has read a parent that is not the
/// first process and a group; any other IDs make it fail. It keeps the IDs.
pub proof fn law_ids_are_checked<A>(
    pre: Supervisor<A>,
    parent_pid: i32,
    process_group_id: i32,
    post: Supervisor<A>,
)
    requires
        pre.phase is ReadIds,
        pre.advances(SupervisorEvent::Ids { parent_pid, process_group_id }, post),
    ensures
        pre.action_spec() == SupervisorAction::ReadIds,
        parent_pid >= 2 && process_group_id >= 1 ==> {
            &&& post.phase is Spawn
            &&& post.action_spec() == SupervisorAction::SpawnTarget
            &&& post.parent_pid == parent_pid
            &&& post.process_group_id == process_group_id
        },
        parent_pid < 2 || process_group_id < 1 ==> {
            &&& post.action_spec() == (SupervisorAction::Exit { code: 1 })
            &&& post.phase matches SupervisorPhase::Done(Err(error))
            &&& error.kind == ErrorKind::Other
            &&& error.message@
                == "MCP process supervisor requires a live parent and process group"@
        },
{
}

/// Once its target is spawned the supervisor ignores SIGTERM, SIGINT and SIGHUP,
/// closes its three standard streams, and then begins to look at the target.
pub proof fn law_setup_runs_in_order<A>(
    argv: Seq<A>,
    states: Seq<Supervisor<A>>,
    events: Seq<SupervisorEvent>,
    i: int,
)
    requires
        is_run(argv, states, events),
        0 <= i,
        i + 7 < states.len(),
        target_spawned(states, events, i),
        forall|k: int| i < k < i + 7 ==> #[trigger] events[k] is Performed,
    ensures
        states[i + 1].action_spec() == SupervisorAction::IgnoreSignal(Signal::Term),
        states[i + 2].action_spec() == SupervisorAction::IgnoreSignal(Signal::Int),
        states[i + 3].action_spec() == SupervisorAction::IgnoreSignal(Signal::Hup),
        states[i + 4].action_spec() == SupervisorAction::CloseStream(StandardStream::Stdin),
        states[i + 5].action_spec() == SupervisorAction::CloseStream(StandardStream::Stdout),
        states[i + 6].action_spec() == SupervisorAction::CloseStream(StandardStream::Stderr),
        states[i + 7].action_spec() == SupervisorAction::PollTarget,
{
    lemma_run_wf(argv, states, events, i);
    assert(states[i].advances(events[i], states[i + 1]));
    assert(states[i + 1].advances(events[i + 1], states[i + 1 + 1]));
    assert(states[i + 2].advances(events[i + 2], states[i + 2 + 1]));
    assert(states[i + 3].advances(events[i + 3], states[i + 3 + 1]));
    assert(states[i + 4].advances(events[i + 4], states[i + 4 + 1]));
    assert(states[i + 5].advances(events[i + 5], states[i + 5 + 1]));
    assert(states[i + 6].advances(events[i + 6], states[i + 6 + 1]));
}

/// A step of the setup is followed by the next one as soon as it was performed,
/// and the last one by the first look at the target.
pub proof fn law_setup_steps<A>(pre: Supervisor<A>, post: Supervisor<A>)
    requires
        pre.advances(SupervisorEvent::Performed, post),
    ensures
        pre.action_spec() == SupervisorAction::IgnoreSignal(Signal::Term) ==> post.action_spec()
            == SupervisorAction::IgnoreSignal(Signal::Int),
        pre.action_spec() == SupervisorAction::IgnoreSignal(Signal::Int) ==> post.action_spec()
            == SupervisorAction::IgnoreSignal(Signal::Hup),
        pre.action_spec() == SupervisorAction::IgnoreSignal(Signal::Hup) ==> post.action_spec()
            == SupervisorAction::CloseStream(StandardStream::Stdin),
        pre.action_spec() == SupervisorAction::CloseStream(StandardStream::Stdin)
            ==> post.action_spec() == SupervisorAction::CloseStream(StandardStream::Stdout),
        pre.action_spec() == SupervisorAction::CloseStream(StandardStream::Stdout)
            ==> post.action_spec() == SupervisorAction::CloseStream(StandardStream::Stderr),
        pre.action_spec() == SupervisorAction::CloseStream(StandardStream::Stderr)
            ==> post.action_spec() == SupervisorAction::PollTarget,
        pre.phase is Sleep ==> {
            &&& pre.action_spec() == (SupervisorAction::Sleep { nanos: 25_000_000 })
            &&& post.action_spec() == SupervisorAction::PollTarget
        },
        pre.phase matches SupervisorPhase::Ignore(signal) ==> pre.action_spec()
            == SupervisorAction::IgnoreSignal(signal),
        pre.phase matches SupervisorPhase::Close(stream) ==> pre.action_spec()
            == SupervisorAction::CloseStream(stream),
{
}

/// A target that cannot be spawned, or cannot be looked at, makes the supervisor
/// fail as that did, with exit code 1. One that was spawned is set up for, one
/// that has ended is reported, and one that runs makes the supervisor look at
/// its parent.
pub proof fn law_target_decides<A>(
    pre: Supervisor<A>,
    event: SupervisorEvent,
    post: Supervisor<A>,
)
    requires
        pre.code_fits(event),
        pre.advances(event, post),
    ensures
        pre.phase is Spawn ==> pre.action_spec() == SupervisorAction::SpawnTarget,
        pre.phase is Spawn ==> (event matches SupervisorEvent::Spawned(Ok(_)) ==> post.action_spec()
            == SupervisorAction::IgnoreSignal(Signal::Term)),
        pre.phase is Spawn ==> (event matches SupervisorEvent::Spawned(Err(error)) ==> {
            &&& post.phase == SupervisorPhase::Done(Err(error))
            &&& post.action_spec() == (SupervisorAction::Exit { code: 1 })
        }),
        pre.phase is Poll ==> pre.action_spec() == SupervisorAction::PollTarget,
        pre.phase is Poll ==> (event matches SupervisorEvent::Polled(Err(error)) ==> {
            &&& post.phase == SupervisorPhase::Done(Err(error))
            &&& post.action_spec() == (SupervisorAction::Exit { code: 1 })
        }),
        pre.phase is Poll && event == SupervisorEvent::Polled(Ok(None)) ==> {
            &&& post.phase is ReadParent
            &&& post.action_spec() == SupervisorAction::ReadParent
        },
        pre.phase is Poll ==> (event matches SupervisorEvent::Polled(Ok(Some(status))) ==> {
            &&& post.action_spec() matches SupervisorAction::Exit { code }
            &&& post.phase == SupervisorPhase::Done(Ok(code))
            &&& reports(code, status)
        }),
{
}

/// A supervisor that has another parent by now, or whose parent the null signal
/// did not find, asks for SIGTERM to its own group next. One that has still the
/// same parent asks for the null signal to it, and pauses once that has found it.
pub proof fn law_parent_decides<A>(
    pre: Supervisor<A>,
    event: SupervisorEvent,
    post: Supervisor<A>,
)
    requires
        pre.advances(event, post),
    ensures
        pre.phase is ReadParent ==> pre.action_spec() == SupervisorAction::ReadParent,
        pre.phase is ReadParent ==> (event matches SupervisorEvent::ParentRead(current) ==> {
            &&& current == pre.parent_pid ==> post.action_spec() == (
            SupervisorAction::ProbeParent { pid: pre.parent_pid })
            &&& current != pre.parent_pid ==> post.action_spec() == (
            SupervisorAction::SignalGroup {
                process_group_id: pre.process_group_id,
                signal: Signal::Term,
            })
        }),
        pre.phase is ProbeParent ==> pre.action_spec() == (SupervisorAction::ProbeParent {
            pid: pre.parent_pid,
        }),
        pre.phase is ProbeParent ==> (event matches SupervisorEvent::ParentProbed(probe) ==> {
            &&& probe.returned == 0 || probe.not_permitted ==> post.action_spec() == (
            SupervisorAction::Sleep { nanos: 25_000_000 }) && post.phase is Sleep
            &&& probe.returned != 0 && !probe.not_permitted ==> post.action_spec() == (
            SupervisorAction::SignalGroup {
                process_group_id: pre.process_group_id,
                signal: Signal::Term,
            })
        }),
{
}

/// How many of the events from step `from` on and before step `to` report that
/// an action was performed.
pub open spec fn performances(events: Seq<SupervisorEvent>, from: int, to: int) -> nat
    decreases to - from,
{
    if to <= from {
        0
    } else {
        performances(events, from, to - 1) + if events[to - 1] is Performed {
            1nat
        } else {
            0nat
        }
    }
}

/// In every run, for every group: once the parent was found gone, each action
/// that was performed takes the termination of the group one step further until
/// the exit, and nothing else does. SIGTERM comes first, then a pause of two
/// seconds, then SIGKILL, and after these three the exit at once with code 1.
pub proof fn law_each_performance_counts<A>(
    argv: Seq<A>,
    states: Seq<Supervisor<A>>,
    events: Seq<SupervisorEvent>,
    i: int,
    n: int,
)
    requires
        is_run(argv, states, events),
        0 <= i < n < states.len(),
        parent_lost(states, events, i),
    ensures
        performances(events, i + 1, n) == 0 ==> states[n].action_spec() == (
        SupervisorAction::SignalGroup {
            process_group_id: states[i].process_group_id,
            signal: Signal::Term,
        }),
        performances(events, i + 1, n) == 1 ==> states[n].action_spec() == (
        SupervisorAction::Sleep { nanos: 2_000_000_000 }),
        performances(events, i + 1, n) == 2 ==> states[n].action_spec() == (
        SupervisorAction::SignalGroup {
            process_group_id: states[i].process_group_id,
            signal: Signal::Kill,
        }),
        performances(events, i + 1, n) >= 3 ==> states[n].action_spec() == (
        SupervisorAction::ExitAtOnce { code: 1 }),
        states[n].phase matches SupervisorPhase::Terminate(termination) && rank(termination.step)
            == if performances(events, i + 1, n) >= 3 {
            3
        } else {
            performances(events, i + 1, n)
        },
    decreases n,
{
    law_lost_parent_ends_the_group(argv, states, events, i, n);
    if i + 1 < n {
        law_each_performance_counts(argv, states, events, i, n - 1);
        law_lost_parent_ends_the_group(argv, states, events, i, n - 1);
        assert(states[n - 1].advances(events[n - 1], states[n - 1 + 1]));
    }
}

/// An action of the termination of a group that was performed raises the rank of
/// the termination by one, until the exit, and the group stays the same.
pub proof fn law_performance_raises_the_rank(termination: GroupTermination)
    ensures
        termination.performed_spec().process_group_id == termination.process_group_id,
        rank(termination.step) < 3 ==> rank(termination.performed_spec().step) == rank(
            termination.step,
        ) + 1,
        rank(termination.step) == 3 ==> termination.performed_spec() == termination,
        rank(termination.step) == 0 ==> termination.action_spec() == (
        SupervisorAction::SignalGroup {
            process_group_id: termination.process_group_id,
            signal: Signal::Term,
        }),
        rank(termination.step) == 1 ==> termination.action_spec() == (SupervisorAction::Sleep {
            nanos: 2_000_000_000,
        }),
        rank(termination.step) == 2 ==> termination.action_spec() == (
        SupervisorAction::SignalGroup {
            process_group_id: termination.process_group_id,
            signal: Signal::Kill,
        }),
        rank(termination.step) == 3 ==> termination.action_spec() == (
        SupervisorAction::ExitAtOnce { code: 1 }),
        rank(GroupTermination::begin(termination.process_group_id).step) == 0,
        GroupTermination::begin(termination.process_group_id).process_group_id
            == termination.process_group_id,
{
}

/// Every exit code of a target, and every signal but those at the very end of the
/// range of numbers, can be reported; no other event is ever too large.
pub proof fn law_codes_fit<A>(state: Supervisor<A>, event: SupervisorEvent, status: TargetStatus)
    ensures
        status.code is Some ==> supervisor::exit_code_fits(status),
        status.code is None && status.signal is None ==> supervisor::exit_code_fits(status),
        status.signal matches Some(signal) ==> (signal <= i32::MAX - 128
            ==> supervisor::exit_code_fits(status)),
        event == SupervisorEvent::Polled(Ok(Some(status))) && supervisor::exit_code_fits(status)
            ==> state.code_fits(event),
        !(event matches SupervisorEvent::Polled(Ok(Some(_)))) ==> state.code_fits(event),
{
}

} // verus!
