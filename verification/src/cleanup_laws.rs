//! What holds of the cleanup state however requests and reports interleave.

use vstd::prelude::*;

use crate::cleanup;
use crate::cleanup::{ProcessCleanupState, ProcessCleanupStatus};
use crate::completion::Completion;
use crate::error::{IoError, ProcessCleanupOutcome};
use crate::exit_wait::ProcessEvent;
use crate::local::{LocalProcessTerminator, Termination, TerminationState};
use crate::termination_laws;

verus! {

/// Something that happens to a cleanup state.
pub enum CleanupOperation {
    /// A caller asks for cleanup; the completion is that of the attempt that the
    /// request starts, where it starts one.
    Request { completion: Completion },
    /// An attempt is reported to have ended.
    Report { attempt: u64, succeeded: bool },
}

/// The state after one operation.
pub open spec fn after(state: ProcessCleanupState, operation: CleanupOperation) -> ProcessCleanupState {
    match operation {
        CleanupOperation::Request { completion } => state.requested(completion),
        CleanupOperation::Report { attempt, succeeded } => state.finished(attempt, succeeded),
    }
}

/// The state after a sequence of operations.
pub open spec fn after_all(
    state: ProcessCleanupState,
    operations: Seq<CleanupOperation>,
) -> ProcessCleanupState
    decreases operations.len(),
{
    if operations.len() == 0 {
        state
    } else {
        after(after_all(state, operations.drop_last()), operations.last())
    }
}

/// How many of the operations start an attempt.
pub open spec fn starts(state: ProcessCleanupState, operations: Seq<CleanupOperation>) -> nat
    decreases operations.len(),
{
    if operations.len() == 0 {
        0
    } else {
        let before = after_all(state, operations.drop_last());
        starts(state, operations.drop_last()) + if operations.last() is Request
            && before.can_start() {
            1nat
        } else {
            0nat
        }
    }
}

/// How many of the operations report the failure of the running attempt.
pub open spec fn failures(state: ProcessCleanupState, operations: Seq<CleanupOperation>) -> nat
    decreases operations.len(),
{
    if operations.len() == 0 {
        0
    } else {
        let before = after_all(state, operations.drop_last());
        failures(state, operations.drop_last()) + match operations.last() {
            CleanupOperation::Report { attempt, succeeded } => if !succeeded && before.runs(
                attempt,
            ) {
                1nat
            } else {
                0nat
            },
            CleanupOperation::Request { .. } => 0nat,
        }
    }
}

/// A completed cleanup is completed for good: no operation changes it, so no
/// request after it starts or joins an attempt.
pub proof fn law_complete_is_final(
    state: ProcessCleanupState,
    operations: Seq<CleanupOperation>,
)
    requires
        state.status is Complete,
    ensures
        after_all(state, operations) == state,
    decreases operations.len(),
{
    if operations.len() > 0 {
        law_complete_is_final(state, operations.drop_last());
    }
}

/// A running attempt is shared: until it is itself reported to have ended,
/// nothing changes the state, so every request in between joins this attempt
/// and waits on this completion.
pub proof fn law_running_attempt_is_shared(
    state: ProcessCleanupState,
    running: u64,
    operations: Seq<CleanupOperation>,
)
    requires
        state.runs(running),
        forall|i: int|
            0 <= i < operations.len() ==> (#[trigger] operations[i] matches CleanupOperation::Report {
                attempt,
                ..
            } ==> attempt != running),
    ensures
        after_all(state, operations) == state,
    decreases operations.len(),
{
    if operations.len() > 0 {
        let earlier = operations.drop_last();
        assert forall|i: int| 0 <= i < earlier.len() implies (
        #[trigger] earlier[i] matches CleanupOperation::Report { attempt, .. } ==> attempt
            != running) by {
            assert(earlier[i] == operations[i]);
        }
        law_running_attempt_is_shared(state, running, earlier);
        assert(operations.last() == operations[operations.len() - 1]);
    }
}

/// A report of an attempt that is not the running one changes nothing; so only
/// the first report of an attempt counts.
pub proof fn law_stale_reports_are_ignored(
    state: ProcessCleanupState,
    attempt: u64,
    succeeded: bool,
    again: bool,
)
    ensures
        !state.runs(attempt) ==> state.finished(attempt, succeeded) == state,
        state.finished(attempt, succeeded).finished(attempt, again) == state.finished(
            attempt,
            succeeded,
        ),
{
}

/// A failed attempt can be retried: the next request starts an attempt with
/// another number, and late reports of the failed attempt do not touch it. This
/// also holds of an attempt that ended without an outcome.
pub proof fn law_failure_is_retryable(
    state: ProcessCleanupState,
    attempt: u64,
    completion: Completion,
    late: bool,
)
    requires
        state.wf(),
        state.runs(attempt),
    ensures
        ({
            let failed = state.finished(attempt, false);
            let retried = failed.requested(completion);
            &&& failed.can_start()
            &&& cleanup::attempt_after(attempt) != attempt
            &&& retried.status == (ProcessCleanupStatus::Running {
                attempt: cleanup::attempt_after(attempt),
                completion,
            })
            &&& retried.finished(attempt, late) == retried
        }),
{
}

/// Attempts are numbered from one, without gaps, and run one at a time: as many
/// have failed as were started, but for the last, which may be running or may
/// have completed.
pub proof fn law_one_attempt_at_a_time(operations: Seq<CleanupOperation>)
    ensures
        ({
            let initial = ProcessCleanupState::initial();
            let state = after_all(initial, operations);
            &&& state.wf()
            &&& state.next_attempt == (1 + starts(initial, operations)) % 0x1_0000_0000_0000_0000
            &&& starts(initial, operations) == failures(initial, operations) + if state.can_start() {
                0nat
            } else {
                1nat
            }
        }),
    decreases operations.len(),
{
    if operations.len() > 0 {
        law_one_attempt_at_a_time(operations.drop_last());
    }
}

/// A cleanup attempt on a process group completes the cleanup exactly when the
/// group was reported gone; otherwise the attempt has failed and can be retried.
pub proof fn law_complete_means_gone(
    process_group_id: u32,
    states: Seq<Termination>,
    events: Seq<ProcessEvent>,
    result: Result<(), IoError>,
    state: ProcessCleanupState,
    attempt: u64,
)
    requires
        termination_laws::is_run(
            LocalProcessTerminator::ProcessGroup { process_group_id },
            states,
            events,
        ),
        states.last().state == TerminationState::Done(result),
        state.runs(attempt),
    ensures
        ({
            let ended = state.finished(attempt, result is Ok);
            let gone = exists|i: int|
                0 <= i < events.len() && #[trigger] termination_laws::reported_gone(
                    states,
                    events,
                    i,
                );
            &&& ended.status is Complete <==> gone
            &&& ended.can_start() <==> !gone
        }),
{
    termination_laws::law_success_means_gone(
        process_group_id,
        states,
        events,
        events.len() as int,
    );
    if let Ok(unit) = result {
        assert(unit == ());
    }
}

/// What the waiting callers are told agrees with what is recorded: a caller that
/// finds the announced outcome of the running attempt returns the result that
/// the attempt ended with, and is told of success exactly when the cleanup is
/// recorded as complete.
pub proof fn law_waiters_get_the_result(
    state: ProcessCleanupState,
    attempt: u64,
    result: Result<(), IoError>,
)
    requires
        state.runs(attempt),
    ensures
        ({
            let told = cleanup::wait_spec(Some(cleanup::outcome_of(result)));
            let recorded = state.finished(attempt, result is Ok);
            &&& told == cleanup::CleanupWait::Return(result)
            &&& told == cleanup::CleanupWait::Return(Ok(())) <==> recorded.status is Complete
        }),
{
    match result {
        Ok(unit) => {
            assert(unit == ());
        },
        Err(error) => {
            crate::error::law_failure_round_trip(error, crate::error::recorded(error));
        },
    }
}

/// A request starts an attempt exactly when none is running and the cleanup is
/// not complete. The attempt gets the number that was to be given out next, and
/// the one after it, counted modulo two to the sixty-fourth, is then the next.
pub proof fn law_request_starts_or_changes_nothing(
    state: ProcessCleanupState,
    completion: Completion,
)
    ensures
        ({
            let requested = state.requested(completion);
            &&& state.status is Idle || state.status is Failed ==> {
                &&& requested.status == (ProcessCleanupStatus::Running {
                    attempt: state.next_attempt,
                    completion,
                })
                &&& requested.next_attempt == (state.next_attempt + 1) % 0x1_0000_0000_0000_0000
            }
            &&& state.status is Running || state.status is Complete ==> requested == state
        }),
        ProcessCleanupState::initial().next_attempt == 1,
        ProcessCleanupState::initial().status is Idle,
{
}

/// A report counts exactly when it carries the number of the running attempt.
/// Success then completes the cleanup and failure leaves it failed; the number
/// to be given out next stays.
pub proof fn law_only_the_running_attempt_counts(
    state: ProcessCleanupState,
    attempt: u64,
    succeeded: bool,
)
    ensures
        ({
            let finished = state.finished(attempt, succeeded);
            &&& finished.next_attempt == state.next_attempt
            &&& match state.status {
                ProcessCleanupStatus::Running { attempt: running, .. } => {
                    &&& running == attempt && succeeded ==> finished.status is Complete
                    &&& running == attempt && !succeeded ==> finished.status is Failed
                    &&& running != attempt ==> finished == state
                },
                _ => finished == state,
            }
        }),
{
}

/// A caller that finds nothing announced waits on; one that finds an outcome
/// returns, with success for success, and with the kind and the text of the
/// failure for a failure. The outcome announced for a result is success for
/// success, and has the kind and the text of the failure for a failure.
pub proof fn law_outcomes_keep_kind_and_text(
    held: Option<ProcessCleanupOutcome>,
    result: Result<(), IoError>,
)
    ensures
        held is None <==> cleanup::wait_spec(held) is AwaitChange,
        held matches Some(Ok(_)) ==> cleanup::wait_spec(held) == cleanup::CleanupWait::Return(
            Ok(()),
        ),
        held matches Some(Err(failure)) ==> {
            &&& cleanup::wait_spec(held) matches cleanup::CleanupWait::Return(Err(error))
            &&& error.kind == failure.kind
            &&& error.message == failure.message
        },
        cleanup::outcome_of(result) is Ok <==> result is Ok,
        result matches Err(error) ==> {
            &&& cleanup::outcome_of(result) matches Err(failure)
            &&& failure.kind == error.kind
            &&& failure.message == error.message
        },
{
}

} // verus!
