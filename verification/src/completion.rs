//! The channel on which a cleanup attempt announces its outcome.

use tokio::sync::watch;
use vstd::prelude::*;

use crate::error::ProcessCleanupOutcome;

verus! {

/// Where a caller learns of the outcome of a cleanup attempt.
pub type Completion = watch::Receiver<Option<ProcessCleanupOutcome>>;

/// The receiving half of a watch channel.
#[verifier::external_type_specification]
#[verifier::external_body]
#[verifier::reject_recursive_types(T)]
pub struct ExWatchReceiver<T>(watch::Receiver<T>);

/// The sending half of a watch channel.
#[verifier::external_type_specification]
#[verifier::external_body]
#[verifier::reject_recursive_types(T)]
pub struct ExWatchSender<T>(watch::Sender<T>);

/// Where a cleanup attempt announces its outcome, once: announcing consumes the
/// announcement, and nothing else writes to the channel. So as long as there is
/// an announcement, its channel holds what it was opened with.
pub struct Announcement {
    sender: watch::Sender<Option<ProcessCleanupOutcome>>,
}

/// `tokio::sync::watch::channel` opens a channel that holds `held` and returns
/// its two halves. Nothing is claimed of what the receiving half shows: that
/// depends on whether the outcome was announced by then.
#[verifier::external_body]
fn channel(held: Option<ProcessCleanupOutcome>) -> (halves: (Announcement, Completion)) {
    let (sender, completion) = watch::channel(held);
    (Announcement { sender }, completion)
}

/// `tokio::sync::watch::Sender::send_replace` stores the value in the channel and
/// wakes the receivers. What it replaces is dropped, and so is the sender, which
/// closes the channel; receivers still find the value there.
#[verifier::external_body]
fn send_replace(finished: Announcement, held: Option<ProcessCleanupOutcome>) {
    let _ = finished.sender.send_replace(held);
}

/// Cloning a `tokio::sync::watch::Receiver` gives a receiver of the same channel
/// that has seen the same version: the clone shares the channel's state and
/// copies the version.
pub assume_specification<T>[ <watch::Receiver<T> as Clone>::clone ](
    receiver: &watch::Receiver<T>,
) -> (copy: watch::Receiver<T>)
    ensures
        copy == *receiver,
;

/// `tokio::sync::watch::Receiver::borrow`: a copy of what the channel holds at
/// the moment. Other tasks may send at any time, so nothing is claimed of it.
#[verifier::external_body]
fn announced(completion: &Completion) -> (held: Option<ProcessCleanupOutcome>) {
    completion.borrow().clone()
}

/// Whether the two are the halves of one channel that was opened with no outcome
/// in it.
pub closed spec fn opened(finished: Announcement, completion: Completion) -> bool {
    call_ensures(channel, (None::<ProcessCleanupOutcome>,), (finished, completion))
}

/// Whether this is the one outcome that was announced with the announcement.
pub closed spec fn was_announced(finished: Announcement, outcome: ProcessCleanupOutcome) -> bool {
    call_ensures(send_replace, (finished, Some(outcome)), ())
}

/// Whether a look at this completion found `held` in its channel.
pub closed spec fn was_found(
    completion: &Completion,
    held: Option<ProcessCleanupOutcome>,
) -> bool {
    call_ensures(announced, (completion,), held)
}

/// Opens a channel with no outcome in it.
pub(crate) fn open_channel() -> (halves: (Announcement, Completion))
    ensures
        opened(halves.0, halves.1),
{
    let open = channel;
    open(None)
}

impl Announcement {
    /// Announces the outcome to everyone who waits for it.
    pub(crate) fn announce(self, outcome: ProcessCleanupOutcome)
        ensures
            was_announced(self, outcome),
    {
        let send = send_replace;
        send(self, Some(outcome))
    }
}

/// Looks at what is announced on the channel at the moment.
pub(crate) fn look(completion: &Completion) -> (held: Option<ProcessCleanupOutcome>)
    ensures
        was_found(completion, held),
{
    let read = announced;
    read(completion)
}

/// A channel carries what is said of it: it counts as opened only if it was
/// opened empty, an outcome counts as announced only if that outcome was sent,
/// and something counts as found only if a look at the channel returned it.
proof fn law_channel_carries_the_outcome(
    finished: Announcement,
    completion: Completion,
    outcome: ProcessCleanupOutcome,
    held: Option<ProcessCleanupOutcome>,
)
    ensures
        opened(finished, completion) ==> call_ensures(
            channel,
            (None::<ProcessCleanupOutcome>,),
            (finished, completion),
        ),
        was_announced(finished, outcome) ==> call_ensures(
            send_replace,
            (finished, Some(outcome)),
            (),
        ),
        was_found(&completion, held) ==> call_ensures(announced, (&completion,), held),
{
}

} // verus!
