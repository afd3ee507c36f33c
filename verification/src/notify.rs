//! The change notifier: a broadcast "something changed" signal that wakes
//! every party blocked on "the queue may be non-empty".
//!
//! The signal carries no payload and may be coalesced; a woken waiter must
//! re-check the queue itself. Waiting (an `await` on the receiver) is async
//! and happens outside this crate; what stands here is the sender/receiver
//! pair, waking, and subscription.

use vstd::prelude::*;

verus! {

#[verifier::external_type_specification]
#[verifier::external_body]
#[verifier::reject_recursive_types(T)]
pub struct ExWatchSender<T>(tokio::sync::watch::Sender<T>);

#[verifier::external_type_specification]
#[verifier::external_body]
#[verifier::reject_recursive_types(T)]
pub struct ExWatchReceiver<T>(tokio::sync::watch::Receiver<T>);

/// Relies on tokio::sync::watch::channel: returns a connected
/// sender/receiver pair for the change signal.
#[verifier::external_body]
pub(crate) fn watch_pair() -> (tokio::sync::watch::Sender<()>, tokio::sync::watch::Receiver<()>) {
    tokio::sync::watch::channel(())
}

/// Relies on tokio::sync::watch::Sender::send: wakes every receiver that
/// is currently waiting; fails (returning false) only when every receiver
/// has been dropped. Waiters that subscribe afterwards see no replay.
#[verifier::external_body]
pub(crate) fn notify_waiters(trigger: &tokio::sync::watch::Sender<()>) -> bool {
    trigger.send(()).is_ok()
}

/// Relies on Clone for tokio::sync::watch::Receiver: a clone observes the
/// same channel, so a notification wakes it like the original.
#[verifier::external_body]
pub(crate) fn clone_waiter(
    waiter: &tokio::sync::watch::Receiver<()>,
) -> tokio::sync::watch::Receiver<()> {
    waiter.clone()
}

/// Relies on Clone for tokio::sync::watch::Sender: a clone wakes the same
/// receivers as the original.
#[verifier::external_body]
pub(crate) fn clone_trigger(
    trigger: &tokio::sync::watch::Sender<()>,
) -> tokio::sync::watch::Sender<()> {
    trigger.clone()
}

} // verus!
