//! The correlation store: the relay's one unit of shared state.
//!
//! It pairs the FIFO queue of admitted, not-yet-dispatched commands with
//! the map from correlation id to the delivery channel of the producer
//! waiting on that id. Callers guard a `Relay` with one mutual-exclusion
//! primitive and never hold it across a suspension point; each method here
//! is one atomic step under that lock.
//!
//! The store is generic over the command payload `P`, which it never
//! inspects, and over the delivery-channel handle `C`, which it only
//! stores and hands back: delivery itself (sending the result on the
//! handle) is the caller's last step, outside the lock.

use vstd::prelude::*;

verus! {

use std::collections::HashMap;
use std::collections::VecDeque;

broadcast use vstd::std_specs::hash::group_hash_axioms;

/// How long a dispatch long-poll holds the request open before answering
/// "no work", in milliseconds.
pub const LONG_POLL_WINDOW_MS: u64 = 15000;

/// A unit of work admitted to the relay: an opaque payload under the
/// correlation id that its eventual result must be posted against.
#[derive(Clone, Debug, PartialEq, Eq)]
pub struct Command<P> {
    pub id: u128,
    pub payload: P,
}

/// The protocol errors of the correlation store.
#[derive(Clone, Copy, Debug, PartialEq, Eq)]
pub enum RelayError {
    /// A delivery named an id with no live correlation entry: the id was
    /// already answered, abandoned, or never admitted.
    UnknownCorrelationId,
    /// An admission named an id that already has a live correlation entry.
    DuplicateCorrelationId,
}

/// The mathematical state of the store: the queue of commands awaiting
/// dispatch, oldest first, and the pending correlation entries.
#[verifier::ext_equal]
pub struct RelayModel<P, C> {
    pub queue: Seq<Command<P>>,
    pub pending: Map<u128, C>,
}

/// What admitting a command under `id` does: the command joins the tail
/// of the queue and the producer's channel becomes the entry for `id`.
pub open spec fn admit_transition<P, C>(
    m: RelayModel<P, C>,
    id: u128,
    payload: P,
    chan: C,
) -> RelayModel<P, C> {
    RelayModel {
        queue: m.queue.push(Command { id, payload }),
        pending: m.pending.insert(id, chan),
    }
}

/// What dequeuing does: the head of the queue, if any, leaves it; the
/// correlation entries are untouched.
pub open spec fn dequeue_transition<P, C>(m: RelayModel<P, C>) -> (RelayModel<P, C>, Option<
    Command<P>,
>) {
    if m.queue.len() == 0 {
        (m, None)
    } else {
        (RelayModel { queue: m.queue.drop_first(), pending: m.pending }, Some(m.queue.first()))
    }
}

/// What delivering to `id` does: if an entry is live, it is removed and
/// its channel is surrendered for the caller to complete the delivery;
/// otherwise nothing changes and the delivery is rejected.
pub open spec fn deliver_transition<P, C>(m: RelayModel<P, C>, id: u128) -> (RelayModel<P, C>, Result<
    C,
    RelayError,
>) {
    if m.pending.contains_key(id) {
        (
            RelayModel { queue: m.queue, pending: m.pending.remove(id) },
            Ok(m.pending[id]),
        )
    } else {
        (m, Err(RelayError::UnknownCorrelationId))
    }
}

/// What abandoning `id` does: its entry, if any, is removed without a
/// delivery; on an absent id this is a no-op.
pub open spec fn abandon_transition<P, C>(m: RelayModel<P, C>, id: u128) -> RelayModel<P, C> {
    RelayModel { queue: m.queue, pending: m.pending.remove(id) }
}

/// The shared state behind the relay: work queue, correlation entries,
/// and the change notifier that wakes blocked consumers.
pub struct Relay<P, C> {
    queue: VecDeque<Command<P>>,
    entries: HashMap<u128, C>,
    trigger: tokio::sync::watch::Sender<()>,
    waiter: tokio::sync::watch::Receiver<()>,
}

impl<P, C> View for Relay<P, C> {
    type V = RelayModel<P, C>;

    closed spec fn view(&self) -> RelayModel<P, C> {
        RelayModel { queue: self.queue@, pending: self.entries@ }
    }
}

/// Relies on uuid::Uuid::new_v4: a fresh version-4 identifier drawn from
/// the operating system's random source. Nothing is promised of the
/// value; admission checks it against the live entries itself.
#[verifier::external_body]
fn fresh_correlation_id() -> u128 {
    uuid::Uuid::new_v4().as_u128()
}

impl<P, C> Relay<P, C> {
    /// An empty store: no queued commands, no pending entries.
    pub fn new() -> (r: Relay<P, C>)
        ensures
            r@.queue == Seq::<Command<P>>::empty(),
            r@.pending == Map::<u128, C>::empty(),
    {
        let (trigger, waiter) = crate::notify::watch_pair();
        Relay { queue: VecDeque::new(), entries: HashMap::new(), trigger, waiter }
    }

    /// Admits a command under a caller-supplied correlation id, as the
    /// forwarding surface of a second-hop relay must (the first hop has
    /// already assigned the id). Registers the entry and enqueues the
    /// command in one step, so no consumer can observe one without the
    /// other; an id that is already live is rejected untouched.
    pub fn admit_with_id(&mut self, id: u128, payload: P, chan: C) -> (r: Result<(), RelayError>)
        ensures
            old(self)@.pending.contains_key(id) ==> r == Err::<(), RelayError>(
                RelayError::DuplicateCorrelationId,
            ) && final(self)@ == old(self)@,
            !old(self)@.pending.contains_key(id) ==> r == Ok::<(), RelayError>(()) && final(self)@
                == admit_transition(old(self)@, id, payload, chan),
    {
        if self.entries.contains_key(&id) {
            Err(RelayError::DuplicateCorrelationId)
        } else {
            self.queue.push_back(Command { id, payload });
            let _ = self.entries.insert(id, chan);
            Ok(())
        }
    }

    /// Admits a command: assigns it a fresh id, enqueues it and registers
    /// the producer's channel under the id, atomically, and returns the
    /// id. The entry is live before the id is handed to anyone, so no
    /// delivery can precede the admission. Fails only in the event that
    /// the freshly drawn random id collides with a live entry, and then
    /// changes nothing; on a store with no pending entries there is
    /// nothing to collide with, so admission succeeds.
    pub fn admit_command(&mut self, payload: P, chan: C) -> (r: Result<u128, RelayError>)
        ensures
            match r {
                Ok(id) => !old(self)@.pending.contains_key(id) && final(self)@
                    == admit_transition(old(self)@, id, payload, chan),
                Err(e) => e == RelayError::DuplicateCorrelationId && final(self)@ == old(self)@,
            },
            r is Err ==> exists|k: u128| old(self)@.pending.contains_key(k),
    {
        let id = fresh_correlation_id();
        match self.admit_with_id(id, payload, chan) {
            Ok(()) => Ok(id),
            Err(e) => {
                proof {
                    assert(old(self)@.pending.contains_key(id));
                }
                Err(e)
            },
        }
    }

    /// Pops the head of the work queue, if any. The correlation entries
    /// are untouched: the dequeued command's entry stays live until its
    /// result is delivered or its producer abandons it.
    pub fn dequeue(&mut self) -> (r: Option<Command<P>>)
        ensures
            final(self)@ == dequeue_transition(old(self)@).0,
            r == dequeue_transition(old(self)@).1,
    {
        self.queue.pop_front()
    }

    /// Delivers to `id`: removes the live entry and returns its channel,
    /// on which the caller sends the result to finish the delivery. With
    /// no live entry — already answered, abandoned, or never admitted —
    /// the delivery is rejected and nothing changes.
    pub fn deliver(&mut self, id: u128) -> (r: Result<C, RelayError>)
        ensures
            final(self)@ == deliver_transition(old(self)@, id).0,
            r == deliver_transition(old(self)@, id).1,
    {
        match self.entries.remove(&id) {
            Some(chan) => Ok(chan),
            None => {
                proof {
                    assert(old(self)@.pending.remove(id) =~= old(self)@.pending);
                }
                Err(RelayError::UnknownCorrelationId)
            },
        }
    }

    /// Abandons `id`: removes its entry, if any, without delivering, so a
    /// late result for it is rejected rather than routed to a producer
    /// that gave up. Idempotent.
    pub fn abandon(&mut self, id: u128)
        ensures
            final(self)@ == abandon_transition(old(self)@, id),
    {
        let _ = self.entries.remove(&id);
    }

    /// Wakes every consumer currently blocked on "queue is non-empty".
    /// Returns false when no waiter subscription exists at all; the store
    /// itself holds one, so this cannot happen through a live store.
    pub fn notify(&self) -> bool {
        crate::notify::notify_waiters(&self.trigger)
    }

    /// A handle with which a caller can wake waiters after it has
    /// released the lock guarding the store.
    pub fn trigger_handle(&self) -> tokio::sync::watch::Sender<()> {
        crate::notify::clone_trigger(&self.trigger)
    }

    /// Subscribes to the change signal. A subscription taken while the
    /// lock guarding the store is held cannot miss a notification fired
    /// after the lock is released.
    pub fn subscribe(&self) -> tokio::sync::watch::Receiver<()> {
        crate::notify::clone_waiter(&self.waiter)
    }

    /// How many commands await dispatch.
    pub fn queue_len(&self) -> (n: usize)
        ensures
            n == self@.queue.len(),
    {
        self.queue.len()
    }

    /// Whether a correlation entry is live for `id`.
    pub fn has_entry(&self, id: u128) -> (b: bool)
        ensures
            b == self@.pending.contains_key(id),
    {
        self.entries.contains_key(&id)
    }
}

} // verus!
