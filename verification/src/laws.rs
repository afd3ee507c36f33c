//! The protocol's guarantees, proved over the store's transitions.
//!
//! Each law is stated against the spec-level transitions of
//! [`crate::relay`], the same ones that the executable methods' contracts
//! are written in, so what is proved here holds of any run of those
//! methods.

use vstd::prelude::*;

verus! {

use crate::relay::{
    Command, RelayError, RelayModel, abandon_transition, admit_transition, deliver_transition,
    dequeue_transition,
};

/// The state after one admission per element of `items`, oldest first:
/// element `i` holds the id, payload and channel of admission `i`.
pub open spec fn admit_all<P, C>(m: RelayModel<P, C>, items: Seq<(u128, P, C)>) -> RelayModel<P, C>
    decreases items.len(),
{
    if items.len() == 0 {
        m
    } else {
        admit_transition(
            admit_all(m, items.drop_last()),
            items.last().0,
            items.last().1,
            items.last().2,
        )
    }
}

/// The state after `n` dequeues.
pub open spec fn drain<P, C>(m: RelayModel<P, C>, n: nat) -> RelayModel<P, C>
    decreases n,
{
    if n == 0 {
        m
    } else {
        dequeue_transition(drain(m, (n - 1) as nat)).0
    }
}

/// What the dequeue that follows `n` earlier dequeues returns.
pub open spec fn drained_command<P, C>(m: RelayModel<P, C>, n: nat) -> Option<Command<P>> {
    dequeue_transition(drain(m, n)).1
}

/// The command an admission queues.
pub open spec fn admitted_command<P, C>(item: (u128, P, C)) -> Command<P> {
    Command { id: item.0, payload: item.1 }
}

proof fn lemma_admit_all_queue<P, C>(m: RelayModel<P, C>, items: Seq<(u128, P, C)>)
    ensures
        admit_all(m, items).queue == m.queue + items.map_values(
            |item: (u128, P, C)| admitted_command::<P, C>(item),
        ),
    decreases items.len(),
{
    let f = |item: (u128, P, C)| admitted_command::<P, C>(item);
    if items.len() == 0 {
        assert(m.queue + items.map_values(f) =~= m.queue);
    } else {
        lemma_admit_all_queue(m, items.drop_last());
        assert((m.queue + items.drop_last().map_values(f)).push(f(items.last())) =~= m.queue
            + items.map_values(f));
    }
}

proof fn lemma_drain<P, C>(m: RelayModel<P, C>, n: nat)
    requires
        n <= m.queue.len(),
    ensures
        drain(m, n).queue == m.queue.skip(n as int),
        drain(m, n).pending == m.pending,
    decreases n,
{
    if n == 0 {
        assert(m.queue.skip(0) =~= m.queue);
    } else {
        lemma_drain(m, (n - 1) as nat);
        assert(m.queue.skip(n as int - 1).drop_first() =~= m.queue.skip(n as int));
    }
}

/// FIFO: admissions come back out in admission order. Starting from an
/// empty queue, after the admissions in `items` and no interleaved
/// dequeues, the dequeue following `i` earlier dequeues returns
/// admission `i`.
pub proof fn lemma_dequeue_in_admission_order<P, C>(
    m: RelayModel<P, C>,
    items: Seq<(u128, P, C)>,
    i: int,
)
    requires
        m.queue.len() == 0,
        0 <= i < items.len(),
    ensures
        drained_command(admit_all(m, items), i as nat) == Some(admitted_command::<P, C>(items[i])),
{
    let f = |item: (u128, P, C)| admitted_command::<P, C>(item);
    let q = admit_all(m, items);
    lemma_admit_all_queue(m, items);
    assert(q.queue =~= items.map_values(f));
    lemma_drain(q, i as nat);
    assert(drain(q, i as nat).queue.len() > 0);
    assert(q.queue.skip(i).first() == q.queue[i]);
}

/// Every admission in a sequence leaves its correlation entry live: no
/// command becomes visible to a consumer without an entry for its
/// result to come back to. (A later admission under the same id would
/// re-bind it; the executable store rejects such an admission instead.)
pub proof fn lemma_admissions_stay_pending<P, C>(
    m: RelayModel<P, C>,
    items: Seq<(u128, P, C)>,
    i: int,
)
    requires
        0 <= i < items.len(),
    ensures
        admit_all(m, items).pending.contains_key(items[i].0),
    decreases items.len(),
{
    if i == items.len() - 1 {
    } else {
        lemma_admissions_stay_pending(m, items.drop_last(), i);
    }
}

/// Exactly one successful delivery per admitted id: the first delivery
/// succeeds with the registered channel; a second one under the same id
/// is rejected with UnknownCorrelationId and changes nothing.
pub proof fn lemma_deliver_exactly_once<P, C>(m: RelayModel<P, C>, id: u128)
    requires
        m.pending.contains_key(id),
    ensures
        deliver_transition(m, id).1 == Ok::<C, RelayError>(m.pending[id]),
        deliver_transition(deliver_transition(m, id).0, id).1 == Err::<C, RelayError>(
            RelayError::UnknownCorrelationId,
        ),
        deliver_transition(deliver_transition(m, id).0, id).0 == deliver_transition(m, id).0,
{
}

/// No delivery can precede the admission that registers its id: against
/// a state where `id` is not pending, delivery is rejected untouched,
/// while an admission leaves `id` pending before the id is handed out.
pub proof fn lemma_no_delivery_before_admission<P, C>(
    m: RelayModel<P, C>,
    id: u128,
    payload: P,
    chan: C,
)
    requires
        !m.pending.contains_key(id),
    ensures
        deliver_transition(m, id).1 == Err::<C, RelayError>(RelayError::UnknownCorrelationId),
        deliver_transition(m, id).0 == m,
        admit_transition(m, id, payload, chan).pending.contains_key(id),
{
}

/// Abandoning a pending producer makes a later delivery to its id fail
/// with UnknownCorrelationId instead of crashing, leaves the queue as it
/// was, and touches no other pending id or its channel.
pub proof fn lemma_abandon_then_deliver<P, C>(m: RelayModel<P, C>, id: u128)
    ensures
        !abandon_transition(m, id).pending.contains_key(id),
        deliver_transition(abandon_transition(m, id), id).1 == Err::<C, RelayError>(
            RelayError::UnknownCorrelationId,
        ),
        abandon_transition(m, id).queue == m.queue,
        forall|other: u128|
            other != id ==> abandon_transition(m, id).pending.contains_key(other)
                == m.pending.contains_key(other),
        forall|other: u128|
            other != id && m.pending.contains_key(other) ==> abandon_transition(
                m,
                id,
            ).pending[other] == m.pending[other],
{
}

/// Abandoning is idempotent: removing an entry twice is the same as
/// removing it once.
pub proof fn lemma_abandon_idempotent<P, C>(m: RelayModel<P, C>, id: u128)
    ensures
        abandon_transition(abandon_transition(m, id), id) == abandon_transition(m, id),
{
    assert(abandon_transition(abandon_transition(m, id), id).pending =~= abandon_transition(
        m,
        id,
    ).pending);
}

} // verus!
