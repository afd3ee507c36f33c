// The correlation store, exercised on concrete values: FIFO order,
// exactly-once delivery, abandonment, and the protocol errors.

use studio_relay::relay::{Command, Relay, RelayError};

#[test]
fn fifo_order_across_admissions() {
    let mut r: Relay<&'static str, u32> = Relay::new();
    assert_eq!(r.admit_with_id(1, "A1", 10), Ok(()));
    assert_eq!(r.admit_with_id(2, "A2", 20), Ok(()));
    assert_eq!(r.admit_with_id(3, "A3", 30), Ok(()));
    assert_eq!(r.queue_len(), 3);
    assert_eq!(r.dequeue(), Some(Command { id: 1, payload: "A1" }));
    assert_eq!(r.dequeue(), Some(Command { id: 2, payload: "A2" }));
    assert_eq!(r.dequeue(), Some(Command { id: 3, payload: "A3" }));
    assert_eq!(r.dequeue(), None);
}

#[test]
fn deliver_accepted_exactly_once() {
    let mut r: Relay<&'static str, u32> = Relay::new();
    assert_eq!(r.admit_with_id(7, "C", 77), Ok(()));
    assert_eq!(r.deliver(7), Ok(77));
    assert_eq!(r.deliver(7), Err(RelayError::UnknownCorrelationId));
}

#[test]
fn deliver_without_admission_rejected() {
    let mut r: Relay<&'static str, u32> = Relay::new();
    assert_eq!(r.deliver(42), Err(RelayError::UnknownCorrelationId));
    assert_eq!(r.queue_len(), 0);
}

#[test]
fn admission_registers_entry_before_returning_id() {
    let mut r: Relay<&'static str, u32> = Relay::new();
    let id = r.admit_command("C", 5).expect("fresh id should not collide");
    assert!(r.has_entry(id));
    assert_eq!(r.deliver(id), Ok(5));
}

#[test]
fn fresh_ids_are_distinct() {
    let mut r: Relay<&'static str, u32> = Relay::new();
    let a = r.admit_command("A", 1).expect("fresh id should not collide");
    let b = r.admit_command("B", 2).expect("fresh id should not collide");
    assert_ne!(a, b);
    assert!(r.has_entry(a));
    assert!(r.has_entry(b));
}

#[test]
fn duplicate_admission_rejected_untouched() {
    let mut r: Relay<&'static str, u32> = Relay::new();
    assert_eq!(r.admit_with_id(9, "first", 1), Ok(()));
    assert_eq!(
        r.admit_with_id(9, "second", 2),
        Err(RelayError::DuplicateCorrelationId)
    );
    assert_eq!(r.queue_len(), 1);
    assert_eq!(r.deliver(9), Ok(1));
}

#[test]
fn abandon_then_deliver_rejected_others_untouched() {
    let mut r: Relay<&'static str, u32> = Relay::new();
    assert_eq!(r.admit_with_id(1, "kept", 11), Ok(()));
    assert_eq!(r.admit_with_id(2, "dropped", 22), Ok(()));
    r.abandon(2);
    assert!(!r.has_entry(2));
    assert_eq!(r.deliver(2), Err(RelayError::UnknownCorrelationId));
    assert!(r.has_entry(1));
    assert_eq!(r.deliver(1), Ok(11));
}

#[test]
fn abandon_is_idempotent() {
    let mut r: Relay<&'static str, u32> = Relay::new();
    assert_eq!(r.admit_with_id(4, "C", 44), Ok(()));
    r.abandon(4);
    r.abandon(4);
    assert!(!r.has_entry(4));
    assert_eq!(r.admit_with_id(4, "again", 45), Ok(()));
    assert_eq!(r.deliver(4), Ok(45));
}

#[test]
fn dequeue_leaves_entries_live() {
    let mut r: Relay<&'static str, u32> = Relay::new();
    assert_eq!(r.admit_with_id(6, "C", 66), Ok(()));
    let cmd = r.dequeue().expect("queued command");
    assert_eq!(cmd.id, 6);
    assert!(r.has_entry(6));
    assert_eq!(r.deliver(6), Ok(66));
}

#[test]
fn notify_reaches_the_stores_own_waiter() {
    let r: Relay<&'static str, u32> = Relay::new();
    assert!(r.notify());
}
