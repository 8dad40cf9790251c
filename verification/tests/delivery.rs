use native_push::poll::{poll_step, LoopAction, PollResult};
use native_push::retry::{retry_step, RetryAction, RETRY_INTERVAL_SECS};
use native_push::slot::OnceSlot;
use native_push::state::{decline_report, gateway_report, NativePushState, RegistrationPhase};
use native_push::store::PendingStore;

#[test]
fn store_starts_empty() {
    let s: PendingStore<String> = PendingStore::new();
    assert_eq!(s.len(), 0);
    assert!(!s.contains(0));
    assert!(s.get(0).is_none());
}

#[test]
fn store_insert_assigns_consecutive_ids() {
    let mut s: PendingStore<&str> = PendingStore::new();
    let a = s.insert_next("one");
    let b = s.insert_next("two");
    let c = s.insert_next("three");
    assert_eq!((a, b, c), (0, 1, 2));
    assert_eq!(s.len(), 3);
    assert_eq!(s.get(1), Some(&"two"));
}

#[test]
fn store_remove_is_acknowledgment_and_idempotent() {
    let mut s: PendingStore<&str> = PendingStore::new();
    let id = s.insert_next("payload");
    assert!(s.contains(id));
    assert!(s.remove(id));
    assert!(!s.contains(id));
    // removing an already-absent identifier is a no-op, not an error
    assert!(!s.remove(id));
    assert_eq!(s.len(), 0);
}

#[test]
fn store_counter_wraps_at_top_of_range() {
    let mut s: PendingStore<&str> = PendingStore::starting_at(u64::MAX);
    let last = s.insert_next("at the boundary");
    let first = s.insert_next("after the boundary");
    assert_eq!(last, u64::MAX);
    assert_eq!(first, 0);
    assert!(s.contains(u64::MAX));
    assert!(s.contains(0));
}

#[test]
fn poll_message_is_recorded_then_delivered() {
    let mut s: PendingStore<&str> = PendingStore::new();
    let act = poll_step(&mut s, Ok(PollResult::Cont(Some("msg"))));
    assert_eq!(act, LoopAction::Deliver(0));
    assert_eq!(s.get(0), Some(&"msg"));
}

#[test]
fn poll_empty_continues_and_stop_stops() {
    let mut s: PendingStore<&str> = PendingStore::new();
    assert_eq!(poll_step(&mut s, Ok(PollResult::Cont(None))), LoopAction::Continue);
    assert_eq!(poll_step(&mut s, Ok(PollResult::Stop)), LoopAction::Stop);
    assert_eq!(s.len(), 0);
}

#[test]
fn poll_fault_recovers_and_leaves_store_alone() {
    let mut s: PendingStore<&str> = PendingStore::new();
    s.insert_next("already pending");
    let act = poll_step(&mut s, Err(Some(String::from("receiver blew up"))));
    assert_eq!(act, LoopAction::Recover(Some(String::from("receiver blew up"))));
    let act2 = poll_step(&mut s, Err(None));
    assert_eq!(act2, LoopAction::Recover(None));
    assert_eq!(s.len(), 1);
    assert!(s.contains(0));
}

#[test]
fn fault_does_not_prevent_next_delivery() {
    // a fault on iteration k leaves iteration k+1's delivery untouched
    let mut s: PendingStore<&str> = PendingStore::new();
    poll_step(&mut s, Ok(PollResult::Cont(Some("before the fault"))));
    poll_step(&mut s, Err(Some(String::from("transient"))));
    let act = poll_step(&mut s, Ok(PollResult::Cont(Some("after the fault"))));
    assert_eq!(act, LoopAction::Deliver(1));
    assert_eq!(s.get(1), Some(&"after the fault"));
}

#[test]
fn fault_free_yields_deliver_in_receipt_order() {
    // N yields with no faults: N initial deliveries, unique ids, in order
    let mut s: PendingStore<String> = PendingStore::new();
    let mut ids: Vec<u64> = Vec::new();
    for k in 0..5u64 {
        let act = poll_step(&mut s, Ok(PollResult::Cont(Some(format!("msg {k}")))));
        match act {
            LoopAction::Deliver(id) => ids.push(id),
            other => panic!("expected a delivery, got {other:?}"),
        }
    }
    assert_eq!(ids, vec![0, 1, 2, 3, 4]);
    assert_eq!(s.len(), 5);
}

#[test]
fn retry_renotifies_with_increasing_counts() {
    // unacknowledged: counts 1, 2, 3, ... one per grace interval
    let mut s: PendingStore<&str> = PendingStore::new();
    let id = s.insert_next("slow consumer");
    let mut retry: u64 = 0;
    for expected in 1..=3u64 {
        match retry_step(&s, id, retry) {
            RetryAction::Notify(r) => {
                assert_eq!(r, expected);
                retry = r;
            }
            RetryAction::Finish => panic!("scheduler finished while still pending"),
        }
    }
}

#[test]
fn retry_finishes_once_acknowledged() {
    let mut s: PendingStore<&str> = PendingStore::new();
    let id = s.insert_next("will be acked");
    assert_eq!(retry_step(&s, id, 0), RetryAction::Notify(1));
    s.remove(id);
    // after removal every future check terminates silently
    assert_eq!(retry_step(&s, id, 1), RetryAction::Finish);
    assert_eq!(retry_step(&s, id, 1), RetryAction::Finish);
}

#[test]
fn retry_for_unknown_id_finishes_immediately() {
    let s: PendingStore<&str> = PendingStore::new();
    assert_eq!(retry_step(&s, 42, 0), RetryAction::Finish);
}

#[test]
fn retry_interval_is_ten_seconds() {
    assert_eq!(RETRY_INTERVAL_SECS, 10);
}

#[test]
fn readiness_is_true_only_when_registered() {
    let st = NativePushState::new(7);
    assert!(st.get_ready(RegistrationPhase::Registered));
    assert!(!st.get_ready(RegistrationPhase::Registering));
    assert!(!st.get_ready(RegistrationPhase::NotStarted));
}

#[test]
fn state_handle_is_stable() {
    let st = NativePushState::new(0xdead_beef);
    assert_eq!(st.get_state(), 0xdead_beef);
    assert_eq!(st.get_state(), 0xdead_beef);
}

#[test]
fn gateway_report_carries_exactly_one_side() {
    let ok = gateway_report(Ok(String::from("gateway.example")));
    assert_eq!(ok, (Some(String::from("gateway.example")), None));
    let err = gateway_report(Err(String::from("no such carrier")));
    assert_eq!(err, (None, Some(String::from("no such carrier"))));
}

#[test]
fn decline_report_logs_only_failures() {
    assert_eq!(decline_report(Ok(())), None);
    assert_eq!(
        decline_report(Err(String::from("session not open"))),
        Some(String::from("session not open"))
    );
}

#[test]
fn slot_is_set_at_most_once() {
    let mut slot: OnceSlot<&str> = OnceSlot::empty();
    assert!(slot.get().is_none());
    assert!(slot.set("first packager"));
    // a second initialization attempt is silently ignored
    assert!(!slot.set("second packager"));
    assert_eq!(slot.get(), Some(&"first packager"));
}
