use pttkey::event::RawEvent;
use pttkey::passthrough::{chord_contains, Forwarder};

fn key(code: u16, value: i32) -> RawEvent {
    RawEvent { kind: 1, code, value }
}

fn sync() -> RawEvent {
    RawEvent { kind: 0, code: 0, value: 0 }
}

#[test]
fn suppressed_chord_key_is_not_forwarded() {
    let keys = vec![30u16];
    let mut forwarder = Forwarder::new();
    let batch = vec![key(30, 1), key(31, 1), sync()];
    let sent = forwarder.forward_batch(&keys, true, &batch);
    assert_eq!(sent, vec![key(31, 1), sync()]);
    assert_eq!(forwarder.pending_len(), 0);
}

#[test]
fn without_suppression_everything_is_forwarded() {
    let keys = vec![30u16];
    let mut forwarder = Forwarder::new();
    let batch = vec![key(30, 1), key(31, 1), sync()];
    let sent = forwarder.forward_batch(&keys, false, &batch);
    assert_eq!(sent, batch);
}

#[test]
fn events_wait_for_the_end_of_their_report() {
    let keys = vec![30u16];
    let mut forwarder = Forwarder::new();
    assert!(forwarder.forward(&keys, true, key(31, 1)).is_none());
    assert!(forwarder.forward(&keys, true, RawEvent { kind: 2, code: 0, value: -3 }).is_none());
    assert_eq!(forwarder.pending_len(), 2);
    assert!(forwarder.forward(&keys, true, key(30, 0)).is_none());
    assert_eq!(forwarder.pending_len(), 2);
    let report = forwarder.forward(&keys, true, sync()).unwrap();
    assert_eq!(
        report,
        vec![key(31, 1), RawEvent { kind: 2, code: 0, value: -3 }, sync()]
    );
    assert_eq!(forwarder.pending_len(), 0);
}

#[test]
fn other_synchronization_codes_do_not_flush() {
    let keys = vec![30u16];
    let mut forwarder = Forwarder::new();
    let dropped = RawEvent { kind: 0, code: 3, value: 0 };
    assert!(forwarder.forward(&keys, true, dropped).is_none());
    assert_eq!(forwarder.pending_len(), 1);
    let report = forwarder.forward(&keys, true, sync()).unwrap();
    assert_eq!(report, vec![dropped, sync()]);
}

#[test]
fn an_event_with_a_chord_code_of_another_type_is_kept() {
    // A relative-axis event whose code happens to equal the chord's key code.
    let keys = vec![1u16];
    let mut forwarder = Forwarder::new();
    let motion = RawEvent { kind: 2, code: 1, value: 5 };
    let sent = forwarder.forward_batch(&keys, true, &vec![motion, sync()]);
    assert_eq!(sent, vec![motion, sync()]);
}

#[test]
fn two_reports_in_one_batch_keep_their_order() {
    let keys = vec![30u16, 31u16];
    let mut forwarder = Forwarder::new();
    let batch = vec![key(32, 1), sync(), key(30, 1), key(32, 0), sync(), key(33, 1)];
    let sent = forwarder.forward_batch(&keys, true, &batch);
    assert_eq!(sent, vec![key(32, 1), sync(), key(32, 0), sync()]);
    assert_eq!(forwarder.pending_len(), 1);
    forwarder.clear();
    assert_eq!(forwarder.pending_len(), 0);
}

#[test]
fn chord_membership() {
    assert!(chord_contains(&vec![29, 33], 33));
    assert!(!chord_contains(&vec![29, 33], 30));
    assert!(!chord_contains(&vec![], 30));
}
