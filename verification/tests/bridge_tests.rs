use minidump_bridge::bridge::{Bridge, HandleState, Settlement};

#[test]
fn submitting_creates_sequential_pending_handles() {
    let mut b = Bridge::new();
    assert_eq!(b.submit(true), Some(0));
    assert_eq!(b.submit(true), Some(1));
    assert!(b.is_pending(0));
    assert!(b.is_pending(1));
}

#[test]
fn engine_failure_refuses_synchronously_without_a_handle() {
    let mut b = Bridge::new();
    assert_eq!(b.submit(false), None);
    assert_eq!(b.submit(true), Some(0));
    assert_eq!(b.submit(false), None);
    // The refused submissions left no handle behind.
    assert_eq!(b.submit(true), Some(1));
}

#[test]
fn settling_one_request_leaves_the_other_pending() {
    let mut b = Bridge::new();
    let first = b.submit(true).unwrap();
    let second = b.submit(true).unwrap();
    b.settle(first, Settlement::Resolved("report text".to_owned()));
    assert!(!b.is_pending(first));
    assert!(b.is_pending(second));
    match &b.handles[first] {
        HandleState::Settled(Settlement::Resolved(text)) => assert_eq!(text, "report text"),
        _ => panic!("first handle should hold its own outcome"),
    }
}

#[test]
fn rejection_settles_with_the_failure_message() {
    let mut b = Bridge::new();
    let id = b.submit(true).unwrap();
    b.settle(id, Settlement::Rejected("boom".to_owned()));
    match &b.handles[id] {
        HandleState::Settled(Settlement::Rejected(msg)) => assert_eq!(msg, "boom"),
        _ => panic!("handle should be rejected"),
    }
}
