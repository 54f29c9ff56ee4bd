use mempool_relay::{
    Hub, MempoolTransaction, RecvOutcome, SessionStep, Snapshot, TxDetail, assemble_snapshot,
    on_recv,
};

fn snapshot_tagged(tag: u64) -> Snapshot {
    vec![MempoolTransaction {
        txid: format!("tx{}", tag),
        fee: tag,
        weight: 1,
        size: 0,
        inputs: 0,
        outputs: 0,
        age: 0,
    }]
}

#[test]
fn hub_starts_with_nothing_published() {
    let hub = Hub::new();
    assert_eq!(hub.published(), 0);
    let mut sub = hub.subscribe();
    assert!(matches!(hub.poll_next(&mut sub), RecvOutcome::Pending));
}

#[test]
fn subscriber_sees_publications_in_order() {
    let mut hub = Hub::new();
    let mut sub = hub.subscribe();
    hub.publish(snapshot_tagged(1));
    hub.publish(snapshot_tagged(2));
    match hub.poll_next(&mut sub) {
        RecvOutcome::Message(m) => assert_eq!(m, snapshot_tagged(1)),
        _ => panic!("expected a message"),
    }
    match hub.poll_next(&mut sub) {
        RecvOutcome::Message(m) => assert_eq!(m, snapshot_tagged(2)),
        _ => panic!("expected a message"),
    }
    assert!(matches!(hub.poll_next(&mut sub), RecvOutcome::Pending));
}

#[test]
fn late_subscriber_never_sees_prior_publications() {
    let mut hub = Hub::new();
    hub.publish(snapshot_tagged(1));
    hub.publish(snapshot_tagged(2));
    let mut sub = hub.subscribe();
    assert!(matches!(hub.poll_next(&mut sub), RecvOutcome::Pending));
    hub.publish(snapshot_tagged(3));
    match hub.poll_next(&mut sub) {
        RecvOutcome::Message(m) => assert_eq!(m, snapshot_tagged(3)),
        _ => panic!("expected the publication after subscribing"),
    }
    assert!(matches!(hub.poll_next(&mut sub), RecvOutcome::Pending));
}

#[test]
fn slow_subscriber_is_told_it_lagged_then_resumes_at_oldest_retained() {
    let mut hub = Hub::new();
    let mut sub = hub.subscribe();
    for tag in 0..17 {
        hub.publish(snapshot_tagged(tag));
    }
    assert!(matches!(hub.poll_next(&mut sub), RecvOutcome::Lagged));
    match hub.poll_next(&mut sub) {
        RecvOutcome::Message(m) => assert_eq!(m, snapshot_tagged(1)),
        _ => panic!("expected the oldest retained snapshot"),
    }
}

#[test]
fn session_forwards_waits_and_ends() {
    match on_recv(RecvOutcome::Message(snapshot_tagged(7))) {
        SessionStep::Forward(s) => assert_eq!(s, snapshot_tagged(7)),
        _ => panic!("expected a forward"),
    }
    assert!(matches!(on_recv(RecvOutcome::Pending), SessionStep::Wait));
    assert!(matches!(on_recv(RecvOutcome::Lagged), SessionStep::End));
}

#[test]
fn two_subscribers_see_every_cycle_after_their_own_subscription() {
    let items = vec![
        ("a".to_string(), Some(TxDetail {
            fee: Some(100),
            vsize: Some(10),
            size: Some(10),
            inputs: Some(1),
            outputs: Some(1),
            time: None,
        })),
        ("b".to_string(), Some(TxDetail {
            fee: Some(200),
            vsize: Some(20),
            size: Some(20),
            inputs: Some(2),
            outputs: Some(2),
            time: None,
        })),
        ("c".to_string(), Some(TxDetail {
            fee: Some(300),
            vsize: Some(30),
            size: Some(30),
            inputs: Some(3),
            outputs: Some(3),
            time: None,
        })),
    ];
    let fixed = assemble_snapshot(items, 0);
    assert_eq!(fixed.len(), 3);

    let mut hub = Hub::new();
    let mut early = hub.subscribe();
    let mut seen_early: Vec<Snapshot> = Vec::new();
    let mut seen_late: Vec<Snapshot> = Vec::new();

    // Two refresh cycles before the second subscriber arrives.
    for _ in 0..2 {
        hub.publish(fixed.clone());
    }
    while let RecvOutcome::Message(m) = hub.poll_next(&mut early) {
        seen_early.push(m);
    }

    let mut late = hub.subscribe();
    for _ in 0..3 {
        hub.publish(fixed.clone());
    }
    while let RecvOutcome::Message(m) = hub.poll_next(&mut early) {
        seen_early.push(m);
    }
    while let RecvOutcome::Message(m) = hub.poll_next(&mut late) {
        seen_late.push(m);
    }

    assert_eq!(seen_early.len(), 5);
    assert_eq!(seen_late.len(), 3);
    // Overlapping windows carry identical content.
    assert_eq!(seen_early[2..], seen_late[..]);
    for snap in seen_early.iter().chain(seen_late.iter()) {
        assert_eq!(*snap, fixed);
    }
}
