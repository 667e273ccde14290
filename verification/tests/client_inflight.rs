use mqtt_codec::client::inflight::{InflightPublish, InflightStage, InflightStore, PendingPublish};

#[test]
fn inflight_store_should_queue_when_at_capacity() {
    let mut store = InflightStore::new(1);
    store.insert(
        1,
        InflightPublish {
            topic: "a".into(),
            payload: b"1".to_vec(),
            qos: 1,
            retain: false,
            stage: InflightStage::Ack,
            sent_at: 0,
        },
    );
    assert!(!store.has_capacity());
    store.push_pending(PendingPublish {
        topic: "b".into(),
        payload: b"2".to_vec(),
        qos: 1,
        retain: false,
    });
    assert!(store.pop_pending().is_none());
    store.remove(1);
    let pending = store.pop_pending().expect("pending publish");
    assert_eq!(pending.topic, "b");
}

#[test]
fn inflight_store_should_report_due_for_retry() {
    let mut store = InflightStore::new(10);
    let now: u64 = 100_000;
    store.insert(
        7,
        InflightPublish {
            topic: "t".into(),
            payload: Vec::new(),
            qos: 1,
            retain: false,
            stage: InflightStage::Ack,
            sent_at: now - 10_000,
        },
    );
    let due = store.due_for_retry(now, 1_000);
    assert_eq!(due, vec![7]);
}

#[test]
fn inflight_store_zero_capacity_means_one() {
    let mut store = InflightStore::new(0);
    assert!(store.has_capacity());
    store.insert(
        3,
        InflightPublish {
            topic: "x".into(),
            payload: Vec::new(),
            qos: 2,
            retain: true,
            stage: InflightStage::Rec,
            sent_at: 5,
        },
    );
    assert!(!store.has_capacity());
}

#[test]
fn inflight_store_not_due_before_timeout() {
    let mut store = InflightStore::new(4);
    store.insert(
        1,
        InflightPublish {
            topic: "a".into(),
            payload: Vec::new(),
            qos: 1,
            retain: false,
            stage: InflightStage::Ack,
            sent_at: 1_000,
        },
    );
    store.insert(
        2,
        InflightPublish {
            topic: "b".into(),
            payload: Vec::new(),
            qos: 1,
            retain: false,
            stage: InflightStage::Ack,
            sent_at: 5_000,
        },
    );
    let due = store.due_for_retry(6_000, 2_000);
    assert_eq!(due, vec![1]);
    let mut all = store.due_for_retry(6_000, 0);
    all.sort();
    assert_eq!(all, vec![1, 2]);
}

#[test]
fn inflight_store_update_and_snapshot() {
    let mut store = InflightStore::new(4);
    store.insert(
        9,
        InflightPublish {
            topic: "a".into(),
            payload: b"p".to_vec(),
            qos: 2,
            retain: false,
            stage: InflightStage::Rec,
            sent_at: 1,
        },
    );
    assert!(store.update(9, InflightStage::Comp, 50));
    assert!(!store.update(10, InflightStage::Comp, 50));
    let snap = store.snapshot();
    assert_eq!(snap.len(), 1);
    assert_eq!(snap[0].0, 9);
    assert_eq!(snap[0].1.stage, InflightStage::Comp);
    assert_eq!(snap[0].1.sent_at, 50);
    assert_eq!(snap[0].1.payload, b"p".to_vec());
    store.clear();
    assert!(store.snapshot().is_empty());
}
