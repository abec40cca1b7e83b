use iot_sound::queue::{IngestQueue, RawMessage};

fn msg(topic: &str) -> RawMessage {
    RawMessage::new(topic.to_string(), topic.as_bytes().to_vec())
}

#[test]
fn dequeues_in_enqueue_order() {
    let mut q = IngestQueue::new(3);
    for t in ["A", "B", "C"] {
        assert!(q.try_enqueue(msg(t)).is_ok());
    }
    let out: Vec<String> = (0..3).map(|_| q.dequeue().unwrap().topic).collect();
    assert_eq!(out, vec!["A", "B", "C"]);
    assert!(q.dequeue().is_none());
}

#[test]
fn order_kept_with_capacity_one() {
    let mut q = IngestQueue::new(1);
    let mut out = Vec::new();
    for t in ["A", "B", "C"] {
        let mut m = msg(t);
        loop {
            match q.try_enqueue(m) {
                Ok(()) => break,
                Err(back) => {
                    m = back;
                    out.push(q.dequeue().unwrap().topic);
                }
            }
        }
    }
    while let Some(m) = q.dequeue() {
        out.push(m.topic);
    }
    assert_eq!(out, vec!["A", "B", "C"]);
}

#[test]
fn full_queue_hands_message_back() {
    let mut q = IngestQueue::new(2);
    assert!(q.try_enqueue(msg("A")).is_ok());
    assert!(q.try_enqueue(msg("B")).is_ok());
    assert!(q.is_full());
    let back = q.try_enqueue(msg("C")).unwrap_err();
    assert_eq!(back.topic, "C");
    assert_eq!(back.payload, b"C".to_vec());
    assert_eq!(q.len(), 2);
    assert_eq!(q.dequeue().unwrap().topic, "A");
    assert!(!q.is_full());
    assert!(q.try_enqueue(back).is_ok());
    assert_eq!(q.dequeue().unwrap().topic, "B");
    assert_eq!(q.dequeue().unwrap().topic, "C");
    assert!(q.is_empty());
    assert_eq!(q.capacity(), 2);
}
