use opcua_monitoring::data_value::{DataValue, MonitoredItemNotification};
use opcua_monitoring::instant::Instant;
use opcua_monitoring::queue::NotificationQueue;
use opcua_monitoring::status::{StatusCode, GOOD};
use opcua_monitoring::variant::Variant;

fn note(text: &str) -> MonitoredItemNotification {
    MonitoredItemNotification {
        client_handle: 9,
        value: DataValue {
            value: Some(Variant::String(text.to_string())),
            status: StatusCode { bits: GOOD },
            source_timestamp: Instant { secs: 10, nanos: 0 },
            source_pico_seconds: 0,
            server_timestamp: Instant { secs: 10, nanos: 500 },
            server_pico_seconds: 0,
        },
    }
}

fn filled(capacity: u32, discard_oldest: bool, arrivals: &[&str]) -> NotificationQueue {
    let mut queue = NotificationQueue::new(capacity, discard_oldest);
    for arrival in arrivals {
        queue.enqueue(note(arrival));
    }
    queue
}

#[test]
fn new_queue_is_empty_and_not_overflowed() {
    let queue = NotificationQueue::new(5, true);
    assert_eq!(queue.len(), 0);
    assert!(queue.is_empty());
    assert_eq!(queue.capacity(), 5);
    assert!(queue.discard_oldest());
    assert!(!queue.overflow());
    assert!(queue.as_slice().is_empty());
}

#[test]
fn requested_size_zero_gives_capacity_one() {
    assert_eq!(NotificationQueue::new(0, false).capacity(), 1);
    assert_eq!(NotificationQueue::new(1, false).capacity(), 1);
    assert_eq!(NotificationQueue::new(2, false).capacity(), 2);
    assert_eq!(NotificationQueue::new(u32::MAX, true).capacity(), u32::MAX as usize);
}

#[test]
fn arrivals_enter_at_the_front() {
    let queue = filled(3, true, &["A", "B", "C"]);
    assert_eq!(queue.as_slice(), &[note("C"), note("B"), note("A")]);
    assert!(!queue.overflow());
    assert_eq!(queue.len(), 3);
}

#[test]
fn discard_oldest_drops_the_entry_at_the_back() {
    let queue = filled(3, true, &["A", "B", "C", "D"]);
    assert_eq!(queue.as_slice(), &[note("D"), note("C"), note("B")]);
    assert!(queue.overflow());
}

#[test]
fn keep_oldest_overwrites_the_entry_at_the_front() {
    let mut queue = filled(3, false, &["A", "B", "C"]);
    assert_eq!(queue.as_slice(), &[note("C"), note("B"), note("A")]);
    assert!(!queue.overflow());
    queue.enqueue(note("D"));
    assert_eq!(queue.as_slice(), &[note("D"), note("B"), note("A")]);
    assert!(queue.overflow());
}

#[test]
fn queue_never_exceeds_its_capacity() {
    for capacity in 0..5u32 {
        for discard_oldest in [false, true] {
            let mut queue = NotificationQueue::new(capacity, discard_oldest);
            for arrival in 0..20 {
                queue.enqueue(note(&format!("{}", arrival)));
                assert!(queue.len() <= queue.capacity());
                assert_eq!(queue.as_slice()[0], note(&format!("{}", arrival)));
            }
            assert_eq!(queue.len(), queue.capacity());
            assert!(queue.overflow());
        }
    }
}

#[test]
fn capacity_one_always_holds_the_latest() {
    let discarding = filled(1, true, &["A", "B", "C"]);
    assert_eq!(discarding.as_slice(), &[note("C")]);
    assert!(discarding.overflow());
    let overwriting = filled(1, false, &["A", "B", "C"]);
    assert_eq!(overwriting.as_slice(), &[note("C")]);
    assert!(overwriting.overflow());
}

#[test]
fn dequeue_takes_the_most_recent_entry_first() {
    let mut queue = filled(3, true, &["A", "B", "C"]);
    assert_eq!(queue.dequeue(), Some(note("C")));
    assert_eq!(queue.dequeue(), Some(note("B")));
    assert_eq!(queue.dequeue(), Some(note("A")));
    assert_eq!(queue.dequeue(), None);
    assert!(queue.is_empty());
}

#[test]
fn dequeue_after_discard_oldest_overflow() {
    let mut queue = filled(3, true, &["A", "B", "C", "D"]);
    assert_eq!(queue.dequeue(), Some(note("D")));
    assert_eq!(queue.dequeue(), Some(note("C")));
    assert_eq!(queue.dequeue(), Some(note("B")));
    assert_eq!(queue.dequeue(), None);
}

#[test]
fn overflow_flag_is_set_by_overflow_only() {
    let mut queue = NotificationQueue::new(2, true);
    queue.enqueue(note("A"));
    assert!(!queue.overflow());
    queue.enqueue(note("B"));
    assert!(!queue.overflow());
    queue.enqueue(note("C"));
    assert!(queue.overflow());
}

#[test]
fn overflow_flag_survives_enqueue_and_clears_on_dequeue() {
    let mut queue = filled(2, false, &["A", "B", "C"]);
    assert!(queue.overflow());
    queue.enqueue(note("D"));
    assert!(queue.overflow());
    assert_eq!(queue.dequeue(), Some(note("D")));
    assert!(!queue.overflow());
    queue.enqueue(note("E"));
    assert!(!queue.overflow());
    assert_eq!(queue.as_slice(), &[note("E"), note("A")]);
}

#[test]
fn dequeue_on_empty_queue_keeps_the_overflow_flag() {
    let mut queue = filled(1, true, &["A", "B"]);
    assert!(queue.overflow());
    let copy = queue.clone();
    assert_eq!(queue.dequeue(), Some(note("B")));
    assert!(!queue.overflow());
    assert_eq!(queue.dequeue(), None);
    assert!(!queue.overflow());
    assert_eq!(copy.as_slice(), &[note("B")]);
    assert!(copy.overflow());
    assert_eq!(copy.capacity(), 1);
}

#[test]
fn clone_of_queue_is_equal() {
    let queue = filled(3, false, &["A", "B", "C", "D"]);
    let copy = queue.clone();
    assert_eq!(copy, queue);
    assert_eq!(copy.as_slice(), &[note("D"), note("B"), note("A")]);
    assert!(copy.overflow());
    assert!(!copy.discard_oldest());
}
