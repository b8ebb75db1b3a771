use dontpanic::buffer::{RecencyBuffer, Ring, DEFAULT_CAPACITY, MAX_CAPACITY};
use dontpanic::event::{Level, LogEvent};

fn numbered(n: u64) -> LogEvent {
    LogEvent {
        timestamp: n,
        level: Level::Info,
        message: format!("event {n}"),
        module: Some("app::worker".to_string()),
        file: None,
        line: Some(n as u32),
    }
}

fn stamps(events: &[LogEvent]) -> Vec<u64> {
    events.iter().map(|e| e.timestamp).collect()
}

#[test]
fn drain_of_an_empty_ring_is_empty() {
    let mut ring = Ring::new(4).unwrap();
    assert!(ring.drain_available().is_empty());
    assert!(ring.drain_available().is_empty());
}

#[test]
fn pushes_within_capacity_come_out_in_push_order() {
    let mut ring = Ring::new(5).unwrap();
    for n in 0..3 {
        ring.push(numbered(n));
    }
    assert_eq!(stamps(&ring.drain_available()), vec![0, 1, 2]);
}

#[test]
fn exactly_capacity_pushes_are_all_kept() {
    let mut ring = Ring::new(5).unwrap();
    for n in 0..5 {
        ring.push(numbered(n));
    }
    assert_eq!(stamps(&ring.drain_available()), vec![0, 1, 2, 3, 4]);
}

#[test]
fn overflow_keeps_the_most_recent_in_push_order() {
    let mut ring = Ring::new(3).unwrap();
    for n in 0..8 {
        ring.push(numbered(n));
    }
    assert_eq!(stamps(&ring.drain_available()), vec![5, 6, 7]);
}

#[test]
fn one_past_capacity_drops_only_the_oldest() {
    let mut ring = Ring::new(4).unwrap();
    for n in 0..5 {
        ring.push(numbered(n));
    }
    assert_eq!(stamps(&ring.drain_available()), vec![1, 2, 3, 4]);
}

#[test]
fn a_ring_of_one_keeps_the_last_event() {
    let mut ring = Ring::new(1).unwrap();
    ring.push(numbered(7));
    ring.push(numbered(8));
    ring.push(numbered(9));
    assert_eq!(stamps(&ring.drain_available()), vec![9]);
    assert!(ring.drain_available().is_empty());
}

#[test]
fn a_drained_event_is_not_drained_again() {
    let mut ring = Ring::new(4).unwrap();
    ring.push(numbered(1));
    ring.push(numbered(2));
    assert_eq!(stamps(&ring.drain_available()), vec![1, 2]);
    ring.push(numbered(3));
    assert_eq!(stamps(&ring.drain_available()), vec![3]);
    assert!(ring.drain_available().is_empty());
}

#[test]
fn a_drain_frees_the_whole_capacity() {
    let mut ring = Ring::new(2).unwrap();
    for n in 0..5 {
        ring.push(numbered(n));
    }
    assert_eq!(stamps(&ring.drain_available()), vec![3, 4]);
    ring.push(numbered(10));
    ring.push(numbered(11));
    assert_eq!(stamps(&ring.drain_available()), vec![10, 11]);
}

#[test]
fn drained_events_keep_every_field() {
    let mut ring = Ring::new(2).unwrap();
    ring.push(LogEvent {
        timestamp: 1_700_000_000,
        level: Level::Warn,
        message: "disk almost full".to_string(),
        module: Some("storage".to_string()),
        file: Some("src/storage.rs".to_string()),
        line: Some(88),
    });
    let drained = ring.drain_available();
    assert_eq!(drained.len(), 1);
    assert_eq!(drained[0].timestamp, 1_700_000_000);
    assert_eq!(drained[0].level, Level::Warn);
    assert_eq!(drained[0].message, "disk almost full");
    assert_eq!(drained[0].module.as_deref(), Some("storage"));
    assert_eq!(drained[0].file.as_deref(), Some("src/storage.rs"));
    assert_eq!(drained[0].line, Some(88));
}

#[test]
fn there_is_no_ring_without_capacity() {
    assert!(Ring::new(0).is_none());
}

#[test]
fn the_capacity_is_capped() {
    assert!(Ring::new(MAX_CAPACITY).is_some());
    assert!(Ring::new(MAX_CAPACITY + 1).is_none());
    assert!(Ring::new(usize::MAX).is_none());
    assert!(RecencyBuffer::new(usize::MAX).is_none());
}

#[test]
fn a_buffer_without_consumers_keeps_nothing() {
    let mut buffer = RecencyBuffer::new(4).unwrap();
    buffer.push(numbered(1));
    assert!(buffer.drain_available(0).is_empty());
    let late = buffer.attach();
    assert_eq!(late, 0);
    assert!(buffer.drain_available(late).is_empty());
}

#[test]
fn there_is_no_buffer_without_capacity() {
    assert!(RecencyBuffer::new(0).is_none());
    assert!(RecencyBuffer::new(MAX_CAPACITY).is_some());
    assert!(RecencyBuffer::new(MAX_CAPACITY + 1).is_none());
}

#[test]
fn consumers_are_numbered_in_the_order_of_attachment() {
    let mut buffer = RecencyBuffer::new(4).unwrap();
    assert_eq!(buffer.capacity(), 4);
    assert_eq!(buffer.attach(), 0);
    assert_eq!(buffer.attach(), 1);
    buffer.detach(0);
    assert_eq!(buffer.attach(), 2);
}

#[test]
fn every_consumer_reads_every_event() {
    let mut buffer = RecencyBuffer::new(8).unwrap();
    let first = buffer.attach();
    let second = buffer.attach();
    for n in 0..5 {
        buffer.push(numbered(n));
    }
    assert_eq!(stamps(&buffer.drain_available(first)), vec![0, 1, 2, 3, 4]);
    assert_eq!(stamps(&buffer.drain_available(second)), vec![0, 1, 2, 3, 4]);
    assert!(buffer.drain_available(first).is_empty());
    assert!(buffer.drain_available(second).is_empty());
}

#[test]
fn a_drain_leaves_the_other_consumers_their_events() {
    let mut buffer = RecencyBuffer::new(8).unwrap();
    let first = buffer.attach();
    let second = buffer.attach();
    buffer.push(numbered(1));
    buffer.push(numbered(2));
    assert_eq!(stamps(&buffer.drain_available(first)), vec![1, 2]);
    buffer.push(numbered(3));
    assert_eq!(stamps(&buffer.drain_available(first)), vec![3]);
    assert_eq!(stamps(&buffer.drain_available(second)), vec![1, 2, 3]);
}

#[test]
fn a_consumer_reads_what_was_pushed_after_its_attachment() {
    let mut buffer = RecencyBuffer::new(8).unwrap();
    let early = buffer.attach();
    buffer.push(numbered(1));
    let late = buffer.attach();
    buffer.push(numbered(2));
    assert_eq!(stamps(&buffer.drain_available(early)), vec![1, 2]);
    assert_eq!(stamps(&buffer.drain_available(late)), vec![2]);
}

#[test]
fn each_consumer_keeps_the_most_recent_on_overflow() {
    let mut buffer = RecencyBuffer::new(3).unwrap();
    let first = buffer.attach();
    let second = buffer.attach();
    for n in 0..4 {
        buffer.push(numbered(n));
    }
    assert_eq!(stamps(&buffer.drain_available(first)), vec![1, 2, 3]);
    for n in 4..9 {
        buffer.push(numbered(n));
    }
    assert_eq!(stamps(&buffer.drain_available(first)), vec![6, 7, 8]);
    assert_eq!(stamps(&buffer.drain_available(second)), vec![6, 7, 8]);
}

#[test]
fn a_detached_consumer_reads_nothing() {
    let mut buffer = RecencyBuffer::new(3).unwrap();
    let first = buffer.attach();
    let second = buffer.attach();
    buffer.push(numbered(1));
    buffer.detach(first);
    buffer.push(numbered(2));
    assert!(buffer.drain_available(first).is_empty());
    assert_eq!(stamps(&buffer.drain_available(second)), vec![1, 2]);
    buffer.detach(first);
    buffer.detach(17);
    assert_eq!(stamps(&buffer.drain_available(second)), Vec::<u64>::new());
}

#[test]
fn an_unknown_consumer_reads_nothing() {
    let mut buffer = RecencyBuffer::new(3).unwrap();
    let only = buffer.attach();
    buffer.push(numbered(1));
    assert!(buffer.drain_available(only + 1).is_empty());
    assert!(buffer.drain_available(usize::MAX).is_empty());
    assert_eq!(stamps(&buffer.drain_available(only)), vec![1]);
}

#[test]
fn the_default_buffer_keeps_a_hundred_events() {
    assert_eq!(DEFAULT_CAPACITY, 100);
    let mut buffer = RecencyBuffer::with_default_capacity();
    let consumer = buffer.attach();
    for n in 0..250 {
        buffer.push(numbered(n));
    }
    let kept = stamps(&buffer.drain_available(consumer));
    assert_eq!(kept.len(), 100);
    assert_eq!(kept, (150..250).collect::<Vec<u64>>());
}

#[test]
fn a_ring_keeps_the_newest_whatever_the_sizes() {
    for capacity in 1..=12usize {
        for count in 0..=30u64 {
            let mut ring = Ring::new(capacity).unwrap();
            for n in 0..count {
                ring.push(numbered(n));
            }
            let kept = count.min(capacity as u64);
            assert_eq!(
                stamps(&ring.drain_available()),
                (count - kept..count).collect::<Vec<u64>>(),
                "capacity {capacity}, {count} pushed"
            );
            assert!(ring.drain_available().is_empty());
        }
    }
}

#[test]
fn consumers_keep_the_newest_whatever_the_sizes() {
    for capacity in 1..=6usize {
        for count in 0..=15u64 {
            let mut buffer = RecencyBuffer::new(capacity).unwrap();
            let early = buffer.attach();
            for n in 0..count / 2 {
                buffer.push(numbered(n));
            }
            let late = buffer.attach();
            for n in count / 2..count {
                buffer.push(numbered(n));
            }
            let kept = count.min(capacity as u64);
            assert_eq!(
                stamps(&buffer.drain_available(early)),
                (count - kept..count).collect::<Vec<u64>>()
            );
            let seen = count - count / 2;
            let kept = seen.min(capacity as u64);
            assert_eq!(
                stamps(&buffer.drain_available(late)),
                (count - kept..count).collect::<Vec<u64>>()
            );
        }
    }
}
