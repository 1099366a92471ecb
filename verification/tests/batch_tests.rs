fn pause_millis(ms: u64) {
    let start = std::time::Instant::now();
    while start.elapsed() < std::time::Duration::from_millis(ms) {}
}

use honeycomb_rs::{BatchBuffer, BatchStats, BatchStatsSnapshot, Duration, Event, TransmissionOptions};

// BatchStats

#[test]
fn test_batch_stats_new() {
    let stats = BatchStats::new();
    let snapshot = stats.snapshot();
    assert_eq!(snapshot.events_added, 0);
    assert_eq!(snapshot.events_sent, 0);
    assert_eq!(snapshot.events_dropped, 0);
    assert_eq!(snapshot.batches_sent, 0);
    assert_eq!(snapshot.batches_failed, 0);
}

#[test]
fn test_batch_stats_record_event_added() {
    let mut stats = BatchStats::new();
    stats.record_event_added();
    stats.record_event_added();
    assert_eq!(stats.snapshot().events_added, 2);
}

#[test]
fn test_batch_stats_record_events_sent() {
    let mut stats = BatchStats::new();
    stats.record_events_sent(10);
    stats.record_events_sent(5);
    assert_eq!(stats.snapshot().events_sent, 15);
}

#[test]
fn test_batch_stats_record_event_dropped() {
    let mut stats = BatchStats::new();
    stats.record_event_dropped();
    assert_eq!(stats.snapshot().events_dropped, 1);
}

#[test]
fn test_batch_stats_record_batch_sent() {
    let mut stats = BatchStats::new();
    stats.record_batch_sent();
    stats.record_batch_sent();
    assert_eq!(stats.snapshot().batches_sent, 2);
}

#[test]
fn test_batch_stats_record_batch_failed() {
    let mut stats = BatchStats::new();
    stats.record_batch_failed();
    assert_eq!(stats.snapshot().batches_failed, 1);
}

#[test]
fn test_batch_stats_counters_wrap() {
    let mut stats = BatchStats::new();
    stats.record_events_sent(u64::MAX);
    stats.record_events_sent(2);
    assert_eq!(stats.snapshot().events_sent, 1);
}

// BatchStatsSnapshot

#[test]
fn test_batch_stats_snapshot_default() {
    let snapshot = BatchStatsSnapshot::default();
    assert_eq!(snapshot.events_added, 0);
    assert_eq!(snapshot.events_sent, 0);
}

#[test]
fn test_batch_stats_snapshot_clone() {
    let snapshot = BatchStatsSnapshot {
        events_added: 10,
        events_sent: 5,
        events_dropped: 2,
        batches_sent: 1,
        batches_failed: 0,
    };
    let cloned = snapshot;
    assert_eq!(snapshot, cloned);
}

#[test]
fn test_batch_stats_snapshot_debug() {
    let snapshot = BatchStatsSnapshot::default();
    let debug_str = format!("{snapshot:?}");
    assert!(debug_str.contains("BatchStatsSnapshot"));
}

// BatchBuffer creation

#[test]
fn test_batch_buffer_new() {
    let options = TransmissionOptions::default();
    let buffer = BatchBuffer::new(options);

    assert!(buffer.is_empty());
    assert_eq!(buffer.len(), 0);
    assert_eq!(buffer.max_batch_size(), 50);
}

#[test]
fn test_batch_buffer_with_defaults() {
    let buffer = BatchBuffer::with_defaults();
    assert!(buffer.is_empty());
    assert_eq!(buffer.max_batch_size(), 50);
}

#[test]
fn test_batch_buffer_custom_options() {
    let options = TransmissionOptions::default()
        .with_max_batch_size(100)
        .with_batch_timeout(Duration::from_millis(200));

    let buffer = BatchBuffer::new(options);

    assert_eq!(buffer.max_batch_size(), 100);
    assert_eq!(buffer.batch_timeout(), Duration::from_millis(200));
}

// BatchBuffer add

#[test]
fn test_batch_buffer_add_single_event() {
    let mut buffer = BatchBuffer::with_defaults();
    let event = Event::new();

    let result = buffer.add(event).unwrap();
    assert!(result.is_none());
    assert_eq!(buffer.len(), 1);
}

#[test]
fn test_batch_buffer_add_fills_batch() {
    let options = TransmissionOptions::default().with_max_batch_size(3);
    let mut buffer = BatchBuffer::new(options);

    assert!(buffer.add(Event::new()).unwrap().is_none());
    assert!(buffer.add(Event::new()).unwrap().is_none());

    let batch = buffer.add(Event::new()).unwrap();
    assert!(batch.is_some());
    assert_eq!(batch.unwrap().len(), 3);

    assert!(buffer.is_empty());
}

#[test]
fn test_batch_buffer_add_updates_stats() {
    let mut buffer = BatchBuffer::with_defaults();
    buffer.add(Event::new()).unwrap();
    buffer.add(Event::new()).unwrap();

    let stats = buffer.stats().snapshot();
    assert_eq!(stats.events_added, 2);
}

#[test]
fn test_batch_buffer_add_at_capacity() {
    let options = TransmissionOptions::default()
        .with_max_batch_size(100)
        .with_pending_work_capacity(3);
    let mut buffer = BatchBuffer::new(options);

    buffer.add(Event::new()).unwrap();
    buffer.add(Event::new()).unwrap();
    buffer.add(Event::new()).unwrap();

    let result = buffer.add(Event::new());
    assert!(result.is_err());
    assert!(result.unwrap_err().to_string().contains("at capacity"));

    assert_eq!(buffer.stats().snapshot().events_dropped, 1);
}

// BatchBuffer timeout

#[test]
fn test_batch_buffer_timeout_not_expired_empty() {
    let buffer = BatchBuffer::with_defaults();
    assert!(!buffer.is_timeout_expired());
}

#[test]
fn test_batch_buffer_timeout_not_expired_recent() {
    let options = TransmissionOptions::default().with_batch_timeout(Duration::from_secs(10));
    let mut buffer = BatchBuffer::new(options);

    buffer.add(Event::new()).unwrap();

    assert!(!buffer.is_timeout_expired());
}

#[test]
fn test_batch_buffer_timeout_expired() {
    let options = TransmissionOptions::default().with_batch_timeout(Duration::from_millis(1));
    let mut buffer = BatchBuffer::new(options);

    buffer.add(Event::new()).unwrap();

    pause_millis(10);

    assert!(buffer.is_timeout_expired());
}

#[test]
fn test_batch_buffer_timeout_reset_after_flush() {
    let options = TransmissionOptions::default().with_batch_timeout(Duration::from_millis(1));
    let mut buffer = BatchBuffer::new(options);

    buffer.add(Event::new()).unwrap();
    pause_millis(10);
    assert!(buffer.is_timeout_expired());

    buffer.flush().unwrap();
    assert!(!buffer.is_timeout_expired());
}

#[test]
fn test_batch_buffer_zero_timeout_expires_at_once() {
    let options = TransmissionOptions::default().with_batch_timeout(Duration::zero());
    let mut buffer = BatchBuffer::new(options);
    buffer.add(Event::new()).unwrap();
    assert!(buffer.is_timeout_expired());
}

// BatchBuffer flush

#[test]
fn test_batch_buffer_flush_empty() {
    let mut buffer = BatchBuffer::with_defaults();
    let batch = buffer.flush().unwrap();
    assert!(batch.is_empty());
}

#[test]
fn test_batch_buffer_flush_with_events() {
    let mut buffer = BatchBuffer::with_defaults();

    buffer.add(Event::new()).unwrap();
    buffer.add(Event::new()).unwrap();
    buffer.add(Event::new()).unwrap();

    assert_eq!(buffer.len(), 3);

    let batch = buffer.flush().unwrap();
    assert_eq!(batch.len(), 3);
    assert!(buffer.is_empty());
}

#[test]
fn test_batch_buffer_flush_multiple_times() {
    let mut buffer = BatchBuffer::with_defaults();

    buffer.add(Event::new()).unwrap();
    buffer.add(Event::new()).unwrap();

    let batch1 = buffer.flush().unwrap();
    assert_eq!(batch1.len(), 2);

    buffer.add(Event::new()).unwrap();

    let batch2 = buffer.flush().unwrap();
    assert_eq!(batch2.len(), 1);
}

// Accessors

#[test]
fn test_batch_buffer_accessors() {
    let options = TransmissionOptions::default()
        .with_max_batch_size(100)
        .with_batch_timeout(Duration::from_millis(500))
        .with_pending_work_capacity(5000);
    let buffer = BatchBuffer::new(options);

    assert_eq!(buffer.max_batch_size(), 100);
    assert_eq!(buffer.batch_timeout(), Duration::from_millis(500));
    assert_eq!(buffer.pending_work_capacity(), 5000);
}

#[test]
fn test_batch_buffer_stats_shared() {
    let mut buffer = BatchBuffer::with_defaults();

    buffer.add(Event::new()).unwrap();

    let stats1 = buffer.stats();
    let stats2 = buffer.stats();
    assert_eq!(stats1.snapshot().events_added, 1);
    assert_eq!(stats2.snapshot().events_added, 1);
}

#[test]
fn test_batch_buffer_debug() {
    let buffer = BatchBuffer::with_defaults();
    let debug_str = format!("{buffer:?}");
    assert!(debug_str.contains("BatchBuffer"));
}

// Edge cases

#[test]
fn test_batch_buffer_batch_size_one() {
    let options = TransmissionOptions::default().with_max_batch_size(1);
    let mut buffer = BatchBuffer::new(options);

    let batch = buffer.add(Event::new()).unwrap();
    assert!(batch.is_some());
    assert_eq!(batch.unwrap().len(), 1);

    let batch = buffer.add(Event::new()).unwrap();
    assert!(batch.is_some());
    assert_eq!(batch.unwrap().len(), 1);
}

#[test]
fn test_batch_buffer_add_preserves_event_data() {
    let options = TransmissionOptions::default().with_max_batch_size(2);
    let mut buffer = BatchBuffer::new(options);

    let mut event1 = Event::new();
    event1.add_field("index", 1);

    let mut event2 = Event::new();
    event2.add_field("index", 2);

    buffer.add(event1).unwrap();
    let batch = buffer.add(event2).unwrap().unwrap();

    assert_eq!(batch.len(), 2);
    assert_eq!(batch[0].data.get("index"), Some(&serde_json::Value::Number(1.into())));
    assert_eq!(batch[1].data.get("index"), Some(&serde_json::Value::Number(2.into())));
}

#[test]
fn test_is_empty_returns_true_when_empty() {
    let buffer = BatchBuffer::with_defaults();
    assert!(buffer.is_empty(), "Empty buffer should return true");
    assert_eq!(buffer.len(), 0);
}

#[test]
fn test_is_empty_returns_false_when_not_empty() {
    let mut buffer = BatchBuffer::with_defaults();
    buffer.add(Event::new()).unwrap();
    assert!(!buffer.is_empty(), "Non-empty buffer should return false");
    assert_eq!(buffer.len(), 1);
}

#[test]
fn test_batch_buffer_capacity_leaves_contents_unchanged() {
    let options = TransmissionOptions::default().with_pending_work_capacity(1);
    let mut buffer = BatchBuffer::new(options);
    buffer.add(Event::new()).unwrap();
    assert!(buffer.add(Event::new()).is_err());
    assert_eq!(buffer.len(), 1);
    assert_eq!(buffer.stats().snapshot().events_added, 1);
}

#[test]
fn test_buffer_accounting_over_calls() {
    let options = TransmissionOptions::default()
        .with_max_batch_size(3)
        .with_pending_work_capacity(2);
    let mut buffer = BatchBuffer::new(options);
    let mut handed = 0;
    let mut refused = 0;
    for _ in 0..7 {
        match buffer.add(Event::new()) {
            Ok(Some(batch)) => handed += batch.len(),
            Ok(None) => {}
            Err(_) => refused += 1,
        }
    }
    handed += buffer.flush().unwrap().len();
    buffer.add(Event::new()).unwrap();
    let stats = buffer.stats().snapshot();
    assert_eq!(stats.events_added as usize, handed + buffer.len());
    assert_eq!(stats.events_dropped, refused);
}
