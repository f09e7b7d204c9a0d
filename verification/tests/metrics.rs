use modbus_gateway::metrics::Metrics;
use modbus_gateway::metrics_impl::MetricsTracker;

#[test]
fn fresh_metrics_are_all_zero() {
    let metrics = Metrics::new();
    let snapshot = metrics.get_snapshot();
    assert_eq!(snapshot.frames_processed, 0);
    assert_eq!(snapshot.frames_invalid, 0);
    assert_eq!(snapshot.bytes_in, 0);
    assert_eq!(snapshot.bytes_out, 0);
    assert!(snapshot.last_error.is_none());
}

#[test]
fn record_frame_counts_the_frame_and_its_bytes() {
    let mut metrics = Metrics::new();
    metrics.record_frame(13);
    metrics.record_frame(7);
    let snapshot = metrics.get_snapshot();
    assert_eq!(snapshot.frames_processed, 2);
    assert_eq!(snapshot.bytes_in, 20);
    assert_eq!(snapshot.frames_invalid, 0);
    assert_eq!(snapshot.bytes_out, 0);
}

#[test]
fn record_error_counts_and_overwrites_the_message() {
    let mut metrics = Metrics::new();
    metrics.record_error("first".to_string());
    metrics.record_error("second".to_string());
    let snapshot = metrics.get_snapshot();
    assert_eq!(snapshot.frames_invalid, 2);
    assert_eq!(snapshot.last_error.as_deref(), Some("second"));
    assert_eq!(snapshot.frames_processed, 0);
}

#[test]
fn record_outbound_adds_only_outbound_bytes() {
    let mut metrics = Metrics::new();
    metrics.record_outbound(100);
    metrics.record_outbound(55);
    let snapshot = metrics.get_snapshot();
    assert_eq!(snapshot.bytes_out, 155);
    assert_eq!(snapshot.bytes_in, 0);
    assert_eq!(snapshot.frames_processed, 0);
}

#[test]
fn snapshot_leaves_the_counters_untouched() {
    let mut metrics = Metrics::new();
    metrics.record_frame(5);
    metrics.record_error("oops".to_string());
    let first = metrics.get_snapshot();
    let second = metrics.get_snapshot();
    assert_eq!(first.frames_processed, second.frames_processed);
    assert_eq!(first.frames_invalid, second.frames_invalid);
    assert_eq!(first.bytes_in, second.bytes_in);
    assert_eq!(first.bytes_out, second.bytes_out);
    assert_eq!(first.last_error, second.last_error);
}

#[test]
fn tracker_counts_each_conclusion_once() {
    let mut tracker = MetricsTracker::new();
    tracker.record_frame(13);
    tracker.record_outbound(150);
    tracker.record_error("bad frame".to_string());
    tracker.record_frame(9);
    let snapshot = tracker.get_snapshot();
    assert_eq!(snapshot.frames_processed + snapshot.frames_invalid, 3);
    assert_eq!(snapshot.frames_processed, 2);
    assert_eq!(snapshot.frames_invalid, 1);
    assert_eq!(snapshot.bytes_in, 22);
    assert_eq!(snapshot.bytes_out, 150);
    assert_eq!(snapshot.last_error.as_deref(), Some("bad frame"));
}

#[test]
fn tracker_snapshot_matches_plain_metrics() {
    let mut tracker = MetricsTracker::new();
    let mut metrics = Metrics::new();
    tracker.record_frame(4);
    metrics.record_frame(4);
    tracker.record_error("x".to_string());
    metrics.record_error("x".to_string());
    let a = tracker.get_snapshot();
    let b = metrics.get_snapshot();
    assert_eq!(a.frames_processed, b.frames_processed);
    assert_eq!(a.frames_invalid, b.frames_invalid);
    assert_eq!(a.bytes_in, b.bytes_in);
    assert_eq!(a.bytes_out, b.bytes_out);
    assert_eq!(a.last_error, b.last_error);
}
