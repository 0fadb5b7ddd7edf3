use cloud_ping::models::freshness::{jitter_update, Freshness, JitterUpdate, Recompute};
use cloud_ping::models::summary::{count_recent_failures, count_successes};
use cloud_ping::{
    AggregatorSummary, AlertSeverity, DisplayFormatter, Endpoint, HealthStatus, ProbeType,
    RingBuffer,
};

#[test]
fn test_endpoint_creation() {
    let endpoint = Endpoint::new(
        "test".to_string(),
        "example.com".to_string(),
        80,
        ProbeType::HTTP,
    );

    assert_eq!(endpoint.id, "test");
    assert_eq!(endpoint.host, "example.com");
    assert_eq!(endpoint.port, 80);
    assert_eq!(endpoint.probe_type, ProbeType::HTTP);
    assert!(endpoint.is_valid());
}

#[test]
fn test_probe_type_defaults() {
    assert_eq!(ProbeType::TCP.default_port(), 80);
    assert_eq!(ProbeType::HTTP.default_port(), 80);
    assert_eq!(ProbeType::ICMP.default_port(), 0);

    assert!(!ProbeType::TCP.requires_privileges());
    assert!(!ProbeType::HTTP.requires_privileges());
    assert!(ProbeType::ICMP.requires_privileges());
}

#[test]
fn test_endpoint_address() {
    let tcp_endpoint = Endpoint::new(
        "tcp".to_string(),
        "example.com".to_string(),
        80,
        ProbeType::TCP,
    );
    assert_eq!(tcp_endpoint.address(), "example.com:80");

    let icmp_endpoint = Endpoint::new(
        "icmp".to_string(),
        "example.com".to_string(),
        0,
        ProbeType::ICMP,
    );
    assert_eq!(icmp_endpoint.address(), "example.com");
}

#[test]
fn endpoint_validity_rules() {
    let no_id = Endpoint::new(String::new(), "h".to_string(), 80, ProbeType::TCP);
    assert!(!no_id.is_valid());
    let no_host = Endpoint::new("a".to_string(), String::new(), 80, ProbeType::TCP);
    assert!(!no_host.is_valid());
    let no_port = Endpoint::new("a".to_string(), "h".to_string(), 0, ProbeType::TCP);
    assert!(!no_port.is_valid());
    let icmp = Endpoint::new("a".to_string(), "h".to_string(), 0, ProbeType::ICMP);
    assert!(icmp.is_valid());
    let wide = Endpoint::new("a".to_string(), "h".to_string(), 65535, ProbeType::HTTP);
    assert_eq!(wide.address(), "h:65535");
}

#[test]
fn endpoint_metadata_round_trip() {
    let mut e = Endpoint::new("a".to_string(), "h".to_string(), 443, ProbeType::HTTP);
    assert!(e.get_metadata("region").is_none());
    e.set_metadata("region".to_string(), "eu".to_string());
    assert_eq!(e.get_metadata("region"), Some(&"eu".to_string()));
    e.set_metadata("region".to_string(), "us".to_string());
    assert_eq!(e.get_metadata("region"), Some(&"us".to_string()));
    assert_eq!(e.metadata.len(), 1);
}

#[test]
fn test_ring_buffer() {
    let mut buffer = RingBuffer::new(3);

    buffer.push(1);
    buffer.push(2);
    buffer.push(3);
    assert_eq!(buffer.len(), 3);

    buffer.push(4); // Should remove 1
    assert_eq!(buffer.len(), 3);
    assert_eq!(buffer.latest(), Some(&4));
    assert_eq!(buffer.oldest(), Some(&2));
}

#[test]
fn ring_buffer_keeps_last_items_in_push_order() {
    let cap = 4;
    let mut buffer = RingBuffer::new(cap);
    for i in 0..(cap + 3) {
        buffer.push(i * 10);
        assert!(buffer.len() <= cap);
    }
    // After cap + 3 pushes the oldest is the 4th item pushed.
    assert_eq!(buffer.oldest(), Some(&30));
    let items: Vec<usize> = buffer.iter().copied().collect();
    assert_eq!(items, vec![30, 40, 50, 60]);
    let newest_first: Vec<usize> = buffer.as_slice().into_iter().copied().collect();
    assert_eq!(newest_first, vec![60, 50, 40, 30]);
    // Iteration restarts from the oldest each time.
    assert_eq!(buffer.iter().count(), 4);
    assert_eq!(buffer.iter().next(), Some(&30));
}

#[test]
fn ring_buffer_empty_and_clear() {
    let mut buffer: RingBuffer<u8> = RingBuffer::new(2);
    assert!(buffer.is_empty());
    assert_eq!(buffer.latest(), None);
    assert_eq!(buffer.oldest(), None);
    assert!(buffer.as_slice().is_empty());
    buffer.push(7);
    assert_eq!(buffer.latest(), Some(&7));
    assert_eq!(buffer.oldest(), Some(&7));
    buffer.clear();
    assert!(buffer.is_empty());
    assert_eq!(buffer.capacity(), 2);
}

#[test]
fn ring_buffer_capacity_one() {
    let mut buffer = RingBuffer::new(1);
    buffer.push('a');
    buffer.push('b');
    assert_eq!(buffer.len(), 1);
    assert_eq!(buffer.oldest(), Some(&'b'));
}

#[test]
fn status_colors_and_symbols() {
    assert_eq!(HealthStatus::Unknown.color(), "gray");
    assert_eq!(HealthStatus::Excellent.color(), "green");
    assert_eq!(HealthStatus::Good.color(), "lightgreen");
    assert_eq!(HealthStatus::Fair.color(), "yellow");
    assert_eq!(HealthStatus::Poor.color(), "orange");
    assert_eq!(HealthStatus::Critical.color(), "red");
    assert_eq!(HealthStatus::Excellent.emoji(), "\u{1f7e2}");
    assert_eq!(AlertSeverity::Info.color_code(), "blue");
    assert_eq!(AlertSeverity::Warning.color_code(), "yellow");
    assert_eq!(AlertSeverity::Critical.color_code(), "red");
    assert_eq!(AlertSeverity::Critical.emoji(), "\u{1f6a8}");
    assert!(AlertSeverity::Info < AlertSeverity::Warning);
    assert!(AlertSeverity::Warning < AlertSeverity::Critical);
}

#[test]
fn grade_categories() {
    assert_eq!(DisplayFormatter::get_category('A'), "Excellent");
    assert_eq!(DisplayFormatter::get_category('B'), "Good");
    assert_eq!(DisplayFormatter::get_category('C'), "Fair");
    assert_eq!(DisplayFormatter::get_category('D'), "Poor");
    assert_eq!(DisplayFormatter::get_category('F'), "Bad");
    assert_eq!(DisplayFormatter::get_category('Z'), "Unknown");
}

#[test]
fn summary_counts_grade_bands() {
    let s = AggregatorSummary::from_grades(&['A', 'B', 'C', 'D', 'F', 'F', 'A']);
    assert_eq!(s.total_endpoints, 7);
    assert_eq!(s.healthy_endpoints, 3);
    assert_eq!(s.degraded_endpoints, 2);
    assert_eq!(s.failed_endpoints, 2);
    let empty = AggregatorSummary::from_grades(&[]);
    assert_eq!(empty.total_endpoints, 0);
    assert_eq!(empty.healthy_endpoints, 0);
}

#[test]
fn window_outcome_counts() {
    let outcomes = [true, false, true, true, false];
    assert_eq!(count_successes(&outcomes), 3);
    assert_eq!(count_successes(&[]), 0);
    // newest first: the two most recent outcomes hold one failure
    let newest_first = [false, true, false, false];
    assert_eq!(count_recent_failures(&newest_first, 2), 1);
    assert_eq!(count_recent_failures(&newest_first, 10), 3);
    assert_eq!(count_recent_failures(&newest_first, 0), 0);
}

#[test]
fn freshness_follows_records_and_timer() {
    let mut f = Freshness::new();
    assert!(f.dirty_short && f.dirty_long);
    assert_eq!(f.on_record(), Recompute::Short);
    f.short_recomputed();
    assert!(!f.dirty_short);
    assert!(f.dirty_long);
    assert_eq!(f.on_long_timer(), Recompute::Long);
    f.long_recomputed();
    assert_eq!(f.on_long_timer(), Recompute::Nothing);
    assert_eq!(f.on_long_timer(), Recompute::Nothing);
    assert_eq!(f.on_record(), Recompute::Short);
    assert!(f.dirty_long);
}

#[test]
fn jitter_update_kinds() {
    assert_eq!(jitter_update(false, true), JitterUpdate::Unchanged);
    assert_eq!(jitter_update(true, true), JitterUpdate::Delta);
    assert_eq!(jitter_update(true, false), JitterUpdate::Penalty);
    assert_eq!(jitter_update(false, false), JitterUpdate::Penalty);
}

#[test]
fn quality_bands() {
    assert_eq!(DisplayFormatter::quality_assessment(100).0, "Excellent");
    assert_eq!(DisplayFormatter::quality_assessment(90).0, "Excellent");
    assert_eq!(DisplayFormatter::quality_assessment(89).0, "Good");
    assert_eq!(DisplayFormatter::quality_assessment(75).0, "Good");
    assert_eq!(DisplayFormatter::quality_assessment(74).0, "Fair");
    assert_eq!(DisplayFormatter::quality_assessment(60).0, "Fair");
    assert_eq!(DisplayFormatter::quality_assessment(59).0, "Poor");
    assert_eq!(DisplayFormatter::quality_assessment(40).0, "Poor");
    assert_eq!(DisplayFormatter::quality_assessment(39).0, "Very Poor");
    assert_eq!(DisplayFormatter::quality_assessment(0).0, "Very Poor");
    assert_eq!(DisplayFormatter::quality_assessment(255).0, "Very Poor");
    assert_eq!(
        DisplayFormatter::quality_assessment(80).1,
        "Your network connection is solid."
    );
}
