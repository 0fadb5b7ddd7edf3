use cloud_ping::collection_utils::CollectionUtils;
use cloud_ping::{DisplayUtils, FormatUtils, ProgressBarFactory, TimeUtils};
use std::collections::HashMap;
use std::time::Duration;

#[test]
fn test_hashmap_creation() {
    let map: HashMap<String, i32> = CollectionUtils::new_hashmap();
    assert!(map.is_empty());

    let map_with_capacity: HashMap<String, i32> = CollectionUtils::hashmap_with_capacity(10);
    assert!(map_with_capacity.is_empty());
}

#[test]
fn test_metadata_creation() {
    let pairs = [("name", "test-region"), ("url", "https://test.com")];
    let metadata = CollectionUtils::create_metadata(&pairs);
    assert_eq!(metadata.get("name"), Some(&"test-region".to_string()));
    assert_eq!(metadata.get("url"), Some(&"https://test.com".to_string()));
    assert_eq!(metadata.len(), 2);
}

#[test]
fn metadata_later_pair_wins() {
    let metadata = CollectionUtils::create_metadata(&[("k", "1"), ("k", "2")]);
    assert_eq!(metadata.len(), 1);
    assert_eq!(metadata.get("k"), Some(&"2".to_string()));
}

#[test]
fn test_duration_formatting() {
    assert_eq!(FormatUtils::format_duration_ms(500), "500ms");
    assert_eq!(FormatUtils::format_duration_ms(0), "0ms");
}

#[test]
fn test_timeout_message() {
    assert_eq!(FormatUtils::format_timeout_message(5000), "Timeout after 5000ms");
}

#[test]
fn large_values_format_in_full() {
    assert_eq!(FormatUtils::format_duration_ms(u64::MAX), "18446744073709551615ms");
    assert_eq!(FormatUtils::format_duration_ms(10), "10ms");
}

#[test]
fn test_duration_creation() {
    let ms_duration = TimeUtils::duration_from_millis(500);
    assert_eq!(ms_duration.as_millis(), 500);

    let sec_duration = TimeUtils::duration_from_secs(5);
    assert_eq!(sec_duration.as_secs(), 5);
}

#[test]
fn test_min_duration() {
    let short_duration = Duration::from_millis(50);
    let min_duration = TimeUtils::min_duration(short_duration);
    assert_eq!(min_duration.as_millis(), 100);

    let long_duration = Duration::from_millis(500);
    let unchanged = TimeUtils::min_duration(long_duration);
    assert_eq!(unchanged.as_millis(), 500);
}

#[test]
fn min_duration_boundary() {
    assert_eq!(TimeUtils::min_duration(Duration::from_millis(100)).as_millis(), 100);
    assert_eq!(TimeUtils::min_duration(Duration::from_millis(99)).as_millis(), 100);
    assert_eq!(TimeUtils::min_duration(Duration::from_micros(99_999)).as_millis(), 100);
}

#[test]
fn truncation_and_separators() {
    assert_eq!(ProgressBarFactory::truncate_text("short", 10), "short");
    assert_eq!(ProgressBarFactory::truncate_text("exactly10!", 10), "exactly10!");
    assert_eq!(ProgressBarFactory::truncate_text("a much longer label", 10), "a much ...");
    assert_eq!(ProgressBarFactory::truncate_text("abcdef", 2), "...");
    assert_eq!(DisplayUtils::format_region_name("Frankfurt Central", 8), "Frank...");
    assert_eq!(DisplayUtils::create_separator(5), "=====");
    assert_eq!(DisplayUtils::create_sub_separator(3), "---");
    assert_eq!(DisplayUtils::create_separator(0), "");
}
