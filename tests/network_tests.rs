use std::time::Duration;
use cloud_ping::network::{retry_step, RequestTiming, RetryStep};
use cloud_ping::network::{endpoint_from_parts, UrlParts};
use cloud_ping::network::{append_cache_buster, is_web_scheme, with_scheme_prefix};
use cloud_ping::network::endpoint_for_region;
use cloud_ping::{CloudPingError, NetworkTester, NetworkTesterBuilder, ProbeType};

#[test]
fn test_add_cache_buster_no_query() {
    let url = "https://example.com/ping";
    let result = NetworkTester::add_cache_buster(url).unwrap();

    assert!(result.starts_with("https://example.com/ping?cache_buster="));
    assert!(result.len() > url.len() + 15); // Should have timestamp
}

#[test]
fn test_add_cache_buster_with_existing_query() {
    let url = "https://example.com/ping?existing=param";
    let result = NetworkTester::add_cache_buster(url).unwrap();

    assert!(result.starts_with("https://example.com/ping?existing=param&cache_buster="));
    assert!(result.contains("existing=param"));
    assert!(result.contains("cache_buster="));
}

#[test]
fn test_add_cache_buster_invalid_url() {
    let url = "not-a-valid-url";
    let result = NetworkTester::add_cache_buster(url);

    assert!(result.is_err());
}

#[test]
fn test_cache_buster_format() {
    let url = "https://example.com/ping";
    let url_with_cache_buster = NetworkTester::add_cache_buster(url).unwrap();

    assert!(url_with_cache_buster.starts_with("https://example.com/ping?cache_buster="));
    assert!(url_with_cache_buster.len() > url.len() + 15); // Should have timestamp
}

#[test]
fn cache_buster_at_fixed_time() {
    assert_eq!(
        NetworkTester::add_cache_buster_at("http://h/p", 1234).unwrap(),
        "http://h/p?cache_buster=1234"
    );
    assert_eq!(
        NetworkTester::add_cache_buster_at("http://h/p?a=1", 0).unwrap(),
        "http://h/p?a=1&cache_buster=0"
    );
    assert!(matches!(
        NetworkTester::add_cache_buster_at("no scheme", 1),
        Err(CloudPingError::InvalidUrl { .. })
    ));
}

#[test]
fn test_validate_and_normalize_url() {
    // Test HTTPS URL
    let result = NetworkTester::validate_and_normalize_url("https://example.com").unwrap();
    assert_eq!(result, "https://example.com");

    // Test HTTP URL
    let result = NetworkTester::validate_and_normalize_url("http://example.com").unwrap();
    assert_eq!(result, "http://example.com");

    // Test domain without protocol (should add HTTPS)
    let result = NetworkTester::validate_and_normalize_url("example.com").unwrap();
    assert_eq!(result, "https://example.com");

    // Test empty URL
    let result = NetworkTester::validate_and_normalize_url("");
    assert!(result.is_err());
}

#[test]
fn test_url_validation_and_normalization() {
    // Valid URLs
    assert!(NetworkTester::validate_and_normalize_url("https://example.com").is_ok());
    assert!(NetworkTester::validate_and_normalize_url("http://example.com").is_ok());

    // URLs that need normalization
    let normalized = NetworkTester::validate_and_normalize_url("example.com").unwrap();
    assert!(normalized.starts_with("https://"));

    let ip_normalized = NetworkTester::validate_and_normalize_url("8.8.8.8").unwrap();
    assert!(ip_normalized.starts_with("https://") || ip_normalized.starts_with("http://"));

    // Invalid URLs
    assert!(NetworkTester::validate_and_normalize_url("").is_err());
}

#[test]
fn normalization_trims_and_prefixes_networks() {
    assert_eq!(
        NetworkTester::validate_and_normalize_url("  https://example.com  ").unwrap(),
        "https://example.com"
    );
    assert_eq!(
        NetworkTester::validate_and_normalize_url("10.0.0.0/8").unwrap(),
        "http://10.0.0.0/8"
    );
    assert!(matches!(
        NetworkTester::validate_and_normalize_url("   "),
        Err(CloudPingError::InvalidUrl { .. })
    ));
}

#[test]
fn region_urls_become_endpoints() {
    let e = endpoint_for_region("r1".to_string(), "Frankfurt", "https://fra.example.com/ping", "Acme", "DE")
        .unwrap();
    assert_eq!(e.host, "fra.example.com");
    assert_eq!(e.port, 443);
    assert_eq!(e.probe_type, ProbeType::HTTP);
    assert_eq!(e.get_metadata("name"), Some(&"Frankfurt".to_string()));
    assert_eq!(e.get_metadata("country"), Some(&"DE".to_string()));

    let plain = endpoint_for_region("r2".to_string(), "n", "http://h.example:8080/", "p", "c").unwrap();
    assert_eq!(plain.port, 8080);
    assert_eq!(plain.probe_type, ProbeType::HTTP);

    let http = endpoint_for_region("r3".to_string(), "n", "http://h.example/", "p", "c").unwrap();
    assert_eq!(http.port, 80);

    let tcp = endpoint_for_region("r4".to_string(), "n", "tcp://db.example:5432", "p", "c").unwrap();
    assert_eq!(tcp.probe_type, ProbeType::TCP);
    assert_eq!(tcp.port, 5432);

    assert!(endpoint_for_region("r5".to_string(), "n", "not a url", "p", "c").is_none());
}

#[test]
fn builder_falls_back_to_defaults() {
    let config = NetworkTesterBuilder::new().into_config();
    assert_eq!(config.max_threads, 10);
    let mut custom = cloud_ping::AppConfig::default();
    custom.max_threads = 3;
    let chosen = NetworkTesterBuilder::new().config(custom).into_config();
    assert_eq!(chosen.max_threads, 3);
}

#[test]
fn url_helpers_on_given_outcomes() {
    assert!(is_web_scheme("http"));
    assert!(is_web_scheme("https"));
    assert!(!is_web_scheme("ftp"));
    assert!(!is_web_scheme("HTTP"));
    assert_eq!(with_scheme_prefix("10.0.0.0/8", true), "http://10.0.0.0/8");
    assert_eq!(with_scheme_prefix("example.com", false), "https://example.com");
    assert_eq!(append_cache_buster("u", false, 7), "u?cache_buster=7");
    assert_eq!(append_cache_buster("u?x=1", true, 1700000000000), "u?x=1&cache_buster=1700000000000");
}

#[test]
fn endpoint_from_given_parts() {
    let parts = UrlParts {
        scheme: "https".to_string(),
        query: None,
        host: None,
        port: None,
    };
    let e = endpoint_from_parts("id".to_string(), "raw", parts, "n", "p", "c");
    assert_eq!(e.host, "raw");
    assert_eq!(e.port, 443);
    assert_eq!(e.probe_type, ProbeType::HTTP);
    assert_eq!(e.metadata.len(), 4);
    let parts = UrlParts {
        scheme: "tcp".to_string(),
        query: None,
        host: Some("h".to_string()),
        port: Some(9),
    };
    let e = endpoint_from_parts("id".to_string(), "raw", parts, "n", "p", "c");
    assert_eq!(e.host, "h");
    assert_eq!(e.port, 9);
    assert_eq!(e.probe_type, ProbeType::TCP);
    let parts = UrlParts {
        scheme: "ws".to_string(),
        query: None,
        host: Some("h".to_string()),
        port: None,
    };
    let e = endpoint_from_parts("id".to_string(), "raw", parts, "n", "p", "c");
    assert_eq!(e.port, 80);
}

#[test]
fn request_outcomes_and_retry_steps() {
    let ok = RequestTiming::from_status(Duration::from_millis(12), 204);
    assert!(ok.success);
    assert_eq!(ok.error_message, None);
    assert_eq!(ok.status_code, Some(204));
    let moved = RequestTiming::from_status(Duration::from_millis(12), 301);
    assert!(moved.success);
    let zero = RequestTiming::from_status(Duration::from_millis(12), 0);
    assert!(zero.success);
    let bad = RequestTiming::from_status(Duration::from_millis(12), 503);
    assert!(!bad.success);
    assert_eq!(bad.error_message.as_deref(), Some("HTTP 503"));
    let client_err = RequestTiming::from_status(Duration::from_millis(1), 400);
    assert!(!client_err.success);
    let timed_out = RequestTiming::from_timeout(5000);
    assert_eq!(timed_out.status_code, Some(408));
    assert_eq!(timed_out.total_time, Duration::from_millis(5000));
    assert_eq!(timed_out.error_message.as_deref(), Some("Timeout after 5000ms"));
    let failed = RequestTiming::from_error(Duration::from_millis(3), "refused".to_string());
    assert!(!failed.success);
    assert_eq!(failed.error_message.as_deref(), Some("refused"));
    let exhausted = RequestTiming::retries_exhausted();
    assert_eq!(exhausted.error_message.as_deref(), Some("All retry attempts failed"));
    assert_eq!(exhausted.total_time, Duration::ZERO);

    assert_eq!(retry_step(0, 2, true, 100), RetryStep::Done);
    assert_eq!(retry_step(0, 2, false, 100), RetryStep::RetryAfter(100));
    assert_eq!(retry_step(1, 2, false, 100), RetryStep::RetryAfter(100));
    assert_eq!(retry_step(2, 2, false, 100), RetryStep::GiveUp);
    assert_eq!(retry_step(0, 0, false, 100), RetryStep::GiveUp);
}
