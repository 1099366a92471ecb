use honeycomb_rs::client::{batch_json, user_agent, USER_AGENT};
use honeycomb_rs::retry::{
    DEFAULT_INITIAL_RETRY_DELAY_MILLIS, DEFAULT_MAX_RETRIES, DEFAULT_MAX_RETRY_DELAY_SECS,
    DEFAULT_TOTAL_TIMEOUT_SECS,
};
use honeycomb_rs::{Client, Config, Duration, Event, Options, Response, RetryConfig, TransmissionOptions};

fn pause_millis(ms: u64) {
    let start = std::time::Instant::now();
    while start.elapsed() < std::time::Duration::from_millis(ms) {}
}

// Response

#[test]
fn test_response_success() {
    let response = Response::success(200, Duration::from_millis(50));
    assert!(response.is_success());
    assert!(!response.is_retryable());
    assert_eq!(response.status_code, Some(200));
    assert!(response.error.is_none());
}

#[test]
fn test_response_error() {
    let response = Response::error("connection failed", Duration::from_millis(10));
    assert!(!response.is_success());
    assert!(response.is_retryable());
    assert!(response.status_code.is_none());
    assert_eq!(response.error, Some("connection failed".to_string()));
}

#[test]
fn test_response_is_success_various_codes() {
    assert!(Response::success(200, Duration::zero()).is_success());
    assert!(Response::success(201, Duration::zero()).is_success());
    assert!(Response::success(202, Duration::zero()).is_success());
    assert!(!Response::success(400, Duration::zero()).is_success());
    assert!(!Response::success(500, Duration::zero()).is_success());
}

#[test]
fn test_response_is_retryable() {
    assert!(Response::error("timeout", Duration::zero()).is_retryable());

    assert!(Response::success(429, Duration::zero()).is_retryable());

    assert!(Response::success(500, Duration::zero()).is_retryable());
    assert!(Response::success(502, Duration::zero()).is_retryable());
    assert!(Response::success(503, Duration::zero()).is_retryable());

    assert!(!Response::success(400, Duration::zero()).is_retryable());
    assert!(!Response::success(401, Duration::zero()).is_retryable());
    assert!(!Response::success(403, Duration::zero()).is_retryable());
    assert!(!Response::success(404, Duration::zero()).is_retryable());
}

#[test]
fn test_response_clone() {
    let response = Response::success(200, Duration::from_millis(100));
    let cloned = response.clone();
    assert_eq!(response.status_code, cloned.status_code);
    assert_eq!(response.duration, cloned.duration);
}

#[test]
fn test_response_debug() {
    let response = Response::success(200, Duration::zero());
    let debug_str = format!("{response:?}");
    assert!(debug_str.contains("Response"));
}

#[test]
fn test_response_boundaries() {
    assert!(!Response::success(199, Duration::zero()).is_success());
    assert!(Response::success(299, Duration::zero()).is_success());
    assert!(!Response::success(300, Duration::zero()).is_success());
    assert!(!Response::success(499, Duration::zero()).is_retryable());
    assert!(!Response::success(300, Duration::zero()).is_retryable());
}

// RetryConfig

#[test]
fn test_retry_config_default() {
    let config = RetryConfig::default();
    assert_eq!(config.initial_delay, Duration::from_millis(DEFAULT_INITIAL_RETRY_DELAY_MILLIS));
    assert_eq!(config.max_delay, Duration::from_secs(DEFAULT_MAX_RETRY_DELAY_SECS));
    assert_eq!(config.max_retries, DEFAULT_MAX_RETRIES);
    assert!((config.backoff_multiplier as f64 - 2.0).abs() < 0.001);
}

#[test]
fn test_retry_config_new() {
    let config = RetryConfig::new();
    assert_eq!(config.initial_delay, Duration::from_millis(DEFAULT_INITIAL_RETRY_DELAY_MILLIS));
}

#[test]
fn test_retry_config_builder() {
    let config = RetryConfig::new()
        .with_initial_delay(Duration::from_millis(200))
        .with_max_delay(Duration::from_secs(10))
        .with_max_retries(3);

    assert_eq!(config.initial_delay, Duration::from_millis(200));
    assert_eq!(config.max_delay, Duration::from_secs(10));
    assert_eq!(config.max_retries, 3);
}

#[test]
fn test_retry_config_delay_for_attempt() {
    let config = RetryConfig::new()
        .with_initial_delay(Duration::from_millis(100))
        .with_max_delay(Duration::from_secs(5));

    assert_eq!(config.delay_for_attempt(0), Duration::from_millis(100));
    assert_eq!(config.delay_for_attempt(1), Duration::from_millis(200));
    assert_eq!(config.delay_for_attempt(2), Duration::from_millis(400));
    assert_eq!(config.delay_for_attempt(3), Duration::from_millis(800));
    assert_eq!(config.delay_for_attempt(4), Duration::from_millis(1600));
}

#[test]
fn test_retry_config_delay_capped_at_max() {
    let config = RetryConfig::new()
        .with_initial_delay(Duration::from_millis(1000))
        .with_max_delay(Duration::from_secs(2))
        .with_max_retries(10);

    assert_eq!(config.delay_for_attempt(0), Duration::from_millis(1000));
    assert_eq!(config.delay_for_attempt(1), Duration::from_secs(2));
    assert_eq!(config.delay_for_attempt(2), Duration::from_secs(2));
}

#[test]
fn test_retry_config_should_retry() {
    let config = RetryConfig::new().with_max_retries(3);

    assert!(config.should_retry(0));
    assert!(config.should_retry(1));
    assert!(config.should_retry(2));
    assert!(!config.should_retry(3));
    assert!(!config.should_retry(4));
}

#[test]
fn test_retry_config_clone() {
    let config = RetryConfig::new().with_max_retries(10);
    let cloned = config.clone();
    assert_eq!(config.max_retries, cloned.max_retries);
}

#[test]
fn test_retry_config_debug() {
    let config = RetryConfig::new();
    let debug_str = format!("{config:?}");
    assert!(debug_str.contains("RetryConfig"));
}

#[test]
fn test_retry_delay_after_last_retry_is_max_delay() {
    let config = RetryConfig::new();
    assert_eq!(config.delay_for_attempt(5), Duration::from_secs(5));
    assert_eq!(config.delay_for_attempt(u32::MAX), Duration::from_secs(5));
}

#[test]
fn test_retry_delay_huge_attempt_saturates() {
    let config = RetryConfig::new()
        .with_max_retries(u32::MAX)
        .with_max_delay(Duration::from_secs(7));
    assert_eq!(config.delay_for_attempt(1_000_000), Duration::from_secs(7));
}

#[test]
fn test_retry_delay_truncates_to_whole_millis() {
    let config = RetryConfig::new().with_initial_delay(Duration::from_micros(1500));
    assert_eq!(config.delay_for_attempt(0), Duration::from_millis(1));
    assert_eq!(config.delay_for_attempt(1), Duration::from_millis(2));
}

#[test]
fn test_retry_delays_never_shrink() {
    let config = RetryConfig::new().with_max_retries(8).with_max_delay(Duration::from_secs(3));
    let mut previous = Duration::zero();
    for attempt in 0..12 {
        let d = config.delay_for_attempt(attempt);
        assert!(previous.le(&d));
        assert!(d.le(&config.max_delay));
        previous = d;
    }
}

// Client creation

#[test]
fn test_client_new() {
    let config = Config::new("test-key", "test-dataset");
    let client = Client::new(config).unwrap();

    assert_eq!(client.buffered_events(), 0);
    assert_eq!(client.config().options.api_key, "test-key");
    assert_eq!(client.config().options.dataset, "test-dataset");
}

#[test]
fn test_client_with_retry_config() {
    let config = Config::new("key", "dataset");
    let retry_config = RetryConfig::new().with_max_retries(10);

    let client = Client::with_retry_config(config, retry_config).unwrap();

    assert_eq!(client.retry_config().max_retries, 10);
}

#[test]
fn test_client_new_event() {
    let config =
        Config::new("key", "dataset").with_options(Options::new("key", "dataset").with_sample_rate(5));

    let client = Client::new(config).unwrap();
    let event = client.new_event();

    assert_eq!(event.sample_rate, 5);
}

// Sending

#[test]
fn test_client_send_buffers_event() {
    let config = Config::new("key", "dataset");
    let mut client = Client::new(config).unwrap();

    let event = Event::new();
    client.send(event).unwrap();

    assert_eq!(client.buffered_events(), 1);
}

#[test]
fn test_client_send_multiple_events() {
    let config = Config::new("key", "dataset");
    let mut client = Client::new(config).unwrap();

    for _ in 0..10 {
        client.send(Event::new()).unwrap();
    }

    assert_eq!(client.buffered_events(), 10);
}

#[test]
fn test_client_send_with_sampling() {
    let config = Config::new("key", "dataset")
        .with_options(Options::new("key", "dataset").with_sample_rate(100));

    let mut client = Client::new(config).unwrap();

    for i in 0..1000 {
        let mut event = client.new_event();
        event.add_field("index", i);
        client.send(event).unwrap();
    }

    let buffered = client.buffered_events();
    assert!(buffered < 100, "Expected ~10 events, got {buffered}");
}

// Flushing

#[test]
fn test_client_flush_empty() {
    let config = Config::new("key", "dataset");
    let mut client = Client::new(config).unwrap();

    client.flush().unwrap();
    assert_eq!(client.buffered_events(), 0);
}

#[test]
fn test_client_flush_clears_buffer() {
    let config = Config::new("key", "dataset");
    let mut client = Client::new(config).unwrap();

    client.send(Event::new()).unwrap();
    client.send(Event::new()).unwrap();
    assert_eq!(client.buffered_events(), 2);

    client.flush().unwrap();
    assert_eq!(client.buffered_events(), 0);
}

#[test]
fn test_client_flush_updates_stats() {
    let config = Config::new("key", "dataset");
    let mut client = Client::new(config).unwrap();

    client.send(Event::new()).unwrap();
    client.send(Event::new()).unwrap();
    client.flush().unwrap();

    let stats = client.stats().snapshot();
    assert_eq!(stats.events_added, 2);
    assert_eq!(stats.events_sent, 2);
    assert_eq!(stats.batches_sent, 1);
}

#[test]
fn test_client_should_flush_empty() {
    let config = Config::new("key", "dataset");
    let client = Client::new(config).unwrap();

    assert!(!client.should_flush());
}

#[test]
fn test_client_should_flush_timeout() {
    let config = Config::new("key", "dataset").with_transmission_options(
        TransmissionOptions::default().with_batch_timeout(Duration::from_millis(1)),
    );
    let mut client = Client::new(config).unwrap();

    client.send(Event::new()).unwrap();

    pause_millis(10);

    assert!(client.should_flush());
}

// Closing

#[test]
fn test_client_close() {
    let config = Config::new("key", "dataset");
    let mut client = Client::new(config).unwrap();

    client.send(Event::new()).unwrap();
    client.close().unwrap();
}

#[test]
fn test_close_with_retry_rejects_zero_attempts() {
    let config = Config::new("test-key", "test-dataset");
    let client = Client::new(config).unwrap();

    let result = client.close_with_retry(0);
    assert!(result.is_err(), "zero attempts should be rejected");
    assert!(result.unwrap_err().to_string().contains("max_attempts must be greater than 0"));
}

#[test]
fn test_close_with_retry_succeeds_in_mock_mode() {
    let config = Config::new("key", "dataset");
    let mut client = Client::new(config).unwrap();

    client.send(Event::new()).unwrap();
    let result = client.close_with_retry(3);
    assert!(result.is_ok());
}

// Accessors

#[test]
fn test_client_config_accessor() {
    let config = Config::new("test-key", "test-dataset");
    let client = Client::new(config).unwrap();

    assert_eq!(client.config().options.api_key, "test-key");
    assert_eq!(client.config().options.dataset, "test-dataset");
}

#[test]
fn test_client_retry_config_accessor() {
    let config = Config::new("key", "dataset");
    let retry_config = RetryConfig::new().with_max_retries(7);
    let client = Client::with_retry_config(config, retry_config).unwrap();

    assert_eq!(client.retry_config().max_retries, 7);
}

#[test]
fn test_client_stats_accessor() {
    let config = Config::new("key", "dataset");
    let mut client = Client::new(config).unwrap();

    assert_eq!(client.stats().snapshot().events_added, 0);

    client.send(Event::new()).unwrap();

    assert_eq!(client.stats().snapshot().events_added, 1);
}

#[test]
fn test_client_debug() {
    let config = Config::new("key", "dataset");
    let client = Client::new(config).unwrap();

    let debug_str = format!("{client:?}");
    assert!(debug_str.contains("Client"));
    assert!(debug_str.contains("config"));
    assert!(debug_str.contains("retry_config"));
}

// Integration

#[test]
fn test_client_batch_auto_flush() {
    let config = Config::new("key", "dataset")
        .with_transmission_options(TransmissionOptions::default().with_max_batch_size(3));
    let mut client = Client::new(config).unwrap();

    client.send(Event::new()).unwrap();
    assert_eq!(client.buffered_events(), 1);

    client.send(Event::new()).unwrap();
    assert_eq!(client.buffered_events(), 2);

    client.send(Event::new()).unwrap();
    assert_eq!(client.buffered_events(), 0);
}

#[test]
fn test_client_preserves_event_data() {
    let config = Config::new("key", "dataset");
    let mut client = Client::new(config).unwrap();

    let mut event = Event::new();
    event.add_field("test_key", "test_value");
    event.add_field("count", 42);

    client.send(event).unwrap();

    assert_eq!(client.buffered_events(), 1);
}

// Constants

#[test]
fn test_user_agent_constant() {
    assert!(USER_AGENT.starts_with("aletheiadb-honeycomb/"));
}

#[test]
fn test_default_constants() {
    assert_eq!(Duration::from_millis(DEFAULT_INITIAL_RETRY_DELAY_MILLIS), Duration::from_millis(100));
    assert_eq!(Duration::from_secs(DEFAULT_MAX_RETRY_DELAY_SECS), Duration::from_secs(5));
    assert_eq!(DEFAULT_MAX_RETRIES, 5);
    assert_eq!(Duration::from_secs(DEFAULT_TOTAL_TIMEOUT_SECS), Duration::from_secs(30));
}

#[test]
fn test_retry_config_total_timeout() {
    let config = RetryConfig::new().with_total_timeout(Duration::from_secs(60));

    assert_eq!(config.total_timeout, Duration::from_secs(60));
}

#[test]
fn test_retry_config_default_total_timeout() {
    let config = RetryConfig::default();

    assert_eq!(config.total_timeout, Duration::from_secs(DEFAULT_TOTAL_TIMEOUT_SECS));
}

// Flush and close edge cases

#[test]
fn test_flush_actually_flushes_buffer() {
    let config = Config::new("test-key", "test-dataset");
    let mut client = Client::new(config).unwrap();

    client.send(Event::new()).unwrap();
    client.send(Event::new()).unwrap();

    assert_eq!(client.buffered_events(), 2);

    let _ = client.flush();

    assert_eq!(client.buffered_events(), 0, "Flush should clear the buffer");
}

#[test]
fn test_close_actually_closes() {
    let config = Config::new("test-key", "test-dataset");
    let mut client = Client::new(config).unwrap();

    client.send(Event::new()).unwrap();
    assert_eq!(client.buffered_events(), 1);

    let has_events = client.buffered_events() > 0;
    assert!(has_events, "Should have events before close");

    let _ = client.close();
}

#[test]
fn test_with_retry_config_actually_sets_config() {
    let config = Config::new("test-key", "test-dataset");
    let retry_config = RetryConfig::new()
        .with_max_retries(10)
        .with_initial_delay(Duration::from_millis(500));

    let client = Client::with_retry_config(config, retry_config).unwrap();

    assert_eq!(client.retry_config().max_retries, 10, "Retry config should be set");
    assert_eq!(client.retry_config().initial_delay, Duration::from_millis(500));
}

#[test]
fn test_flush_respects_empty_check() {
    let config = Config::new("test-key", "test-dataset");
    let mut client = Client::new(config).unwrap();

    assert_eq!(client.buffered_events(), 0);
    let result = client.flush();
    assert!(result.is_ok(), "Flush empty buffer should succeed");

    assert_eq!(client.stats().snapshot().batches_sent, 0);
}

#[test]
fn test_flush_with_retry_rejects_zero_attempts() {
    let config = Config::new("test-key", "test-dataset");
    let mut client = Client::new(config).unwrap();

    let result = client.flush_with_retry(0);
    assert!(result.is_err(), "zero attempts should be rejected");
    assert!(result.unwrap_err().to_string().contains("max_attempts must be greater than 0"));
}

#[test]
fn test_flush_with_retry_succeeds_in_mock_mode() {
    let config = Config::new("key", "dataset");
    let mut client = Client::new(config).unwrap();

    client.send(Event::new()).unwrap();
    let result = client.flush_with_retry(3);
    assert!(result.is_ok());
    assert_eq!(client.buffered_events(), 0);
    assert_eq!(client.stats().snapshot().batches_sent, 1);
}

#[test]
fn test_batch_size_boundary_validation() {
    let transmission_options = TransmissionOptions::default().with_max_batch_bytes(100);

    let config =
        Config::new("test-key", "test-dataset").with_transmission_options(transmission_options);

    let mut client = Client::new(config).unwrap();

    let mut large_event = Event::new();
    for i in 0..20 {
        large_event.add_field(&format!("field_{i}"), format!("value_{i}_with_lots_of_data"));
    }

    client.send(large_event).unwrap();

    let result = client.flush();

    assert!(result.is_err(), "Should fail when batch exceeds max_batch_bytes");

    if let Err(e) = result {
        let err_str = e.to_string();
        assert!(err_str.contains("exceeds maximum"), "Error should mention size limit");
    }
}

#[test]
fn test_close_with_negation_logic() {
    let config = Config::new("test-key", "test-dataset");
    let mut client = Client::new(config).unwrap();

    client.send(Event::new()).unwrap();
    client.send(Event::new()).unwrap();

    let initial_count = client.buffered_events();
    assert_eq!(initial_count, 2);

    let _ = client.close();
}

// Batch body and size limit

#[test]
fn test_batch_json_is_array_of_event_texts() {
    let mut e1 = Event::with_timestamp(std::time::UNIX_EPOCH);
    e1.add_field("index", 1);
    let mut e2 = Event::with_timestamp(std::time::UNIX_EPOCH);
    e2.add_field("index", 2);
    let body = batch_json(&[e1.clone(), e2.clone()]);
    assert_eq!(body, format!("[{},{}]", e1.to_json().unwrap(), e2.to_json().unwrap()));
    let parsed: Vec<serde_json::Value> = serde_json::from_str(&body).unwrap();
    assert_eq!(parsed.len(), 2);
    assert_eq!(batch_json(&[]), "[]");
}

#[test]
fn test_oversized_batch_error_and_stats() {
    let mut event = Event::with_timestamp(std::time::UNIX_EPOCH);
    event.add_field("k", "v");
    let body_len = batch_json(&[event.clone()]).len();
    let config = Config::new("key", "dataset")
        .with_transmission_options(TransmissionOptions::default().with_max_batch_bytes(body_len - 1));
    let mut client = Client::new(config).unwrap();
    client.send(event).unwrap();
    let err = client.flush().unwrap_err();
    assert_eq!(
        err.to_string(),
        format!("Buffer error: Batch size ({} bytes) exceeds maximum ({} bytes)", body_len, body_len - 1)
    );
    let stats = client.stats().snapshot();
    assert_eq!(stats.batches_failed, 1);
    assert_eq!(stats.events_sent, 0);
    assert_eq!(client.buffered_events(), 0);
}

#[test]
fn test_batch_exactly_at_limit_is_sent() {
    let mut event = Event::with_timestamp(std::time::UNIX_EPOCH);
    event.add_field("k", "v");
    let body_len = batch_json(&[event.clone()]).len();
    let config = Config::new("key", "dataset")
        .with_transmission_options(TransmissionOptions::default().with_max_batch_bytes(body_len));
    let mut client = Client::new(config).unwrap();
    client.send(event).unwrap();
    client.flush().unwrap();
    assert_eq!(client.stats().snapshot().batches_sent, 1);
}

#[test]
fn test_flush_with_retry_counts_each_failed_attempt() {
    let config = Config::new("key", "dataset")
        .with_transmission_options(TransmissionOptions::default().with_max_batch_bytes(10));
    let mut client = Client::new(config).unwrap();
    client.send(Event::new()).unwrap();
    let err = client.flush_with_retry(3).unwrap_err();
    assert!(err.to_string().contains("exceeds maximum"));
    assert_eq!(client.stats().snapshot().batches_failed, 3);
    assert_eq!(client.buffered_events(), 0);
}

#[test]
fn test_send_at_capacity_drops_event() {
    let config = Config::new("key", "dataset").with_transmission_options(
        TransmissionOptions::default().with_pending_work_capacity(1),
    );
    let mut client = Client::new(config).unwrap();
    client.send(Event::new()).unwrap();
    let err = client.send(Event::new()).unwrap_err();
    assert_eq!(err.to_string(), "Buffer error: Buffer at capacity, event dropped");
    assert_eq!(client.stats().snapshot().events_dropped, 1);
    assert_eq!(client.buffered_events(), 1);
}

#[test]
fn test_user_agent_with_addition() {
    let plain = TransmissionOptions::default();
    assert_eq!(user_agent(&plain), USER_AGENT);
    let with = TransmissionOptions::default().with_user_agent_addition("my-app/1.0");
    assert_eq!(user_agent(&with), format!("{USER_AGENT} my-app/1.0"));
}

#[test]
fn test_duration_units() {
    let d = Duration::new(2, 500_000_000);
    assert_eq!(d.as_nanos(), 2_500_000_000);
    assert_eq!(d.as_millis(), 2_500);
    assert_eq!(d.as_secs(), 2);
    assert_eq!(d.subsec_millis(), 500);
    assert_eq!(Duration::from_secs(3).saturating_sub(Duration::from_secs(5)), Duration::zero());
}
