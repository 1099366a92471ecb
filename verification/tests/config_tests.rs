use honeycomb_rs::config::{
    DEFAULT_API_HOST, DEFAULT_BATCH_TIMEOUT_MILLIS, DEFAULT_MAX_BATCH_BYTES,
    DEFAULT_MAX_BATCH_SIZE, DEFAULT_MAX_CONCURRENT_BATCHES, DEFAULT_PENDING_WORK_CAPACITY,
};
use honeycomb_rs::client_types::Options as ClientOpts;
use honeycomb_rs::transmission::Options as TransmissionOpts;
use honeycomb_rs::{Config, Duration, Options, TransmissionOptions};

// Options

#[test]
fn test_options_default() {
    let opts = Options::default();
    assert!(opts.api_key.is_empty());
    assert_eq!(opts.api_host, DEFAULT_API_HOST);
    assert!(opts.dataset.is_empty());
    assert_eq!(opts.sample_rate, 1);
}

#[test]
fn test_options_new() {
    let opts = Options::new("my-api-key", "my-dataset");
    assert_eq!(opts.api_key, "my-api-key");
    assert_eq!(opts.dataset, "my-dataset");
    assert_eq!(opts.api_host, DEFAULT_API_HOST);
    assert_eq!(opts.sample_rate, 1);
}

#[test]
fn test_options_builder_pattern() {
    let opts = Options::default()
        .with_api_key("key123")
        .with_api_host("https://custom.honeycomb.io")
        .with_dataset("test-dataset")
        .with_sample_rate(10);

    assert_eq!(opts.api_key, "key123");
    assert_eq!(opts.api_host, "https://custom.honeycomb.io");
    assert_eq!(opts.dataset, "test-dataset");
    assert_eq!(opts.sample_rate, 10);
}

#[test]
fn test_options_validate_success() {
    let opts = Options::new("api-key", "dataset");
    assert!(opts.validate().is_ok());
}

#[test]
fn test_options_validate_missing_api_key() {
    let opts = Options::default().with_dataset("dataset");
    let err = opts.validate().unwrap_err();
    assert!(err.to_string().contains("API key is required"));
}

#[test]
fn test_options_validate_missing_dataset() {
    let opts = Options::default().with_api_key("key");
    let err = opts.validate().unwrap_err();
    assert!(err.to_string().contains("Dataset is required"));
}

#[test]
fn test_options_validate_zero_sample_rate() {
    let opts = Options::new("key", "dataset").with_sample_rate(0);
    let err = opts.validate().unwrap_err();
    assert!(err.to_string().contains("Sample rate must be greater than 0"));
}

#[test]
fn test_options_validate_excessive_sample_rate() {
    let opts = Options::new("key", "dataset").with_sample_rate(1_000_001);
    let err = opts.validate().unwrap_err();
    assert!(err.to_string().contains("must not exceed"));

    let opts_at_limit = Options::new("key", "dataset").with_sample_rate(1_000_000);
    assert!(opts_at_limit.validate().is_ok());
}

#[test]
fn test_options_batch_endpoint() {
    let opts = Options::new("key", "my-dataset");
    assert_eq!(opts.batch_endpoint(), "https://api.honeycomb.io/1/batch/my-dataset");

    let opts_custom = opts.with_api_host("https://custom.api/");
    assert_eq!(opts_custom.batch_endpoint(), "https://custom.api/1/batch/my-dataset");
}

#[test]
fn test_options_clone() {
    let opts1 = Options::new("key", "dataset");
    let opts2 = opts1.clone();
    assert_eq!(opts1.api_key, opts2.api_key);
    assert_eq!(opts1.dataset, opts2.dataset);
}

#[test]
fn test_options_debug() {
    let opts = Options::new("key", "dataset");
    let debug_str = format!("{opts:?}");
    assert!(debug_str.contains("Options"));
    assert!(debug_str.contains("dataset"));
}

// TransmissionOptions

#[test]
fn test_transmission_options_default() {
    let opts = TransmissionOptions::default();
    assert_eq!(opts.max_batch_size, DEFAULT_MAX_BATCH_SIZE);
    assert_eq!(opts.max_concurrent_batches, DEFAULT_MAX_CONCURRENT_BATCHES);
    assert_eq!(opts.batch_timeout, Duration::from_millis(DEFAULT_BATCH_TIMEOUT_MILLIS));
    assert_eq!(opts.pending_work_capacity, DEFAULT_PENDING_WORK_CAPACITY);
    assert!(opts.user_agent_addition.is_none());
}

#[test]
fn test_transmission_options_new() {
    let opts = TransmissionOptions::new();
    assert_eq!(opts.max_batch_size, DEFAULT_MAX_BATCH_SIZE);
}

#[test]
fn test_transmission_options_builder_pattern() {
    let opts = TransmissionOptions::new()
        .with_max_batch_size(100)
        .with_max_concurrent_batches(20)
        .with_batch_timeout(Duration::from_millis(200))
        .with_pending_work_capacity(50_000)
        .with_user_agent_addition("my-app/1.0");

    assert_eq!(opts.max_batch_size, 100);
    assert_eq!(opts.max_concurrent_batches, 20);
    assert_eq!(opts.batch_timeout, Duration::from_millis(200));
    assert_eq!(opts.pending_work_capacity, 50_000);
    assert_eq!(opts.user_agent_addition, Some("my-app/1.0".to_string()));
}

#[test]
fn test_transmission_options_validate_success() {
    let opts = TransmissionOptions::default();
    assert!(opts.validate().is_ok());
}

#[test]
fn test_transmission_options_validate_zero_batch_size() {
    let opts = TransmissionOptions::default().with_max_batch_size(0);
    let err = opts.validate().unwrap_err();
    assert!(err.to_string().contains("Max batch size must be greater than 0"));
}

#[test]
fn test_transmission_options_validate_zero_concurrent_batches() {
    let opts = TransmissionOptions::default().with_max_concurrent_batches(0);
    let err = opts.validate().unwrap_err();
    assert!(err.to_string().contains("Max concurrent batches must be greater than 0"));
}

#[test]
fn test_transmission_options_validate_zero_capacity() {
    let opts = TransmissionOptions::default().with_pending_work_capacity(0);
    let err = opts.validate().unwrap_err();
    assert!(err.to_string().contains("Pending work capacity must be greater than 0"));
}

#[test]
fn test_transmission_options_validate_zero_batch_bytes() {
    let opts = TransmissionOptions::default().with_max_batch_bytes(0);
    let err = opts.validate().unwrap_err();
    assert!(err.to_string().contains("Max batch bytes must be greater than 0"));
}

#[test]
fn test_transmission_options_max_batch_bytes() {
    let opts = TransmissionOptions::default().with_max_batch_bytes(5 * 1024 * 1024);
    assert_eq!(opts.max_batch_bytes, 5 * 1024 * 1024);
}

#[test]
fn test_transmission_options_default_max_batch_bytes() {
    let opts = TransmissionOptions::default();
    assert_eq!(opts.max_batch_bytes, DEFAULT_MAX_BATCH_BYTES);
}

#[test]
fn test_transmission_options_clone() {
    let opts1 = TransmissionOptions::new().with_max_batch_size(100);
    let opts2 = opts1.clone();
    assert_eq!(opts1.max_batch_size, opts2.max_batch_size);
}

#[test]
fn test_transmission_options_debug() {
    let opts = TransmissionOptions::new();
    let debug_str = format!("{opts:?}");
    assert!(debug_str.contains("TransmissionOptions"));
    assert!(debug_str.contains("max_batch_size"));
}

// Config

#[test]
fn test_config_default() {
    let config = Config::default();
    assert!(config.options.api_key.is_empty());
    assert!(config.options.dataset.is_empty());
    assert_eq!(config.transmission_options.max_batch_size, DEFAULT_MAX_BATCH_SIZE);
}

#[test]
fn test_config_new() {
    let config = Config::new("api-key", "dataset");
    assert_eq!(config.options.api_key, "api-key");
    assert_eq!(config.options.dataset, "dataset");
}

#[test]
fn test_config_builder_pattern() {
    let config = Config::default()
        .with_api_key("key")
        .with_dataset("data")
        .with_api_host("https://custom.api");

    assert_eq!(config.options.api_key, "key");
    assert_eq!(config.options.dataset, "data");
    assert_eq!(config.options.api_host, "https://custom.api");
}

#[test]
fn test_config_with_custom_options() {
    let options = Options::new("custom-key", "custom-dataset").with_sample_rate(5);

    let config = Config::default().with_options(options);

    assert_eq!(config.options.api_key, "custom-key");
    assert_eq!(config.options.dataset, "custom-dataset");
    assert_eq!(config.options.sample_rate, 5);
}

#[test]
fn test_config_with_transmission_options() {
    let tx_opts = TransmissionOptions::new().with_max_batch_size(200);

    let config = Config::new("key", "dataset").with_transmission_options(tx_opts);

    assert_eq!(config.transmission_options.max_batch_size, 200);
}

#[test]
fn test_config_validate_success() {
    let config = Config::new("key", "dataset");
    assert!(config.validate().is_ok());
}

#[test]
fn test_config_validate_invalid_options() {
    let config = Config::default().with_dataset("dataset");
    let err = config.validate().unwrap_err();
    assert!(err.to_string().contains("API key is required"));
}

#[test]
fn test_config_validate_invalid_transmission_options() {
    let tx_opts = TransmissionOptions::new().with_max_batch_size(0);
    let config = Config::new("key", "dataset").with_transmission_options(tx_opts);
    let err = config.validate().unwrap_err();
    assert!(err.to_string().contains("Max batch size"));
}

#[test]
fn test_config_clone() {
    let config1 = Config::new("key", "dataset");
    let config2 = config1.clone();
    assert_eq!(config1.options.api_key, config2.options.api_key);
}

#[test]
fn test_config_debug() {
    let config = Config::new("key", "dataset");
    let debug_str = format!("{config:?}");
    assert!(debug_str.contains("Config"));
    assert!(debug_str.contains("options"));
    assert!(debug_str.contains("transmission_options"));
}

#[test]
fn test_libhoney_api_compatibility() {
    let config = Config {
        options: Options {
            api_key: "my-key".to_string(),
            dataset: "my-dataset".to_string(),
            ..Default::default()
        },
        transmission_options: TransmissionOptions::default(),
    };

    assert_eq!(config.options.api_key, "my-key");
    assert_eq!(config.options.dataset, "my-dataset");
    assert_eq!(config.options.api_host, DEFAULT_API_HOST);
    assert_eq!(config.options.sample_rate, 1);
}

#[test]
fn test_transmission_module_alias() {
    let opts: TransmissionOpts = TransmissionOpts::default();
    assert_eq!(opts.max_batch_size, DEFAULT_MAX_BATCH_SIZE);
}

#[test]
fn test_client_module_alias() {
    let opts: ClientOpts = ClientOpts::new("key", "dataset");
    assert_eq!(opts.api_key, "key");
}

#[test]
fn test_max_batch_bytes_calculation() {
    assert_eq!(DEFAULT_MAX_BATCH_BYTES, 10_485_760, "Max batch bytes should be exactly 10 MB");
    assert_eq!(DEFAULT_MAX_BATCH_BYTES, 10 * 1024 * 1024);
}

// Edge cases of the batch endpoint and validation order.

#[test]
fn test_batch_endpoint_percent_encodes_dataset() {
    let opts = Options::new("key", "my data/set");
    assert_eq!(opts.batch_endpoint(), "https://api.honeycomb.io/1/batch/my%20data%2Fset");
}

#[test]
fn test_batch_endpoint_trims_all_trailing_slashes() {
    let opts = Options::new("key", "ds").with_api_host("http://localhost:8080///");
    assert_eq!(opts.batch_endpoint(), "http://localhost:8080/1/batch/ds");
}

#[test]
fn test_options_validate_reports_first_failure() {
    let opts = Options::default().with_sample_rate(0);
    let err = opts.validate().unwrap_err();
    assert!(err.to_string().contains("API key is required"));
}
