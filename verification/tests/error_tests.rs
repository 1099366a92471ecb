use honeycomb_rs::Error;

#[test]
fn test_error_display() {
    let http_err = Error::Http("connection refused".to_string());
    assert!(http_err.to_string().contains("HTTP error"));
    assert!(http_err.to_string().contains("connection refused"));

    let ser_err = Error::Serialization("invalid JSON".to_string());
    assert!(ser_err.to_string().contains("Serialization error"));

    let config_err = Error::Config("missing API key".to_string());
    assert!(config_err.to_string().contains("Configuration error"));

    let buf_err = Error::Buffer("buffer full".to_string());
    assert!(buf_err.to_string().contains("Buffer error"));

    let chan_err = Error::Channel("receiver dropped".to_string());
    assert!(chan_err.to_string().contains("Channel error"));

    let timeout_err = Error::Timeout("request timed out".to_string());
    assert!(timeout_err.to_string().contains("Timeout error"));
}

#[test]
fn test_error_is_std_error() {
    let err = Error::Http("test".to_string());
    assert!(err.to_string().contains("HTTP error"));
}

#[test]
fn test_error_debug() {
    let err = Error::Config("test".to_string());
    let debug_str = format!("{err:?}");
    assert!(debug_str.contains("Config"));
    assert!(debug_str.contains("test"));
}

#[test]
fn test_from_serde_json_error() {
    let json_err: std::result::Result<serde_json::Value, _> = serde_json::from_str("invalid json");
    let err: Error = json_err.unwrap_err().into();
    assert!(matches!(err, Error::Serialization(_)));
}

#[test]
fn test_error_text_is_prefix_then_message() {
    assert_eq!(Error::Timeout("late".to_string()).to_string(), "Timeout error: late");
    assert_eq!(Error::Buffer("full".to_string()).message(), "full");
}

#[test]
fn test_from_serde_json_error_keeps_text() {
    let json_err = serde_json::from_str::<serde_json::Value>("invalid json").unwrap_err();
    let text = json_err.to_string();
    let err: Error = json_err.into();
    assert_eq!(err.message(), &text);
}
