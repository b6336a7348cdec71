use anthropic_ai_sdk::error::{AdminError, MessageBatchError, MessageError, ModelError};
use anthropic_ai_sdk::text::{decimal_string, push_decimal};

#[test]
fn admin_error_messages() {
    assert_eq!(AdminError::InvalidPagination.to_string(), "Invalid pagination parameters");
    assert_eq!(AdminError::InvalidLimit(0).to_string(), "Invalid limit value: 0");
    assert_eq!(AdminError::InvalidLimit(65535).to_string(), "Invalid limit value: 65535");
    assert_eq!(AdminError::RequestFailed("timeout".to_string()).to_string(), "API request failed: timeout");
    assert_eq!(AdminError::ApiError("not found".to_string()).to_string(), "API error: not found");
}

#[test]
fn model_error_messages() {
    assert_eq!(ModelError::InvalidPagination.to_string(), "Invalid pagination parameters");
    assert_eq!(ModelError::InvalidLimit(1001).to_string(), "Invalid limit value: 1001");
    assert_eq!(ModelError::RequestFailed("timeout".to_string()).to_string(), "API request failed: timeout");
    assert_eq!(ModelError::ApiError("".to_string()).to_string(), "API error: ");
}

#[test]
fn message_batch_error_messages() {
    assert_eq!(
        MessageBatchError::BatchTooLarge.to_string(),
        "Batch size exceeds maximum limit of 100,000 requests"
    );
    assert_eq!(MessageBatchError::BatchSizeExceeded.to_string(), "Batch total size exceeds 256MB");
    assert_eq!(MessageBatchError::RequestFailed("x".to_string()).to_string(), "API request failed: x");
    assert_eq!(MessageBatchError::ApiError("y".to_string()).to_string(), "API error: y");
}

#[test]
fn message_error_messages() {
    assert_eq!(
        MessageError::InvalidConfiguration("no stream".to_string()).to_string(),
        "Invalid configuration: no stream"
    );
    assert_eq!(MessageError::RequestFailed("x".to_string()).to_string(), "API request failed: x");
    assert_eq!(MessageError::ApiError("y".to_string()).to_string(), "API error: y");
    assert_eq!(
        MessageError::ParseFailed { payload: "{".to_string(), reason: "EOF".to_string() }.to_string(),
        "Failed to parse SSE event: EOF. Event data: {"
    );
}

#[test]
fn a_plain_message_becomes_an_api_error() {
    assert_eq!(AdminError::from("m".to_string()), AdminError::ApiError("m".to_string()));
    assert_eq!(ModelError::from("m".to_string()), ModelError::ApiError("m".to_string()));
    assert_eq!(MessageBatchError::from("m".to_string()), MessageBatchError::ApiError("m".to_string()));
    assert_eq!(MessageError::from("m".to_string()), MessageError::ApiError("m".to_string()));
}

#[test]
fn decimal_numerals() {
    assert_eq!(decimal_string(0), "0");
    assert_eq!(decimal_string(7), "7");
    assert_eq!(decimal_string(10), "10");
    assert_eq!(decimal_string(1000), "1000");
    assert_eq!(decimal_string(65535), "65535");
    assert_eq!(decimal_string(u64::MAX), "18446744073709551615");
    for n in [0u64, 1, 9, 10, 11, 99, 100, 101, 12345, 4294967295, 4294967296, u64::MAX - 1] {
        assert_eq!(decimal_string(n), n.to_string());
    }
    let mut out = String::from("n=");
    push_decimal(&mut out, 42);
    assert_eq!(out, "n=42");
}
