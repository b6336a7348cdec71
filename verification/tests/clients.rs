use anthropic_ai_sdk::clients::{
    body_read_failure, is_header_value, is_success, receive_response, response_from_parsed,
    shape_error, AnthropicClient, AnthropicClientBuilder, HttpMethod, HttpRequest, API_KEY_HEADER,
    API_VERSION_HEADER, CONTENT_TYPE_HEADER, DEFAULT_API_BASE_URL, DEFAULT_API_VERSION,
    JSON_CONTENT_TYPE,
};
use anthropic_ai_sdk::error::{AdminError, MessageError, ModelError};
use anthropic_ai_sdk::json::JsonValue;

fn client() -> AnthropicClient {
    AnthropicClient::new::<ModelError>("secret-key", DEFAULT_API_VERSION).expect("a client")
}

fn pair(name: &str, value: &str) -> (String, String) {
    (name.to_string(), value.to_string())
}

#[test]
fn defaults() {
    assert_eq!(DEFAULT_API_BASE_URL, "https://api.anthropic.com/v1");
    assert_eq!(DEFAULT_API_VERSION, "2023-06-01");
    assert_eq!(API_KEY_HEADER, "x-api-key");
    assert_eq!(API_VERSION_HEADER, "anthropic-version");
    assert_eq!(CONTENT_TYPE_HEADER, "content-type");
    assert_eq!(JSON_CONTENT_TYPE, "application/json");
}

#[test]
fn new_client_keeps_what_it_was_given() {
    let client = client();
    assert_eq!(client.get_api_key(), "secret-key");
    assert_eq!(client.get_api_version(), "2023-06-01");
    assert_eq!(client.get_api_base_url(), "https://api.anthropic.com/v1");
    let _: &reqwest::Client = client.get_client();
}

#[test]
fn builder_overrides() {
    let client = AnthropicClient::builder("k", "2023-01-01")
        .with_api_base_url("http://localhost:8080/v1")
        .with_api_version("2024-02-02")
        .build::<AdminError>()
        .expect("a client");
    assert_eq!(client.get_api_key(), "k");
    assert_eq!(client.get_api_version(), "2024-02-02");
    assert_eq!(client.get_api_base_url(), "http://localhost:8080/v1");
}

#[test]
fn version_that_is_no_header_value_is_refused() {
    let r = AnthropicClient::new::<ModelError>("k", "2023\n06");
    assert_eq!(r.err(), Some(ModelError::ApiError("failed to parse header value".to_string())));
    let r = AnthropicClientBuilder::new("k", "\u{7f}").build::<MessageError>();
    assert_eq!(r.err(), Some(MessageError::ApiError("failed to parse header value".to_string())));
}

#[test]
fn custom_http_client_is_taken_as_it_is() {
    let client = AnthropicClientBuilder::new("k", "not a\nheader")
        .with_client(reqwest::Client::new())
        .build::<ModelError>()
        .expect("a custom client is never refused");
    assert_eq!(client.get_api_version(), "not a\nheader");
}

#[test]
fn header_values() {
    assert!(is_header_value(""));
    assert!(is_header_value("2023-06-01"));
    assert!(is_header_value("tab\tand space"));
    assert!(is_header_value("caf\u{e9}"));
    assert!(!is_header_value("line\nbreak"));
    assert!(!is_header_value("carriage\rreturn"));
    assert!(!is_header_value("\u{0}"));
    assert!(!is_header_value("\u{1f}"));
    assert!(!is_header_value("del\u{7f}"));
    for text in ["", "2023-06-01", "tab\tand space", "caf\u{e9}", "line\nbreak", "\u{0}", "del\u{7f}", "\u{80}"] {
        assert_eq!(is_header_value(text), reqwest::header::HeaderValue::from_str(text).is_ok(), "{:?}", text);
    }
}

#[test]
fn success_is_200_to_299() {
    for (status, expected) in [(0u16, false), (100, false), (199, false), (200, true), (204, true), (299, true), (300, false), (404, false), (500, false), (u16::MAX, false)] {
        assert_eq!(is_success(status), expected, "{}", status);
    }
    for status in 100u16..1000 {
        assert_eq!(is_success(status), reqwest::StatusCode::from_u16(status).unwrap().is_success());
    }
}

#[test]
fn get_plan() {
    let request = client().plan_get::<ModelError>("/models", vec![pair("limit", "5")]).unwrap();
    assert_eq!(
        request,
        HttpRequest {
            method: HttpMethod::Get,
            url: "https://api.anthropic.com/v1/models".to_string(),
            headers: vec![pair("x-api-key", "secret-key")],
            query: vec![pair("limit", "5")],
            body: None,
        }
    );
}

#[test]
fn post_plan_carries_the_body_as_json() {
    let body = JsonValue::Object(vec![("a".to_string(), JsonValue::Integer(1))]);
    let request = client().plan_post::<ModelError>("/messages", Some(&body)).unwrap();
    assert_eq!(request.method, HttpMethod::Post);
    assert_eq!(request.url, "https://api.anthropic.com/v1/messages");
    assert_eq!(request.query, vec![]);
    assert_eq!(request.body.as_deref(), Some("{\"a\":1}"));
    assert_eq!(request.headers, vec![pair("x-api-key", "secret-key"), pair("content-type", "application/json")]);
    let request = client().plan_post::<ModelError>("/messages", None).unwrap();
    assert_eq!(request.body, None);
    assert_eq!(request.headers, vec![pair("x-api-key", "secret-key")]);
}

#[test]
fn delete_plan() {
    let request = client().plan_delete::<ModelError>("/messages/batches/b1", vec![]).unwrap();
    assert_eq!(request.method, HttpMethod::Delete);
    assert_eq!(request.url, "https://api.anthropic.com/v1/messages/batches/b1");
    assert_eq!(request.body, None);
}

#[test]
fn plan_request_refuses_a_key_that_is_no_header_value() {
    let client = AnthropicClient::new::<ModelError>("bad\nkey", DEFAULT_API_VERSION).unwrap();
    let r = client.plan_request::<ModelError>(HttpMethod::Get, "/models", vec![], None);
    assert_eq!(r, Err(ModelError::ApiError("failed to parse header value".to_string())));
}

#[test]
fn plan_request_refuses_a_body_that_has_no_json_text() {
    let body = JsonValue::Real("not a number".to_string());
    let r = client().plan_request::<AdminError>(HttpMethod::Post, "/x", vec![], Some(&body));
    assert_eq!(
        r,
        Err(AdminError::ApiError(
            "Failed to serialize body: the value holds a number that JSON cannot express".to_string()
        ))
    );
}

#[test]
fn answer_without_success_is_reported_with_its_body() {
    let r = receive_response::<ModelError>(404, "{\"type\":\"error\"}");
    assert_eq!(r, Err(ModelError::ApiError("{\"type\":\"error\"}".to_string())));
    let r = receive_response::<ModelError>(500, "not even json");
    assert_eq!(r, Err(ModelError::ApiError("not even json".to_string())));
}

#[test]
fn answer_with_success_is_read_as_json() {
    let r = receive_response::<ModelError>(200, "{\"a\":[true]}");
    assert_eq!(
        r,
        Ok(JsonValue::Object(vec![("a".to_string(), JsonValue::Array(vec![JsonValue::Bool(true)]))]))
    );
}

#[test]
fn body_that_is_no_json_is_reported_with_the_reason_and_the_body() {
    let r = receive_response::<ModelError>(200, "<html>");
    assert_eq!(
        r,
        Err(ModelError::ApiError(
            "JSON parsing error: expected value at line 1 column 1. Response body: <html>".to_string()
        ))
    );
}

#[test]
fn response_from_parsed_follows_the_reader() {
    let r = response_from_parsed::<AdminError>(200, "body", Err("reason".to_string()));
    assert_eq!(r, Err(AdminError::ApiError("JSON parsing error: reason. Response body: body".to_string())));
    let r = response_from_parsed::<AdminError>(201, "body", Ok(JsonValue::Null));
    assert_eq!(r, Ok(JsonValue::Null));
    let r = response_from_parsed::<AdminError>(301, "body", Ok(JsonValue::Null));
    assert_eq!(r, Err(AdminError::ApiError("body".to_string())));
}

#[test]
fn failure_messages() {
    assert_eq!(body_read_failure("connection reset"), "Failed to get response body: connection reset");
    assert_eq!(
        shape_error::<ModelError>("{}"),
        ModelError::ApiError(
            "JSON parsing error: the value is not of the expected shape. Response body: {}".to_string()
        )
    );
}

#[test]
fn from_parts_follows_the_making_of_the_http_client() {
    let r = AnthropicClient::from_parts::<ModelError>(
        "k".to_string(),
        "v".to_string(),
        "u".to_string(),
        Err("no backend".to_string()),
    );
    assert_eq!(r.err(), Some(ModelError::ApiError("no backend".to_string())));
    let client = AnthropicClient::from_parts::<ModelError>(
        "k".to_string(),
        "v".to_string(),
        "u".to_string(),
        Ok(reqwest::Client::new()),
    )
    .unwrap();
    assert_eq!((client.get_api_key(), client.get_api_version(), client.get_api_base_url()), ("k", "v", "u"));
    let copy = client.clone();
    assert_eq!(copy.get_api_key(), "k");
}
