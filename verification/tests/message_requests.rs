use anthropic_ai_sdk::clients::{AnthropicClient, HttpMethod, HttpRequest, DEFAULT_API_VERSION};
use anthropic_ai_sdk::error::MessageError;
use anthropic_ai_sdk::json::{FromJson, JsonValue, ToJson};
use anthropic_ai_sdk::messages::{
    count_tokens_response, create_message_response, error_body_failure, streaming_response,
    transport_failure,
};
use anthropic_ai_sdk::types::message::{
    CountMessageTokensParams, CountMessageTokensResponse, CreateMessageParams, Message,
    RequiredMessageParams, Role,
};
use anthropic_ai_sdk::types::message_batches::{MessageContent, MessageResponse, TokenUsage};

fn client() -> AnthropicClient {
    AnthropicClient::new::<MessageError>("key", DEFAULT_API_VERSION).unwrap()
}

fn pair(name: &str, value: &str) -> (String, String) {
    (name.to_string(), value.to_string())
}

fn params() -> CreateMessageParams {
    CreateMessageParams::new(RequiredMessageParams {
        model: "sonnet-latest".to_string(),
        messages: vec![Message::new_text(Role::User, "Hello")],
        max_tokens: 2048,
    })
}

#[test]
fn create_message_params_builders() {
    let p = params();
    assert_eq!(p.model, "sonnet-latest");
    assert_eq!(p.messages, vec![Message { role: Role::User, content: "Hello".to_string() }]);
    assert_eq!(p.max_tokens, 2048);
    assert_eq!(p.system, None);
    assert_eq!(p.stream, None);
    assert!(!p.is_streaming());
    let p = p.with_system("Be brief.").with_stream(true);
    assert_eq!(p.system.as_deref(), Some("Be brief."));
    assert_eq!(p.stream, Some(true));
    assert!(p.is_streaming());
    assert!(!params().with_stream(false).is_streaming());
}

#[test]
fn role_wire_names() {
    assert_eq!(Role::User.as_str(), "user");
    assert_eq!(Role::Assistant.as_str(), "assistant");
    assert_eq!(Role::from_wire_name("user"), Some(Role::User));
    assert_eq!(Role::from_wire_name("assistant"), Some(Role::Assistant));
    assert_eq!(Role::from_wire_name("system"), None);
}

#[test]
fn create_message_body() {
    assert_eq!(
        params().to_json().to_text().unwrap(),
        "{\"max_tokens\":2048,\"messages\":[{\"content\":\"Hello\",\"role\":\"user\"}],\"model\":\"sonnet-latest\"}"
    );
    assert_eq!(
        params().with_stream(true).with_system("s").to_json().to_text().unwrap(),
        "{\"max_tokens\":2048,\"messages\":[{\"content\":\"Hello\",\"role\":\"user\"}],\"model\":\"sonnet-latest\",\"stream\":true,\"system\":\"s\"}"
    );
}

#[test]
fn create_message_params_come_back_from_their_json() {
    for p in [
        params(),
        params().with_system("Be brief."),
        params().with_stream(false),
        params().with_stream(true).with_system(""),
    ] {
        let echoed = JsonValue::parse(&p.to_json().to_text().unwrap()).unwrap();
        assert_eq!(CreateMessageParams::from_json(&echoed), Some(p));
    }
    assert_eq!(
        CreateMessageParams::from_json(&JsonValue::parse("{\"model\":\"m\",\"messages\":[{\"role\":\"robot\",\"content\":\"x\"}],\"max_tokens\":1}").unwrap()),
        None
    );
    assert_eq!(
        CreateMessageParams::from_json(&JsonValue::parse("{\"model\":\"m\",\"messages\":[],\"max_tokens\":1,\"stream\":\"yes\"}").unwrap()),
        None
    );
}

#[test]
fn streaming_request_without_the_stream_flag_is_refused() {
    for p in [params(), params().with_stream(false)] {
        assert_eq!(
            client().create_message_streaming_request(&p),
            Err(MessageError::InvalidConfiguration(
                "Stream parameter must be set to true for streaming".to_string()
            ))
        );
    }
}

#[test]
fn streaming_request_plan() {
    let p = params().with_stream(true);
    assert_eq!(
        client().create_message_streaming_request(&p),
        Ok(HttpRequest {
            method: HttpMethod::Post,
            url: "https://api.anthropic.com/v1/messages".to_string(),
            headers: vec![
                pair("x-api-key", "key"),
                pair("anthropic-version", "2023-06-01"),
                pair("content-type", "application/json"),
            ],
            query: vec![],
            body: Some(
                "{\"max_tokens\":2048,\"messages\":[{\"content\":\"Hello\",\"role\":\"user\"}],\"model\":\"sonnet-latest\",\"stream\":true}"
                    .to_string()
            ),
        })
    );
}

#[test]
fn streaming_request_with_a_key_that_is_no_header_value() {
    let client = AnthropicClient::new::<MessageError>("bad\nkey", DEFAULT_API_VERSION).unwrap();
    assert_eq!(
        client.create_message_streaming_request(&params().with_stream(true)),
        Err(MessageError::InvalidConfiguration("failed to parse header value".to_string()))
    );
    let client = AnthropicClient::builder("key", "bad\nversion")
        .with_client(reqwest::Client::new())
        .build::<MessageError>()
        .unwrap();
    assert_eq!(
        client.create_message_streaming_request(&params().with_stream(true)),
        Err(MessageError::InvalidConfiguration("failed to parse header value".to_string()))
    );
    // The stream flag is looked at first.
    assert_eq!(
        client.create_message_streaming_request(&params()),
        Err(MessageError::InvalidConfiguration(
            "Stream parameter must be set to true for streaming".to_string()
        ))
    );
}

#[test]
fn streaming_uses_the_configured_base_url() {
    let client = AnthropicClient::builder("key", DEFAULT_API_VERSION)
        .with_api_base_url("http://localhost:1234")
        .build::<MessageError>()
        .unwrap();
    let request = client.create_message_streaming_request(&params().with_stream(true)).unwrap();
    assert_eq!(request.url, "http://localhost:1234/messages");
}

#[test]
fn create_message_request_plan() {
    let p = params();
    let request = client().create_message_request(Some(&p)).unwrap();
    assert_eq!(request.method, HttpMethod::Post);
    assert_eq!(request.url, "https://api.anthropic.com/v1/messages");
    assert_eq!(request.headers, vec![pair("x-api-key", "key"), pair("content-type", "application/json")]);
    assert_eq!(request.body, p.to_json().to_text());
    let request = client().create_message_request(None).unwrap();
    assert_eq!(request.body, None);
    assert_eq!(request.headers, vec![pair("x-api-key", "key")]);
}

#[test]
fn count_tokens_request_plan() {
    let p = CountMessageTokensParams {
        model: "m".to_string(),
        messages: vec![Message::new_text(Role::Assistant, "x")],
    };
    let request = client().count_tokens_request(Some(&p)).unwrap();
    assert_eq!(request.url, "https://api.anthropic.com/v1/messages/count_tokens");
    assert_eq!(
        request.body.as_deref(),
        Some("{\"messages\":[{\"content\":\"x\",\"role\":\"assistant\"}],\"model\":\"m\"}")
    );
    assert_eq!(client().count_tokens_request(None).unwrap().body, None);
}

#[test]
fn count_tokens_params_come_back_from_their_json() {
    for p in [
        CountMessageTokensParams { model: "m".to_string(), messages: vec![] },
        CountMessageTokensParams {
            model: "".to_string(),
            messages: vec![Message::new_text(Role::User, "a"), Message::new_text(Role::Assistant, "b")],
        },
    ] {
        let echoed = JsonValue::parse(&p.to_json().to_text().unwrap()).unwrap();
        assert_eq!(CountMessageTokensParams::from_json(&echoed), Some(p));
    }
    assert_eq!(CountMessageTokensParams::from_json(&JsonValue::parse("{\"model\":\"m\"}").unwrap()), None);
    assert_eq!(
        CountMessageTokensParams::from_json(&JsonValue::parse("{\"model\":1,\"messages\":[]}").unwrap()),
        None
    );
}

#[test]
fn message_responses() {
    assert_eq!(
        count_tokens_response(200, "{\"input_tokens\":2095}"),
        Ok(CountMessageTokensResponse { input_tokens: 2095 })
    );
    assert!(count_tokens_response(200, "{\"input_tokens\":-1}").is_err());
    assert_eq!(
        count_tokens_response(400, "bad request"),
        Err(MessageError::ApiError("bad request".to_string()))
    );
    let body = "{\"id\":\"msg_1\",\"type\":\"message\",\"role\":\"assistant\",\"model\":\"m\",\"content\":[{\"type\":\"text\",\"text\":\"Hi\"}],\"stop_reason\":\"end_turn\",\"stop_sequence\":null,\"usage\":{\"input_tokens\":1,\"output_tokens\":2}}";
    assert_eq!(
        create_message_response(200, body),
        Ok(MessageResponse {
            id: "msg_1".to_string(),
            type_: "message".to_string(),
            role: "assistant".to_string(),
            model: "m".to_string(),
            content: vec![MessageContent { type_: "text".to_string(), text: "Hi".to_string() }],
            stop_reason: "end_turn".to_string(),
            stop_sequence: None,
            usage: TokenUsage { input_tokens: 1, output_tokens: 2 },
        })
    );
}

#[test]
fn opening_of_a_streamed_answer() {
    assert_eq!(streaming_response(200, ""), Ok(()));
    assert_eq!(streaming_response(299, "ignored"), Ok(()));
    assert_eq!(
        streaming_response(529, "{\"type\":\"error\"}"),
        Err(MessageError::ApiError("{\"type\":\"error\"}".to_string()))
    );
}

#[test]
fn transport_failures() {
    assert_eq!(transport_failure("connection refused"), MessageError::RequestFailed("connection refused".to_string()));
    assert_eq!(
        error_body_failure("reset"),
        MessageError::RequestFailed("Failed to read error response: reset".to_string())
    );
}
