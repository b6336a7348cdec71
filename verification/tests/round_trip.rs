use anthropic_ai_sdk::clients::{answer_from_parsed, read_answer};
use anthropic_ai_sdk::error::{AdminError, MessageBatchError, MessageError};
use anthropic_ai_sdk::json::{FromJson, JsonValue, ToJson};
use anthropic_ai_sdk::types::admin::api_keys::{AdminUpdateApiKeyParams, ApiKeyStatus};
use anthropic_ai_sdk::types::message::{
    CountMessageTokensParams, CreateMessageParams, Message, RequiredMessageParams, Role,
};
use anthropic_ai_sdk::types::message_batches::{
    CancelMessageBatchParams, CreateMessageBatchParams, MessageRequest, MessageRequestParams,
};
use std::fmt::Debug;

fn turn(role: &str, content: &str) -> anthropic_ai_sdk::types::message_batches::Message {
    anthropic_ai_sdk::types::message_batches::Message::new(role, content)
}

fn message_params() -> Vec<CreateMessageParams> {
    let plain = || {
        CreateMessageParams::new(RequiredMessageParams {
            model: "sonnet-latest".to_string(),
            messages: vec![Message::new_text(Role::User, "Hi"), Message::new_text(Role::Assistant, "\"Hello\"\n")],
            max_tokens: u32::MAX,
        })
    };
    vec![plain(), plain().with_system("Be brief."), plain().with_stream(true), plain().with_stream(false).with_system("")]
}

fn batch_params() -> Vec<CreateMessageBatchParams> {
    let request = |id: Option<&str>, system: Option<&str>| {
        let mut params = MessageRequestParams::new("m", vec![turn("user", "a"), turn("assistant", "b")], 7);
        if let Some(system) = system {
            params = params.with_system(system);
        }
        match id {
            Some(id) => MessageRequest::new(params).with_custom_id(id),
            None => MessageRequest::new(params),
        }
    };
    vec![
        CreateMessageBatchParams::new(vec![]).unwrap(),
        CreateMessageBatchParams::new(vec![request(None, None), request(Some("x"), Some("s")), request(Some(""), None)])
            .unwrap(),
    ]
}

/// The text of a request, and the request as the answer to that text as an
/// echo reads.
fn through_the_wire<T: ToJson + FromJson + Debug + PartialEq>(request: &T) -> (String, Result<T, MessageError>) {
    let text = request.to_json().to_text().expect("a request can be written");
    let answer = read_answer::<T, MessageError>(200, &text);
    (text, answer)
}

fn assert_echo<T: ToJson + FromJson + Debug + PartialEq>(request: T) {
    let written = request.to_json();
    let (text, answer) = through_the_wire(&request);
    // The reader hands out the very value that was written.
    assert_eq!(JsonValue::parse(&text), Ok(request.to_json()));
    // So the echo is the request, through the text and from the value alike.
    assert_eq!(answer.as_ref(), Ok(&request));
    assert_eq!(answer_from_parsed::<T, MessageError>(200, "", Ok(written)), Ok(request));
}

#[test]
fn echo_of_message_params_is_the_request() {
    for p in message_params() {
        assert_echo(p);
    }
    assert_echo(Message::new_text(Role::Assistant, "caf\u{e9}"));
    assert_echo(CountMessageTokensParams { model: "m".to_string(), messages: vec![Message::new_text(Role::User, "x")] });
}

#[test]
fn echo_of_batch_params_is_the_request() {
    for p in batch_params() {
        assert_echo(p);
    }
    assert_echo(turn("user", "a\tb"));
    assert_echo(MessageRequestParams::new("m", vec![], 0).with_system("s"));
    assert_echo(MessageRequest::new(MessageRequestParams::new("m", vec![turn("user", "a")], 1)).with_custom_id("id"));
    assert_echo(CancelMessageBatchParams::new("msgbatch_1"));
}

#[test]
fn echo_of_update_params_is_the_request() {
    assert_echo(AdminUpdateApiKeyParams::new());
    assert_echo(AdminUpdateApiKeyParams::new().name("n"));
    assert_echo(AdminUpdateApiKeyParams::new().status(ApiKeyStatus::Inactive));
    assert_echo(AdminUpdateApiKeyParams::new().name("n").status(ApiKeyStatus::Archived));
}

#[test]
fn echo_without_success_is_an_error_with_the_body() {
    let text = AdminUpdateApiKeyParams::new().name("n").to_json().to_text().unwrap();
    assert_eq!(
        read_answer::<AdminUpdateApiKeyParams, AdminError>(500, &text),
        Err(AdminError::ApiError(text.clone()))
    );
    assert_eq!(
        answer_from_parsed::<AdminUpdateApiKeyParams, AdminError>(404, &text, Ok(JsonValue::Null)),
        Err(AdminError::ApiError(text))
    );
}

#[test]
fn answer_of_another_shape_is_an_error_with_the_body() {
    assert_eq!(
        read_answer::<CancelMessageBatchParams, MessageBatchError>(200, "{\"id\":\"x\"}"),
        Err(MessageBatchError::ApiError(
            "JSON parsing error: the value is not of the expected shape. Response body: {\"id\":\"x\"}".to_string()
        ))
    );
    assert_eq!(
        answer_from_parsed::<CancelMessageBatchParams, MessageBatchError>(200, "body", Err("reason".to_string())),
        Err(MessageBatchError::ApiError("JSON parsing error: reason. Response body: body".to_string()))
    );
}
