use anthropic_ai_sdk::clients::{AnthropicClient, HttpMethod, DEFAULT_API_VERSION};
use anthropic_ai_sdk::error::MessageBatchError;
use anthropic_ai_sdk::json::{FromJson, JsonValue, ToJson};
use anthropic_ai_sdk::message_batches::{
    delete_message_batch_response, list_message_batches_response, message_batch_response,
    message_batch_results_response, transport_failure,
};
use anthropic_ai_sdk::types::message_batches::{
    BatchRequestResult, CancelMessageBatchParams, CancelResponse, CreateMessageBatchParams,
    DeleteMessageBatchParams, DeleteResponse, ListMessageBatchesParams,
    ListMessageBatchesResponse, Message, MessageBatch, MessageBatchResult, MessageContent,
    MessageRequest, MessageRequestParams, MessageResponse, ProcessingStatus, RequestCounts,
    RetrieveMessageBatchParams, RetrieveMessageBatchResponse, RetrieveMessageBatchResultsParams,
    RetrieveMessageBatchResultsResponse, TokenUsage,
};
use anthropic_ai_sdk::types::timestamp::Timestamp;

fn client() -> AnthropicClient {
    AnthropicClient::new::<MessageBatchError>("key", DEFAULT_API_VERSION).unwrap()
}

fn shape_failure(body: &str) -> MessageBatchError {
    MessageBatchError::ApiError(format!(
        "JSON parsing error: the value is not of the expected shape. Response body: {}",
        body
    ))
}

fn request(custom_id: Option<&str>, system: Option<&str>) -> MessageRequest {
    let mut params = MessageRequestParams::new(
        "sonnet-latest",
        vec![Message::new("user", "Hello, world"), Message::new("assistant", "Hi")],
        1024,
    );
    if let Some(system) = system {
        params = params.with_system(system);
    }
    let request = MessageRequest::new(params);
    match custom_id {
        Some(id) => request.with_custom_id(id),
        None => request,
    }
}

const BATCH_JSON: &str = "{\"id\":\"msgbatch_1\",\"type\":\"message_batch\",\"processing_status\":\"in_progress\",\"request_counts\":{\"processing\":2,\"succeeded\":0,\"errored\":0,\"canceled\":0,\"expired\":0},\"ended_at\":null,\"created_at\":\"2024-09-24T18:37:24.100435Z\",\"expires_at\":\"2024-09-25T18:37:24.100435Z\",\"archived_at\":null,\"cancel_initiated_at\":null,\"results_url\":null}";

fn batch() -> MessageBatch {
    MessageBatch {
        id: "msgbatch_1".to_string(),
        type_: "message_batch".to_string(),
        created_at: Timestamp { unix_seconds: 1727203044, nanosecond: 100_435_000, offset_seconds: 0 },
        expires_at: Timestamp { unix_seconds: 1727289444, nanosecond: 100_435_000, offset_seconds: 0 },
        archived_at: None,
        cancel_initiated_at: None,
        ended_at: None,
        processing_status: ProcessingStatus::InProgress,
        request_counts: RequestCounts { processing: 2, succeeded: 0, errored: 0, canceled: 0, expired: 0 },
        results_url: None,
    }
}

const RESULT_JSON: &str = "{\"custom_id\":\"first\",\"result\":{\"type\":\"succeeded\",\"message\":{\"id\":\"msg_1\",\"type\":\"message\",\"role\":\"assistant\",\"model\":\"sonnet-latest\",\"content\":[{\"type\":\"text\",\"text\":\"Hello!\"}],\"stop_reason\":\"end_turn\",\"stop_sequence\":null,\"usage\":{\"input_tokens\":10,\"output_tokens\":3}}}}";

fn result(custom_id: &str) -> MessageBatchResult {
    MessageBatchResult {
        custom_id: custom_id.to_string(),
        result: BatchRequestResult {
            type_: "succeeded".to_string(),
            message: MessageResponse {
                id: "msg_1".to_string(),
                type_: "message".to_string(),
                role: "assistant".to_string(),
                model: "sonnet-latest".to_string(),
                content: vec![MessageContent { type_: "text".to_string(), text: "Hello!".to_string() }],
                stop_reason: "end_turn".to_string(),
                stop_sequence: None,
                usage: TokenUsage { input_tokens: 10, output_tokens: 3 },
            },
        },
    }
}

#[test]
fn batch_request_builders() {
    let message = Message::new("user", "Hello");
    assert_eq!(message, Message { role: "user".to_string(), content: "Hello".to_string() });
    let params = MessageRequestParams::new("m", vec![Message::new("user", "Hello")], 5);
    assert_eq!(
        params,
        MessageRequestParams {
            model: "m".to_string(),
            max_tokens: 5,
            system: None,
            messages: vec![Message::new("user", "Hello")],
        }
    );
    let params = params.with_system("Be brief.");
    assert_eq!(params.system.as_deref(), Some("Be brief."));
    assert_eq!(params.max_tokens, 5);
    let request = MessageRequest::new(params);
    assert_eq!(request.custom_id, None);
    let request = request.with_custom_id("first");
    assert_eq!(request.custom_id.as_deref(), Some("first"));
    assert_eq!(request.params.model, "m");
    let batch = CreateMessageBatchParams::new(vec![request]).unwrap();
    assert_eq!(batch.requests.len(), 1);
    assert!(batch.is_within_limit());
    assert_eq!(CreateMessageBatchParams::new(vec![]).unwrap().requests, vec![]);
}

#[test]
fn batch_id_params() {
    assert_eq!(RetrieveMessageBatchParams::new("b1").message_batch_id, "b1");
    assert_eq!(RetrieveMessageBatchResultsParams::new("b2").message_batch_id, "b2");
    assert_eq!(CancelMessageBatchParams::new("b3").message_batch_id, "b3");
    assert_eq!(DeleteMessageBatchParams::new("b4").message_batch_id, "b4");
}

#[test]
fn batch_id_params_as_json() {
    assert_eq!(
        RetrieveMessageBatchParams::new("b1").to_json().to_text().unwrap(),
        "{\"message_batch_id\":\"b1\"}"
    );
    assert_eq!(
        RetrieveMessageBatchResultsParams::new("b2").to_json().to_text().unwrap(),
        "{\"message_batch_id\":\"b2\"}"
    );
    assert_eq!(
        DeleteMessageBatchParams::new("b \"4\"").to_json().to_text().unwrap(),
        "{\"message_batch_id\":\"b \\\"4\\\"\"}"
    );
    let cancel = CancelMessageBatchParams::new("b3");
    let echoed = JsonValue::parse(&cancel.to_json().to_text().unwrap()).unwrap();
    assert_eq!(CancelMessageBatchParams::from_json(&echoed), Some(cancel));
    assert_eq!(CancelMessageBatchParams::from_json(&JsonValue::parse("{\"message_batch_id\":3}").unwrap()), None);
    assert_eq!(CancelMessageBatchParams::from_json(&JsonValue::parse("{}").unwrap()), None);
}

#[test]
fn failed_batch_call_is_a_request_failure() {
    assert_eq!(transport_failure("connection refused"), MessageBatchError::RequestFailed("connection refused".to_string()));
}

#[test]
fn batch_body_leaves_out_what_is_not_set() {
    let batch = CreateMessageBatchParams::new(vec![request(None, None), request(Some("second"), Some("Be brief."))])
        .unwrap();
    assert_eq!(
        batch.to_json().to_text().unwrap(),
        "{\"requests\":[{\"params\":{\"max_tokens\":1024,\"messages\":[{\"content\":\"Hello, world\",\"role\":\"user\"},{\"content\":\"Hi\",\"role\":\"assistant\"}],\"model\":\"sonnet-latest\"}},{\"custom_id\":\"second\",\"params\":{\"max_tokens\":1024,\"messages\":[{\"content\":\"Hello, world\",\"role\":\"user\"},{\"content\":\"Hi\",\"role\":\"assistant\"}],\"model\":\"sonnet-latest\",\"system\":\"Be brief.\"}}]}"
    );
}

#[test]
fn batch_comes_back_from_its_json() {
    for batch in [
        CreateMessageBatchParams::new(vec![]).unwrap(),
        CreateMessageBatchParams::new(vec![request(None, None)]).unwrap(),
        CreateMessageBatchParams::new(vec![
            request(Some("a"), None),
            request(None, Some("system \u{2713}")),
            request(Some(""), Some("")),
        ])
        .unwrap(),
    ] {
        let value = batch.to_json();
        let echoed = JsonValue::parse(&value.to_text().unwrap()).unwrap();
        let back = CreateMessageBatchParams::from_json(&echoed).expect("what was written is read");
        assert_eq!(back, batch);
        assert_eq!(CreateMessageBatchParams::from_json(&value), Some(batch));
    }
}

#[test]
fn batch_parts_come_back_from_their_json() {
    let message = Message::new("user", "Hello");
    assert_eq!(Message::from_json(&message.to_json()), Some(Message::new("user", "Hello")));
    let params = MessageRequestParams::new("m", vec![message], u32::MAX).with_system("s");
    let back = MessageRequestParams::from_json(&params.to_json()).unwrap();
    assert_eq!(back, params);
    let request = MessageRequest::new(params).with_custom_id("id");
    assert_eq!(MessageRequest::from_json(&request.to_json()).as_ref(), Some(&request));
    assert_eq!(Message::from_json(&JsonValue::parse("{\"role\":\"user\"}").unwrap()), None);
    assert_eq!(
        MessageRequestParams::from_json(&JsonValue::parse("{\"model\":\"m\",\"max_tokens\":4294967296,\"messages\":[]}").unwrap()),
        None
    );
    assert_eq!(MessageRequest::from_json(&JsonValue::parse("{\"custom_id\":\"x\"}").unwrap()), None);
    assert_eq!(CreateMessageBatchParams::from_json(&JsonValue::parse("{\"requests\":[{}]}").unwrap()), None);
}

#[test]
fn batch_requests() {
    let batch = CreateMessageBatchParams::new(vec![request(Some("first"), None)]).unwrap();
    let plan = client().create_message_batch_request(&batch).unwrap();
    assert_eq!(plan.method, HttpMethod::Post);
    assert_eq!(plan.url, "https://api.anthropic.com/v1/messages/batches");
    assert_eq!(plan.body, batch.to_json().to_text());

    let plan = client().list_message_batches_request(None).unwrap();
    assert_eq!((plan.method, plan.url.as_str()), (HttpMethod::Get, "https://api.anthropic.com/v1/messages/batches"));
    assert_eq!(plan.query, vec![]);
    let params = ListMessageBatchesParams::new().limit(0);
    let plan = client().list_message_batches_request(Some(&params)).unwrap();
    assert_eq!(plan.query, vec![("limit".to_string(), "1".to_string())]);

    let plan = client().retrieve_message_batch_request(&RetrieveMessageBatchParams::new("b1")).unwrap();
    assert_eq!((plan.method, plan.url.as_str()), (HttpMethod::Get, "https://api.anthropic.com/v1/messages/batches/b1"));

    let plan = client()
        .retrieve_message_batch_results_request(&RetrieveMessageBatchResultsParams::new("b1"))
        .unwrap();
    assert_eq!((plan.method, plan.url.as_str()), (HttpMethod::Get, "https://api.anthropic.com/v1/messages/batches/b1/results"));

    let plan = client().cancel_message_batch_request(&CancelMessageBatchParams::new("b1")).unwrap();
    assert_eq!((plan.method, plan.url.as_str()), (HttpMethod::Post, "https://api.anthropic.com/v1/messages/batches/b1/cancel"));
    assert_eq!(plan.body, None);

    let plan = client().delete_message_batch_request(&DeleteMessageBatchParams::new("b1")).unwrap();
    assert_eq!((plan.method, plan.url.as_str()), (HttpMethod::Delete, "https://api.anthropic.com/v1/messages/batches/b1"));
}

fn many_requests(n: usize) -> Vec<MessageRequest> {
    let mut requests = Vec::new();
    for _ in 0..n {
        requests.push(MessageRequest::new(MessageRequestParams::new("m", vec![], 1)));
    }
    requests
}

#[test]
fn new_refuses_more_than_100_000_requests() {
    assert_eq!(CreateMessageBatchParams::new(many_requests(100_001)), Err(MessageBatchError::BatchTooLarge));
    let batch = CreateMessageBatchParams::new(many_requests(100_000)).expect("the limit itself is allowed");
    assert_eq!(batch.requests.len(), 100_000);
}

#[test]
fn batch_of_more_than_100_000_requests_is_refused() {
    let batch = CreateMessageBatchParams { requests: many_requests(100_001) };
    assert!(!batch.is_within_limit());
    assert_eq!(client().create_message_batch_request(&batch), Err(MessageBatchError::BatchTooLarge));
    let mut batch = batch;
    batch.requests.pop();
    assert!(batch.is_within_limit());
    assert!(client().create_message_batch_request(&batch).is_ok());
}

#[test]
fn message_batch_response_reads_a_batch() {
    let read: Result<RetrieveMessageBatchResponse, MessageBatchError> = message_batch_response(200, BATCH_JSON);
    assert_eq!(read, Ok(batch()));
}

#[test]
fn ended_batch() {
    let body = BATCH_JSON
        .replace("\"in_progress\"", "\"ended\"")
        .replace("\"ended_at\":null", "\"ended_at\":\"2024-09-24T19:00:00Z\"")
        .replace("\"cancel_initiated_at\":null", "\"cancel_initiated_at\":\"2024-09-24T18:59:00+00:00\"")
        .replace("\"results_url\":null", "\"results_url\":\"https://example.test/results\"");
    let read: Result<CancelResponse, MessageBatchError> = message_batch_response(200, &body);
    let mut expected = batch();
    expected.processing_status = ProcessingStatus::Ended;
    expected.ended_at = Some(Timestamp { unix_seconds: 1727204400, nanosecond: 0, offset_seconds: 0 });
    expected.cancel_initiated_at = Some(Timestamp { unix_seconds: 1727204340, nanosecond: 0, offset_seconds: 0 });
    expected.results_url = Some("https://example.test/results".to_string());
    assert_eq!(read, Ok(expected));
}

#[test]
fn processing_status_wire_names() {
    for (status, name) in [
        (ProcessingStatus::InProgress, "in_progress"),
        (ProcessingStatus::Canceling, "canceling"),
        (ProcessingStatus::Ended, "ended"),
    ] {
        assert_eq!(status.as_str(), name);
        assert_eq!(ProcessingStatus::from_wire_name(name), Some(status));
    }
    assert_eq!(ProcessingStatus::from_wire_name("done"), None);
}

#[test]
fn batch_answers_that_do_not_fit() {
    for body in [
        BATCH_JSON.replace("\"in_progress\"", "\"paused\""),
        BATCH_JSON.replace("\"processing\":2,", ""),
        BATCH_JSON.replace("\"processing\":2", "\"processing\":-2"),
        BATCH_JSON.replace("\"ended_at\":null", "\"ended_at\":\"soon\""),
        BATCH_JSON.replace("\"results_url\":null", "\"results_url\":[]"),
        BATCH_JSON.replace("\"id\":\"msgbatch_1\",", ""),
    ] {
        assert_eq!(message_batch_response(200, &body), Err(shape_failure(&body)), "{}", body);
    }
    assert_eq!(message_batch_response(429, "slow down"), Err(MessageBatchError::ApiError("slow down".to_string())));
}

#[test]
fn list_message_batches_response_reads_a_page() {
    let body = format!("{{\"data\":[{}],\"first_id\":\"msgbatch_1\",\"last_id\":\"msgbatch_1\",\"has_more\":false}}", BATCH_JSON);
    assert_eq!(
        list_message_batches_response(200, &body),
        Ok(ListMessageBatchesResponse {
            data: vec![batch()],
            first_id: Some("msgbatch_1".to_string()),
            last_id: Some("msgbatch_1".to_string()),
            has_more: false,
        })
    );
    assert_eq!(list_message_batches_response(200, "{}"), Err(shape_failure("{}")));
}

#[test]
fn delete_response() {
    assert_eq!(
        delete_message_batch_response(200, "{\"id\":\"msgbatch_1\",\"type\":\"message_batch_deleted\"}"),
        Ok(DeleteResponse { id: "msgbatch_1".to_string(), obj_type: "message_batch_deleted".to_string() })
    );
    assert_eq!(delete_message_batch_response(200, "{\"id\":1}"), Err(shape_failure("{\"id\":1}")));
}

#[test]
fn results_are_read_line_by_line() {
    let second = RESULT_JSON.replace("\"first\"", "\"second\"");
    let body = format!("{}\n{}\n", RESULT_JSON, second);
    let read: Result<RetrieveMessageBatchResultsResponse, MessageBatchError> =
        message_batch_results_response(200, &body);
    assert_eq!(read, Ok(vec![result("first"), result("second")]));
}

#[test]
fn results_may_lack_the_last_line_end_and_hold_blank_lines() {
    let second = RESULT_JSON.replace("\"first\"", "\"second\"");
    let body = format!("\n{}\r\n  \n\n{}", RESULT_JSON, second);
    assert_eq!(message_batch_results_response(200, &body), Ok(vec![result("first"), result("second")]));
    assert_eq!(message_batch_results_response(200, ""), Ok(vec![]));
    assert_eq!(message_batch_results_response(200, "\n\n"), Ok(vec![]));
}

#[test]
fn results_with_a_line_that_does_not_fit() {
    for body in [
        format!("{}\n{{}}\n", RESULT_JSON),
        format!("{}\nnot json\n", RESULT_JSON),
        format!("{} {}\n", RESULT_JSON, RESULT_JSON),
        RESULT_JSON.replace("\"stop_reason\":\"end_turn\",", ""),
        RESULT_JSON.replace("\"output_tokens\":3", "\"output_tokens\":\"3\""),
        RESULT_JSON.replace("{\"type\":\"text\",\"text\":\"Hello!\"}", "{\"type\":\"text\"}"),
    ] {
        assert_eq!(message_batch_results_response(200, &body), Err(shape_failure(&body)), "{}", body);
    }
    assert_eq!(
        message_batch_results_response(404, "no results yet"),
        Err(MessageBatchError::ApiError("no results yet".to_string()))
    );
}
