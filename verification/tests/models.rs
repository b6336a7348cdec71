use anthropic_ai_sdk::clients::{AnthropicClient, HttpMethod, HttpRequest, DEFAULT_API_VERSION};
use anthropic_ai_sdk::error::ModelError;
use anthropic_ai_sdk::models::{get_model_response, list_models_response, transport_failure};
use anthropic_ai_sdk::types::model::{ListModelsParams, ListModelsResponse, Model};
use anthropic_ai_sdk::types::timestamp::Timestamp;

fn client() -> AnthropicClient {
    AnthropicClient::new::<ModelError>("key", DEFAULT_API_VERSION).unwrap()
}

fn pair(name: &str, value: &str) -> (String, String) {
    (name.to_string(), value.to_string())
}

fn shape_failure(body: &str) -> ModelError {
    ModelError::ApiError(format!(
        "JSON parsing error: the value is not of the expected shape. Response body: {}",
        body
    ))
}

#[test]
fn list_models_end_to_end() {
    let request = client().list_models_request(None).unwrap();
    assert_eq!(
        request,
        HttpRequest {
            method: HttpMethod::Get,
            url: "https://api.anthropic.com/v1/models".to_string(),
            headers: vec![pair("x-api-key", "key")],
            query: vec![],
            body: None,
        }
    );
    let body = "{\"data\":[{\"id\":\"m1\",\"display_name\":\"M1\",\"created_at\":\"2024-01-01T00:00:00Z\",\"type\":\"model\"}],\"first_id\":\"m1\",\"last_id\":\"m1\",\"has_more\":false}";
    let page = list_models_response(200, body).unwrap();
    assert_eq!(page.data.len(), 1);
    assert_eq!(page.data[0].id, "m1");
    assert_eq!(
        page,
        ListModelsResponse {
            data: vec![Model {
                type_: "model".to_string(),
                id: "m1".to_string(),
                display_name: "M1".to_string(),
                created_at: Timestamp { unix_seconds: 1704067200, nanosecond: 0, offset_seconds: 0 },
            }],
            first_id: Some("m1".to_string()),
            has_more: false,
            last_id: Some("m1".to_string()),
        }
    );
}

#[test]
fn list_models_request_writes_the_parameters_into_the_query() {
    let params = ListModelsParams::new().after_id("m7").limit(2000);
    let request = client().list_models_request(Some(&params)).unwrap();
    assert_eq!(request.url, "https://api.anthropic.com/v1/models");
    assert_eq!(request.query, vec![pair("after_id", "m7"), pair("limit", "1000")]);
}

#[test]
fn get_model_request_names_the_model_in_the_path() {
    let request = client().get_model_request("m1").unwrap();
    assert_eq!(request.method, HttpMethod::Get);
    assert_eq!(request.url, "https://api.anthropic.com/v1/models/m1");
    assert_eq!(request.query, vec![]);
}

#[test]
fn get_model_response_reads_one_model() {
    let body = "{\"type\":\"model\",\"id\":\"m2\",\"display_name\":\"M2\",\"created_at\":\"2025-02-19T12:30:45.5+02:00\",\"extra\":1}";
    assert_eq!(
        get_model_response(200, body),
        Ok(Model {
            type_: "model".to_string(),
            id: "m2".to_string(),
            display_name: "M2".to_string(),
            created_at: Timestamp {
                unix_seconds: 1739961045,
                nanosecond: 500_000_000,
                offset_seconds: 7200,
            },
        })
    );
}

#[test]
fn empty_page_with_null_cursors() {
    let body = "{\"data\":[],\"first_id\":null,\"has_more\":false}";
    assert_eq!(
        list_models_response(200, body),
        Ok(ListModelsResponse { data: vec![], first_id: None, has_more: false, last_id: None })
    );
}

#[test]
fn model_answers_that_do_not_fit() {
    for body in [
        "{}",
        "[]",
        "{\"data\":{},\"has_more\":false}",
        "{\"data\":[],\"has_more\":\"no\"}",
        "{\"data\":[],\"first_id\":1,\"has_more\":false}",
        "{\"data\":[{\"id\":\"m1\"}],\"has_more\":false}",
        "{\"data\":[{\"id\":\"m1\",\"display_name\":\"M1\",\"created_at\":\"yesterday\",\"type\":\"model\"}],\"has_more\":false}",
    ] {
        assert_eq!(list_models_response(200, body), Err(shape_failure(body)), "{}", body);
    }
    assert_eq!(get_model_response(200, "{\"id\":\"m\"}"), Err(shape_failure("{\"id\":\"m\"}")));
}

#[test]
fn model_answer_without_success() {
    let body = "{\"type\":\"error\",\"error\":{\"type\":\"not_found_error\",\"message\":\"no such model\"}}";
    assert_eq!(get_model_response(404, body), Err(ModelError::ApiError(body.to_string())));
    assert_eq!(list_models_response(401, body), Err(ModelError::ApiError(body.to_string())));
}

#[test]
fn model_answer_that_is_no_json() {
    assert_eq!(
        list_models_response(200, "{\"data\":"),
        Err(ModelError::ApiError(
            "JSON parsing error: EOF while parsing a value at line 1 column 8. Response body: {\"data\":"
                .to_string()
        ))
    );
}

#[test]
fn failed_model_call_is_a_request_failure() {
    assert_eq!(transport_failure("dns error"), ModelError::RequestFailed("dns error".to_string()));
    assert_eq!(transport_failure("dns error").to_string(), "API request failed: dns error");
}

#[test]
fn timestamps_are_read_as_rfc_3339() {
    assert_eq!(
        Timestamp::parse("1970-01-01T00:00:00Z"),
        Some(Timestamp { unix_seconds: 0, nanosecond: 0, offset_seconds: 0 })
    );
    assert_eq!(
        Timestamp::parse("1969-12-31T23:59:59.000000001-00:30"),
        Some(Timestamp { unix_seconds: 1799, nanosecond: 1, offset_seconds: -1800 })
    );
    assert_eq!(Timestamp::parse("2024-01-01"), None);
    assert_eq!(Timestamp::parse("2024-01-01T00:00:00"), None);
    assert_eq!(Timestamp::parse("2024-13-01T00:00:00Z"), None);
    assert_eq!(Timestamp::parse(""), None);
}
