//! Admin API: the three calls for API keys.
use vstd::prelude::*;
use crate::clients::{
    answers, is_header_text, json_outcome, pairs_view, planned_request, plans, read_answer,
    typed_outcome, AnthropicClient, HttpMethod, HttpRequest,
};
use crate::error::AdminError;
use crate::json::{json_rendering, ToJson};
use crate::text::concat2;
use crate::types::admin::api_keys::{
    AdminUpdateApiKeyParams, ApiKey, ListApiKeysParams, ListApiKeysResponse,
};

verus! {

impl AnthropicClient {
    /// Plans `GET /organizations/api_keys`: one page of the API keys.
    pub fn list_api_keys_request(&self, params: Option<&ListApiKeysParams>) -> (r: Result<
        HttpRequest,
        AdminError,
    >)
        ensures
            plans(
                r,
                planned_request(
                    self@,
                    HttpMethod::Get,
                    "/organizations/api_keys"@,
                    match params {
                        Some(p) => p.query(),
                        None => Seq::empty(),
                    },
                    None,
                ),
            ),
    {
        let query = match params {
            Some(p) => p.to_query(),
            None => {
                let query: Vec<(String, String)> = Vec::new();
                assert(pairs_view(query@) =~= Seq::empty());
                query
            },
        };
        self.plan_get("/organizations/api_keys", query)
    }

    /// Plans `GET /organizations/api_keys/{id}`: one API key.
    pub fn get_api_key_request(&self, api_key_id: &str) -> (r: Result<HttpRequest, AdminError>)
        ensures
            plans(
                r,
                planned_request(
                    self@,
                    HttpMethod::Get,
                    "/organizations/api_keys/"@ + api_key_id@,
                    Seq::empty(),
                    None,
                ),
            ),
    {
        let query: Vec<(String, String)> = Vec::new();
        assert(pairs_view(query@) =~= Seq::empty());
        let path = concat2("/organizations/api_keys/", api_key_id);
        self.plan_get(path.as_str(), query)
    }

    /// Plans `POST /organizations/api_keys/{id}`: a change of one API key.
    pub fn update_api_key_request(&self, api_key_id: &str, params: &AdminUpdateApiKeyParams) -> (r:
        Result<HttpRequest, AdminError>)
        ensures
            plans(
                r,
                planned_request(
                    self@,
                    HttpMethod::Post,
                    "/organizations/api_keys/"@ + api_key_id@,
                    Seq::empty(),
                    Some(json_rendering(AdminUpdateApiKeyParams::json(params@))),
                ),
            ),
            is_header_text(self@.api_key) ==> r is Ok,
    {
        let path = concat2("/organizations/api_keys/", api_key_id);
        let body = params.to_json();
        self.plan_post(path.as_str(), Some(&body))
    }
}

/// Reads the answer to `GET /organizations/api_keys`.
pub fn list_api_keys_response(status: u16, body: &str) -> (r: Result<ListApiKeysResponse, AdminError>)
    ensures
        answers(
            r,
            typed_outcome::<ListApiKeysResponse>(json_outcome(status, body@), body@),
        ),
{
    read_answer(status, body)
}

/// Reads the answer to `GET` or `POST /organizations/api_keys/{id}`: the API
/// key as it is after the call.
pub fn api_key_response(status: u16, body: &str) -> (r: Result<ApiKey, AdminError>)
    ensures
        answers(r, typed_outcome::<ApiKey>(json_outcome(status, body@), body@)),
{
    read_answer(status, body)
}

/// The error of a admin call that failed on the way: the request could not
/// be sent, or the answer could not be received. `reason` is what the
/// transport reports.
pub fn transport_failure(reason: &str) -> (e: AdminError)
    ensures
        e matches AdminError::RequestFailed(m) && m@ == reason@,
{
    AdminError::RequestFailed(reason.to_owned())
}

} // verus!
