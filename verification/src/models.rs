//! Models API: the two calls for models.
use vstd::prelude::*;
use crate::clients::{
    answers, json_outcome, pairs_view, planned_request, plans, read_answer, typed_outcome,
    AnthropicClient, HttpMethod, HttpRequest,
};
use crate::error::ModelError;
use crate::text::concat2;
use crate::types::model::{ListModelsParams, ListModelsResponse, Model};

verus! {

impl AnthropicClient {
    /// Plans `GET /models`: one page of the models that the API offers.
    pub fn list_models_request(&self, params: Option<&ListModelsParams>) -> (r: Result<
        HttpRequest,
        ModelError,
    >)
        ensures
            plans(
                r,
                planned_request(
                    self@,
                    HttpMethod::Get,
                    "/models"@,
                    match params {
                        Some(p) => p.query(),
                        None => Seq::empty(),
                    },
                    None,
                ),
            ),
    {
        let query = match params {
            Some(p) => p.to_query(),
            None => {
                let query: Vec<(String, String)> = Vec::new();
                assert(pairs_view(query@) =~= Seq::empty());
                query
            },
        };
        self.plan_get("/models", query)
    }

    /// Plans `GET /models/{id}`: one model.
    pub fn get_model_request(&self, model_id: &str) -> (r: Result<HttpRequest, ModelError>)
        ensures
            plans(
                r,
                planned_request(self@, HttpMethod::Get, "/models/"@ + model_id@, Seq::empty(), None),
            ),
    {
        let query: Vec<(String, String)> = Vec::new();
        assert(pairs_view(query@) =~= Seq::empty());
        let path = concat2("/models/", model_id);
        self.plan_get(path.as_str(), query)
    }
}

/// Reads the answer to `GET /models`.
pub fn list_models_response(status: u16, body: &str) -> (r: Result<ListModelsResponse, ModelError>)
    ensures
        answers(r, typed_outcome::<ListModelsResponse>(json_outcome(status, body@), body@)),
{
    read_answer(status, body)
}

/// Reads the answer to `GET /models/{id}`.
pub fn get_model_response(status: u16, body: &str) -> (r: Result<Model, ModelError>)
    ensures
        answers(r, typed_outcome::<Model>(json_outcome(status, body@), body@)),
{
    read_answer(status, body)
}

/// The error of a models call that failed on the way: the request could not
/// be sent, or the answer could not be received. `reason` is what the
/// transport reports.
pub fn transport_failure(reason: &str) -> (e: ModelError)
    ensures
        e matches ModelError::RequestFailed(m) && m@ == reason@,
{
    ModelError::RequestFailed(reason.to_owned())
}

} // verus!
