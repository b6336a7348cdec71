//! Client core for the Anthropic HTTP API.
//!
//! The crate holds everything about the API that is decided without touching
//! the network: the parameters of every call and their wire form, the plan of
//! every HTTP request, the reading of every answer, and the decoder that turns
//! the body of a streamed answer into message events.
//!
//! A call goes in three steps. A `*_request` method of `AnthropicClient`
//! plans it as an `HttpRequest`; whoever owns the connection sends that
//! request and receives a status and a body; the matching `*_response`
//! function reads them. For a streamed answer the body goes, chunk by chunk as
//! it arrives, into an `EventDecoder`.
//!
//! - `clients`: the client and its builder, request plans, answers
//! - `models`, `messages`, `message_batches`, `admin_client`: the calls
//! - `types`: parameters and answers of the calls
//! - `sse`: server-sent-event framing
//! - `json`: JSON values, read and written by `serde_json`
//! - `error`: the errors of the endpoint families
//! - `text`: decimal numerals and other small text helpers
pub mod admin_client;
pub mod clients;
pub mod error;
pub mod json;
pub mod message_batches;
pub mod messages;
pub mod models;
pub mod sse;
pub mod text;
pub mod types;
