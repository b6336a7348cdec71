//! Error values of the endpoint families.
//!
//! Every family reports a failed call through an enum of its own. A family's
//! error can be made from a plain message, which is how the shared request
//! code reports what went wrong without knowing the family it works for.
use vstd::prelude::*;
use vstd::std_specs::convert::FromSpecImpl;
use vstd::string::StringExecFns;
use crate::text::{concat2, decimal, decimal_string};

verus! {

/// Errors of the admin (API key) endpoints.
#[derive(Debug, PartialEq, Eq)]
pub enum AdminError {
    InvalidPagination,
    InvalidLimit(u16),
    RequestFailed(String),
    ApiError(String),
}

/// Errors of the models endpoints.
#[derive(Debug, PartialEq, Eq)]
pub enum ModelError {
    InvalidPagination,
    InvalidLimit(u16),
    RequestFailed(String),
    ApiError(String),
}

/// Errors of the message batch endpoints.
#[derive(Debug, PartialEq, Eq)]
pub enum MessageBatchError {
    BatchTooLarge,
    BatchSizeExceeded,
    RequestFailed(String),
    ApiError(String),
}

/// Errors of the messages endpoints, streaming included.
#[derive(Debug, PartialEq, Eq)]
pub enum MessageError {
    /// The request parameters do not fit the call; nothing was sent.
    InvalidConfiguration(String),
    /// The transport failed: the connection, or the body while it was read.
    RequestFailed(String),
    /// The server answered with a status outside 200..=299; holds the body.
    ApiError(String),
    /// A payload could not be decoded; holds the raw payload and the reason.
    ParseFailed { payload: String, reason: String },
}

impl AdminError {
    /// The message of this error.
    pub open spec fn text(self) -> Seq<char> {
        match self {
            AdminError::InvalidPagination => "Invalid pagination parameters"@,
            AdminError::InvalidLimit(limit) => "Invalid limit value: "@ + decimal(limit as nat),
            AdminError::RequestFailed(m) => "API request failed: "@ + m@,
            AdminError::ApiError(m) => "API error: "@ + m@,
        }
    }

    /// Renders the message of this error.
    pub fn to_string(&self) -> (r: String)
        ensures
            r@ == self.text(),
    {
        match self {
            AdminError::InvalidPagination => "Invalid pagination parameters".to_owned(),
            AdminError::InvalidLimit(limit) => {
                let n = decimal_string(*limit as u64);
                concat2("Invalid limit value: ", n.as_str())
            },
            AdminError::RequestFailed(m) => concat2("API request failed: ", m.as_str()),
            AdminError::ApiError(m) => concat2("API error: ", m.as_str()),
        }
    }
}

impl From<String> for AdminError {
    fn from(error: String) -> (r: Self) {
        AdminError::ApiError(error)
    }
}

impl FromSpecImpl<String> for AdminError {
    open spec fn obeys_from_spec() -> bool {
        true
    }

    open spec fn from_spec(v: String) -> Self {
        AdminError::ApiError(v)
    }
}

impl ModelError {
    /// The message of this error.
    pub open spec fn text(self) -> Seq<char> {
        match self {
            ModelError::InvalidPagination => "Invalid pagination parameters"@,
            ModelError::InvalidLimit(limit) => "Invalid limit value: "@ + decimal(limit as nat),
            ModelError::RequestFailed(m) => "API request failed: "@ + m@,
            ModelError::ApiError(m) => "API error: "@ + m@,
        }
    }

    /// Renders the message of this error.
    pub fn to_string(&self) -> (r: String)
        ensures
            r@ == self.text(),
    {
        match self {
            ModelError::InvalidPagination => "Invalid pagination parameters".to_owned(),
            ModelError::InvalidLimit(limit) => {
                let n = decimal_string(*limit as u64);
                concat2("Invalid limit value: ", n.as_str())
            },
            ModelError::RequestFailed(m) => concat2("API request failed: ", m.as_str()),
            ModelError::ApiError(m) => concat2("API error: ", m.as_str()),
        }
    }
}

impl From<String> for ModelError {
    fn from(error: String) -> (r: Self) {
        ModelError::ApiError(error)
    }
}

impl FromSpecImpl<String> for ModelError {
    open spec fn obeys_from_spec() -> bool {
        true
    }

    open spec fn from_spec(v: String) -> Self {
        ModelError::ApiError(v)
    }
}

impl MessageBatchError {
    /// The message of this error.
    pub open spec fn text(self) -> Seq<char> {
        match self {
            MessageBatchError::BatchTooLarge => "Batch size exceeds maximum limit of 100,000 requests"@,
            MessageBatchError::BatchSizeExceeded => "Batch total size exceeds 256MB"@,
            MessageBatchError::RequestFailed(m) => "API request failed: "@ + m@,
            MessageBatchError::ApiError(m) => "API error: "@ + m@,
        }
    }

    /// Renders the message of this error.
    pub fn to_string(&self) -> (r: String)
        ensures
            r@ == self.text(),
    {
        match self {
            MessageBatchError::BatchTooLarge => "Batch size exceeds maximum limit of 100,000 requests".to_owned(),
            MessageBatchError::BatchSizeExceeded => "Batch total size exceeds 256MB".to_owned(),
            MessageBatchError::RequestFailed(m) => concat2("API request failed: ", m.as_str()),
            MessageBatchError::ApiError(m) => concat2("API error: ", m.as_str()),
        }
    }
}

impl From<String> for MessageBatchError {
    fn from(error: String) -> (r: Self) {
        MessageBatchError::ApiError(error)
    }
}

impl FromSpecImpl<String> for MessageBatchError {
    open spec fn obeys_from_spec() -> bool {
        true
    }

    open spec fn from_spec(v: String) -> Self {
        MessageBatchError::ApiError(v)
    }
}

/// What a `MessageError` stands for.
pub enum MessageErrorView {
    InvalidConfiguration(Seq<char>),
    RequestFailed(Seq<char>),
    ApiError(Seq<char>),
    ParseFailed { payload: Seq<char>, reason: Seq<char> },
}

impl View for MessageError {
    type V = MessageErrorView;

    open spec fn view(&self) -> MessageErrorView {
        match self {
            MessageError::InvalidConfiguration(m) => MessageErrorView::InvalidConfiguration(m@),
            MessageError::RequestFailed(m) => MessageErrorView::RequestFailed(m@),
            MessageError::ApiError(m) => MessageErrorView::ApiError(m@),
            MessageError::ParseFailed { payload, reason } => MessageErrorView::ParseFailed {
                payload: payload@,
                reason: reason@,
            },
        }
    }
}

impl MessageError {
    /// The message of this error.
    pub open spec fn text(self) -> Seq<char> {
        match self {
            MessageError::InvalidConfiguration(m) => "Invalid configuration: "@ + m@,
            MessageError::RequestFailed(m) => "API request failed: "@ + m@,
            MessageError::ApiError(m) => "API error: "@ + m@,
            MessageError::ParseFailed { payload, reason } => "Failed to parse SSE event: "@ + reason@
                + ". Event data: "@ + payload@,
        }
    }

    /// Renders the message of this error.
    pub fn to_string(&self) -> (r: String)
        ensures
            r@ == self.text(),
    {
        match self {
            MessageError::InvalidConfiguration(m) => concat2("Invalid configuration: ", m.as_str()),
            MessageError::RequestFailed(m) => concat2("API request failed: ", m.as_str()),
            MessageError::ApiError(m) => concat2("API error: ", m.as_str()),
            MessageError::ParseFailed { payload, reason } => {
                let mut out = concat2("Failed to parse SSE event: ", reason.as_str());
                out.append(". Event data: ");
                out.append(payload.as_str());
                out
            },
        }
    }
}

impl From<String> for MessageError {
    fn from(error: String) -> (r: Self) {
        MessageError::ApiError(error)
    }
}

impl FromSpecImpl<String> for MessageError {
    open spec fn obeys_from_spec() -> bool {
        true
    }

    open spec fn from_spec(v: String) -> Self {
        MessageError::ApiError(v)
    }
}

} // verus!
