//! The values that go into requests and come out of responses.
pub mod pagination;
pub mod timestamp;
pub mod admin;
pub mod message;
pub mod message_batches;
pub mod model;
