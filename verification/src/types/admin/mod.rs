//! Admin API.
pub mod api_keys;
