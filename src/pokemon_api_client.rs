//! Identifiers and endpoints of the Pokemon TCG API.
pub mod api_client;
