//! Client library for the Pokemon TCG web API.
//!
//! The verified core turns a query builder's state (filters, field
//! selection, ordering and pagination) into a percent-encoded request URL.
//! Four builders (Pokemon cards, trainer cards, energy cards and sets) share
//! one renderer through the `QueryBuilder` trait.
pub mod encoding;
pub mod text;
pub mod filter;
pub mod builder;
pub mod pokemon_api_client;
pub mod laws;
pub mod resource;
