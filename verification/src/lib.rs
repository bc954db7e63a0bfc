//! A query-to-result pipeline for a completion-backed search filter.
//!
//! The library accepts a raw inbound query (a flat JSON object of strings),
//! resolves the downstream completion endpoint and model from configuration,
//! builds the completion request, and turns the downstream response into a
//! deadline-bounded, ordered collection of result records.

pub mod clock;
pub mod config;
pub mod extract;
pub mod jsonio;
pub mod pipeline;
pub mod record;
pub mod text;
