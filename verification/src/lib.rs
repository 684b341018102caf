//! Core of a space-data collection pipeline: a retrying fetch layer, named
//! periodic tasks coordinated through advisory locks, and idempotent
//! persistence models (an append-only position log, a source-keyed cache,
//! and an upsert-by-business-key catalogue) together with the derivations
//! computed over them.

pub mod cache;
pub mod config;
pub mod datetime;
pub mod errors;
pub mod fetch;
pub mod json;
pub mod osdr;
pub mod position;
pub mod scheduler;
pub mod sources;
pub mod text;
pub mod validation;
