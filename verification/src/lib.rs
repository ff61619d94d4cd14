//! A small question-and-answer record service: domain models, a two-tier
//! error taxonomy, identifier validation, the storage-level decision rules,
//! and the handler layer that translates storage errors for callers.
pub mod identifier;
pub mod models;
pub mod persistance;
pub mod handlers;
