//! Persistence layer: the capability interfaces through which the handler
//! layer stores and retrieves records, the storage-level decision rules
//! shared by every backing implementation, and an in-memory store.
pub mod question_dao;
pub mod answer_dao;
pub mod memory;
