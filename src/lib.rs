//! A per-user to-do list kept as one document per user address, with an
//! ordered, embedded sequence of task sub-documents, and the field-level
//! update protocol that reads, creates and patches those tasks.
pub mod model;
pub mod protocol;
pub mod collection;
pub mod laws;
pub mod document;
pub mod service;
