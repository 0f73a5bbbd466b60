//! What is written to and read from the store.
pub mod error;
pub mod mapping;
pub mod script;
pub mod search;
pub mod failure;
pub mod batches;
