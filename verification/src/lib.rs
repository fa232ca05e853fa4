//! Read operations over entities kept in a document store, derived from
//! entity and relationship metadata.
//!
//! For every registered entity the engine offers two operations: one that
//! fetches a single document by key and one that lists documents. Each call
//! builds a parameterised query, hands it to the caller to execute against
//! the store, and converts the returned documents into a typed value tree.

pub mod json;
pub mod value;
pub mod convert;
pub mod metadata;
pub mod naming;
pub mod decimal;
pub mod aql;
pub mod store;
pub mod arguments;
pub mod operations;
pub mod registry;
pub mod provision;
