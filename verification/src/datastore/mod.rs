//! Queries on a datastore.

pub mod laws;
pub mod meaning;
pub mod order;
pub mod query;
