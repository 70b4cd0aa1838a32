//! Full-text search over the resources of a store: a query text is classified, run
//! against a snapshot of the index, and answered with the entities it found.

pub mod classify;
pub mod dedupe;
pub mod envelope;
pub mod error;
pub mod hydrate;
pub mod index;
pub mod query;
pub mod search;
pub mod store;
