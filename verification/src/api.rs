//! What the service offers to its callers.

pub mod processing_api;
