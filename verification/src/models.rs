//! The records of the metadata store.

pub mod image_model;
pub mod processing_model;
