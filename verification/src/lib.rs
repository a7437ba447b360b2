//! Ingestion of one uploaded image: the upload is stored and recorded as the
//! base image, a half-turned copy is derived from it, stored and recorded, and
//! a processing record links the two.
//!
//! The library decides; its caller performs the file and database work that
//! each decision asks for, decodes the upload, and reports back what
//! happened. Nothing is undone
//! when an ingestion breaks off: what it leaves behind is found by a sweep.

pub mod api;
pub mod datetime;
pub mod error;
pub mod models;
pub mod oid;
pub mod runs;
pub mod stores;
pub mod sweep;
pub mod transform;
