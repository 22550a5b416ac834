//! YAML request bodies and YAML responses for axum.
//!
//! [`Yaml`] holds a value that was deserialized from a request body, or that
//! is to be serialized into a response body. The YAML itself is read and
//! written by `serde_yaml`; this crate decides when a body is decoded, what a
//! failure is called, and what the response to each outcome is.

pub mod content_type;
pub mod media_type;
pub mod rejection;
pub mod response;
pub mod yaml;

pub use crate::yaml::Yaml;
