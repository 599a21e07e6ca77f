//! Consent-gated relay between a message bus and a REST registry.
//!
//! One inbound message carries a correlation id and a clinical payload. The
//! payload's consent flag decides whether the payload is forwarded to the
//! registry or the subject's record is deleted there, and every accepted
//! message is answered with exactly one correlated response envelope.

pub mod bwhc_client;
pub mod config;
pub mod error;
pub mod json;
pub mod laws;
pub mod pipeline;
pub mod resources;
pub mod response;
pub mod text;
