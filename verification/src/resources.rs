//! The documents that travel through the relay.

pub mod mtbfile;
pub mod request;
