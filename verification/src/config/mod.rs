//! The gateway's configuration and the rules it must meet.

pub mod error;
pub mod types;
pub mod validation;
