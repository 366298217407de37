//! Trust issuance for a federated login gateway: configuration rules, the
//! authorization-code flow, the session cookie, signing keys and tokens.

pub mod config;
pub mod error;
pub mod flow;
pub mod ids;
pub mod jwt;
pub mod keys;
pub mod logger;
pub mod provider;
pub mod session;
pub mod text;
pub mod urls;
pub mod users;
