//! Per-vault workflow coordination for a multi-party Bitcoin vault client.
//!
//! The crate holds the decisions of the client and none of its effects: a
//! [`vault::Vault`] receives a [`message::VaultMessage`], changes its state
//! and answers with at most one [`request::DaemonRequest`] that the caller
//! is expected to carry out and to answer with a later message.
pub mod decimal;
pub mod error;
pub mod message;
pub mod model;
pub mod request;
pub mod sign;
pub mod vault;
