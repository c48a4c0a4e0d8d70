//! Settlement and audit core of a cross-environment message router.
//!
//! A principal opens a time-bounded, capability-scoped [`session::Session`],
//! funds a paired [`fee_vault::FeeVault`], and dispatches fee-metered routing
//! intents. Every accepted dispatch is committed into an append-only
//! [`outbox::Outbox`] whose root is a SHA-256 hash chain over entry digests.

pub mod errors;
pub mod fee_vault;
pub mod types;
pub mod utils;
pub mod outbox;
pub mod session;
pub mod send;
pub mod close_expired;
