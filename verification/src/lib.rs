//! Memory protection and data-centric security management.
//!
//! This crate provides primitives for handling sensitive in-memory values
//! (keys, tokens, credentials) and a small processing-pipeline framework
//! around them:
//!
//! * classified values that are scrubbed on destruction, inspected only
//!   through a redacted form, and compared in constant time;
//! * composable pipeline stages, an actor-style worker with a bounded
//!   mailbox and cooperative shutdown, a channel-based rendezvous stage,
//!   and a stream processor with bounded-retry accounting;
//! * a keyed store of classified material with wholesale rotation.
//!
//! The asynchronous runtime wiring (task spawning, timers, real channels)
//! lives outside this crate; here every queue, retry loop and shutdown
//! decision is modelled as explicit state with a proved contract.

pub mod classified_data;
pub mod classified_map;
pub mod concurrency;
pub mod config;
pub mod crypto;
pub mod crypto_fallback;
pub mod data_repository;
pub mod errors;
pub mod exposure_aware_classified_data;
pub mod key_manager;
pub mod layer_stack;
pub mod pipelines;
pub mod secure_service;
pub mod sized_classified_data;
pub mod traits;
