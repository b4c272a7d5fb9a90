//! Keeps a stake pool's bookkeeping in step with the network's epoch.
//!
//! The crate holds the decisions of the update orchestrator: which
//! transactions an epoch change calls for, how each one is assembled under
//! its compute budget and checked against the fee payer's balance, in which
//! order and mode they are submitted, and what is reported. Every network
//! call is left to the caller: the state machines here name the next request
//! and take its reply.

pub mod address;
pub mod api;
pub mod builder;
pub mod client;
pub mod config;
pub mod encoding;
pub mod error;
pub mod instruction;
pub mod notifier;
pub mod pipeline;
pub mod plan;
pub mod transport;
pub mod utils;
pub mod watcher;
