//! Ingestion and sequencing core of a single-node transaction processor.
//!
//! The crate models the boundary between a client-facing request queue and an
//! ordered execution pipeline: an admission cache that deduplicates pending
//! transactions, a single-use reply handle per inbound request, an ordered
//! forward channel towards block assembly, a bounded per-tick drain loop over
//! the inbound queue, and a block-execution coordinator that enforces strict
//! parent chaining and produces a checkpoint per committed block.

pub mod cache;
pub mod channel;
pub mod coordinator;
pub mod errors;
pub mod executor;
pub mod inbound;
pub mod keys;
pub mod pipe;
pub mod reply;
pub mod time;
pub mod types;
