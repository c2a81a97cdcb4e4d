//! Continuous import of block data from many blockchain networks into a
//! local store, with a rolling transactions-per-second (TPS) metric derived
//! per network.
//!
//! The heart of the crate is the backward-walking import engine
//! ([`import`]), which extends and repairs a hash-linked local prefix of
//! each chain's history while tolerating node lag and reorgs, and the
//! windowed TPS aggregator ([`tps`]). Both operate on the in-memory
//! [`store::Store`]. Remote access, delays and scheduling of concurrent
//! jobs are left to the surrounding program; the decisions they need
//! (which jobs to seed, how a finished job is re-queued, which block to
//! fetch next) are all made here, under contract.

pub mod chain;
pub mod client;
pub mod import;
pub mod jobs;
pub mod store;
pub mod tps;
