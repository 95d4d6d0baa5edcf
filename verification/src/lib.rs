//! Core logic of a synthetic UDP load generator: configuration validation,
//! per-cycle rate-paced send accounting, and throughput aggregation.
//!
//! The surrounding binary owns the sockets, the DTLS sessions, the channels
//! and the timers; every decision and every count it acts on is computed here.

pub mod config;
pub mod sender;
pub mod statistics;
