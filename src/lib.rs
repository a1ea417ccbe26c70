//! Resilient dispatch core for a blockchain JSON-RPC client.
//!
//! The library decides; the caller performs the I/O. Every decision of the
//! dispatch loop (which endpoint, whether a permit is free, what an outcome
//! means, how long to back off) is a verified function of plain values.
pub mod error;
pub mod rate_limit;
pub mod health;
pub mod config;
pub mod dispatch;
pub mod envelope;
pub mod utils;
pub mod db;
