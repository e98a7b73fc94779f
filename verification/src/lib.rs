//! Verified core of a hostname resolution and port-scan pipeline.
//!
//! The library turns a list of hostnames into per-hostname final records:
//! each hostname is resolved to at most one address, every distinct
//! non-empty address is scanned exactly once by an external engine, and
//! the scan outcomes are projected back onto every hostname that shares
//! the address. The network lookups, the engine subprocess and all
//! presentation live outside this crate; the decisions, the deduplication
//! and the joins are verified here.

pub mod errors;
pub mod logic;
pub mod misc;
pub mod nmap;
pub mod resolver_engine;
pub mod structs;

