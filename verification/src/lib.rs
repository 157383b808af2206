//! Configuration lifecycle and startup orchestration for a ramd node.
//!
//! The library resolves a hierarchical configuration from plain values
//! handed in at the process boundary — the two environment lookups and
//! the bytes found at the deterministic config path — synthesizes and
//! encodes the default document on first run, derives the directories
//! every section requires, and fixes the order in which the node's
//! subsystems start. Every decision is made here, under contract; the
//! surrounding process performs the reads, writes and constructions
//! the library decides on.

pub mod codec;
pub mod config;
pub mod errors;
pub mod orchestrator;
pub mod paths;
pub mod resolver;
