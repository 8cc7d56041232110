//! Verified core of a line-oriented numeric deduplication server.
//!
//! Clients submit newline-delimited decimal records over TCP. The server
//! deduplicates them against a shared in-memory set, counts uniques and
//! duplicates, forwards every newly-unique line to an append-only log, and
//! shuts down cooperatively when any client sends the literal `terminate`.
//!
//! This crate holds the verified logic: the line codec, the deduplication
//! store, the shared status counters, the per-line connection-handler step,
//! and a specification-level model of a run with its proved laws. The
//! surrounding I/O (sockets, the log file, timers) lives outside.

pub mod codec;
pub mod handler;
pub mod model;
pub mod status;
pub mod store;
