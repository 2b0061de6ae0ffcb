//! Decision logic of a synthetic load generator for a replicated database
//! cluster: how the client connection is established (consistency level,
//! routing, retry with back-off, schema migration) and how a fleet of
//! virtual device workers is run, fails and is shut down.
//!
//! Nothing here performs I/O. The caller opens the session, sleeps, runs the
//! statements and operations, and reports what happened as events.

pub mod backoff;
pub mod config;
pub mod consistency;
pub mod laws;
pub mod outcome;
pub mod process;
pub mod schema;
pub mod text;
pub mod worker;
pub mod workload;
