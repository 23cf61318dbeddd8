//! Verified core of a synthetic SMTP traffic generator.
//!
//! The crate models the concurrency and timing engine of a load generator:
//! a pool of session workers, each running a deadline-bounded transaction
//! loop with a per-operation timeout, all feeding a single shared counter
//! that is read once at the end of the run to produce a throughput report.
//!
//! Everything that decides or computes lives here and carries a contract:
//! the per-worker state machine, the deterministic run model, payload
//! synthesis, SMTP command construction and reply parsing, and the report
//! arithmetic. The surrounding binary only performs the network I/O and
//! hands plain values back and forth.

pub mod config;
pub mod counter;
pub mod errors;
pub mod orchestrate;
pub mod payload;
pub mod report;
pub mod smtp;
pub mod text;
pub mod worker;
