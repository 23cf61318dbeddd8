//! The immutable run configuration shared by every worker.

use vstd::prelude::*;

verus! {

/// Ceiling, in seconds, applied to each transaction in the run loop.
pub const DEFAULT_OP_TIMEOUT_SECS: u64 = 300;

/// Ceiling, in seconds, applied to the final session-termination command.
pub const QUIT_TIMEOUT_SECS: u64 = 1;

/// Workers spawned per unit of detected hardware parallelism when no
/// explicit concurrency is configured.
pub const CONCURRENCY_PER_CPU: usize = 10;

/// Everything a run needs to know. Never mutated once the run starts;
/// every worker gets its own copy or an immutable reference.
#[derive(Clone, Debug)]
pub struct RunConfig {
    /// Domain appended to every synthesized address.
    pub domain: String,
    /// Host and port that mail is submitted to.
    pub target: String,
    /// Number of sessions to open, or `None` to derive one from the
    /// host's parallel-execution capacity.
    pub concurrency: Option<usize>,
    /// Length of the run window, in seconds.
    pub duration_secs: u64,
    /// Per-transaction timeout ceiling, in seconds.
    pub op_timeout_secs: u64,
    /// Whether to upgrade transport security when the peer offers it.
    pub starttls: bool,
}

impl RunConfig {
    /// Build a configuration from plain values, with the default
    /// per-transaction timeout ceiling.
    pub fn new(
        domain: String,
        target: String,
        concurrency: Option<usize>,
        duration_secs: u64,
        starttls: bool,
    ) -> (r: RunConfig)
        ensures
            r.domain == domain,
            r.target == target,
            r.concurrency == concurrency,
            r.duration_secs == duration_secs,
            r.op_timeout_secs == DEFAULT_OP_TIMEOUT_SECS,
            r.starttls == starttls,
    {
        RunConfig {
            domain,
            target,
            concurrency,
            duration_secs,
            op_timeout_secs: DEFAULT_OP_TIMEOUT_SECS,
            starttls,
        }
    }

    /// The number of workers a run will spawn: the configured concurrency
    /// if one was given, otherwise a fixed multiple of the detected
    /// hardware parallelism. The heuristic default is a convenience, not a
    /// correctness requirement.
    pub fn effective_concurrency(&self, available_parallelism: usize) -> (c: usize)
        requires
            available_parallelism <= usize::MAX / CONCURRENCY_PER_CPU,
        ensures
            c == match self.concurrency {
                Some(n) => n as int,
                None => available_parallelism * CONCURRENCY_PER_CPU,
            },
    {
        match self.concurrency {
            Some(n) => n,
            None => available_parallelism * CONCURRENCY_PER_CPU,
        }
    }
}

} // verus!
