//! The failure taxonomy of a session worker.

use vstd::prelude::*;

verus! {

/// Every way a single session worker can fail. A worker that fails stops
/// immediately, is never retried, and never affects its siblings or the
/// shared counter value already accumulated.
#[derive(Clone, Copy, Debug, PartialEq, Eq, Structural)]
pub enum WorkerError {
    /// Opening the transport connection failed.
    Connect,
    /// The banner was unreadable, carried an unexpected code, or the
    /// greeting exchange failed.
    Handshake,
    /// The optional transport-security upgrade was attempted and failed.
    SecurityUpgrade,
    /// One transaction exceeded the per-operation timeout ceiling.
    TransactionTimeout,
    /// One transaction failed at the transport level.
    Transaction,
    /// The final session-termination command failed or timed out.
    Termination,
}

/// What `WorkerError::message` returns for each variant.
pub open spec fn message_spec(e: WorkerError) -> Seq<char> {
    match e {
        WorkerError::Connect => "connection failed"@,
        WorkerError::Handshake => "handshake failed"@,
        WorkerError::SecurityUpgrade => "security upgrade failed"@,
        WorkerError::TransactionTimeout => "transaction timed out"@,
        WorkerError::Transaction => "transaction failed"@,
        WorkerError::Termination => "session termination failed"@,
    }
}

impl WorkerError {
    /// A short description of the failure, for the error stream.
    pub fn message(&self) -> (r: &'static str)
        ensures
            r@ == message_spec(*self),
    {
        match self {
            WorkerError::Connect => "connection failed",
            WorkerError::Handshake => "handshake failed",
            WorkerError::SecurityUpgrade => "security upgrade failed",
            WorkerError::TransactionTimeout => "transaction timed out",
            WorkerError::Transaction => "transaction failed",
            WorkerError::Termination => "session termination failed",
        }
    }
}

} // verus!
