//! The shared completion counter, as a sequential model.
//!
//! In a live run the accumulator is a process-wide atomic integer owned by
//! the runtime shell; every worker adds one per successful transaction and
//! the orchestrator reads it once at the end. This type is the verified
//! model of that accumulator: the only operations are creation at zero,
//! increment by one, and a read. Nothing ever decrements it.

use vstd::prelude::*;

verus! {

/// The single cross-task accumulator of successfully completed
/// transactions.
pub struct SharedCounter {
    count: usize,
}

impl SharedCounter {
    /// The abstract value of the counter.
    pub closed spec fn view(&self) -> nat {
        self.count as nat
    }

    /// A fresh counter starts at zero.
    pub fn new() -> (r: SharedCounter)
        ensures
            r@ == 0,
    {
        SharedCounter { count: 0 }
    }

    /// Add one completed transaction. The value strictly increases and is
    /// never decremented by any operation of this type.
    pub fn increment(&mut self)
        requires
            old(self)@ < usize::MAX,
        ensures
            final(self)@ == old(self)@ + 1,
    {
        self.count = self.count + 1;
    }

    /// Read the accumulated total.
    pub fn read(&self) -> (r: usize)
        ensures
            r == self@,
    {
        self.count
    }
}

} // verus!
