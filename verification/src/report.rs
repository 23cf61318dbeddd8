//! The throughput report computed once, at the end of a run.
//!
//! Rates are held in thousandths (a value of 12345 is 12.345 transactions
//! per second), so that the per-minute and per-hour figures are exact
//! sixty-fold multiples of the base rate rather than re-divided
//! approximations.

use vstd::prelude::*;

use crate::text::format_grouped;
use crate::text::format_milli;
use crate::text::spec_grouped_decimal;
use crate::text::spec_milli_display;

verus! {

/// The aggregate throughput of one run: the single final counter reading,
/// the orchestrator's own elapsed time, and the three derived rates.
#[derive(Clone, Copy, Debug, PartialEq, Eq, Structural)]
pub struct Report {
    /// The shared counter as read once at the end of the run.
    pub total: usize,
    /// Wall-clock milliseconds from run start to the final reading.
    pub elapsed_ms: u64,
    /// Completed transactions per second, in thousandths.
    pub per_second_milli: u128,
    /// Completed transactions per minute, in thousandths.
    pub per_minute_milli: u128,
    /// Completed transactions per hour, in thousandths.
    pub per_hour_milli: u128,
}

impl Report {
    /// Derive the report from the final counter value and the elapsed
    /// time: the base rate is the total over the elapsed seconds, and the
    /// per-minute and per-hour rates are exactly sixty and thirty-six
    /// hundred times the base rate.
    pub fn compute(total: usize, elapsed_ms: u64) -> (r: Report)
        requires
            elapsed_ms >= 1,
        ensures
            r.total == total,
            r.elapsed_ms == elapsed_ms,
            r.per_second_milli == total * 1_000_000 / elapsed_ms as int,
            r.per_minute_milli == r.per_second_milli * 60,
            r.per_hour_milli == r.per_minute_milli * 60,
    {
        let t: u128 = total as u128;
        proof {
            assert(t <= 0xFFFF_FFFF_FFFF_FFFFu128);
            assert(t * 1_000_000 <= 0xFFFF_FFFF_FFFF_FFFFu128 * 1_000_000) by (nonlinear_arith)
                requires
                    t <= 0xFFFF_FFFF_FFFF_FFFFu128,
            ;
        }
        let scaled: u128 = t * 1_000_000;
        let per_second_milli: u128 = scaled / (elapsed_ms as u128);
        proof {
            assert(per_second_milli <= scaled) by (nonlinear_arith)
                requires
                    per_second_milli == scaled / (elapsed_ms as u128),
                    elapsed_ms >= 1,
            ;
        }
        let per_minute_milli: u128 = per_second_milli * 60;
        let per_hour_milli: u128 = per_minute_milli * 60;
        Report { total, elapsed_ms, per_second_milli, per_minute_milli, per_hour_milli }
    }

    /// The per-minute rate as a whole number of transactions.
    pub fn per_minute_whole(&self) -> (r: u128)
        ensures
            r == self.per_minute_milli / 1000,
    {
        self.per_minute_milli / 1000
    }

    /// The per-hour rate as a whole number of transactions.
    pub fn per_hour_whole(&self) -> (r: u128)
        ensures
            r == self.per_hour_milli / 1000,
    {
        self.per_hour_milli / 1000
    }

    /// The base rate rendered with three digits after the point.
    pub fn per_second_display(&self) -> (r: String)
        ensures
            r@ == spec_milli_display(self.per_second_milli as int),
    {
        format_milli(self.per_second_milli)
    }

    /// The whole per-minute rate, grouped for reading.
    pub fn per_minute_display(&self) -> (r: String)
        ensures
            r@ == spec_grouped_decimal((self.per_minute_milli / 1000) as int),
    {
        format_grouped(self.per_minute_whole())
    }

    /// The whole per-hour rate, grouped for reading.
    pub fn per_hour_display(&self) -> (r: String)
        ensures
            r@ == spec_grouped_decimal((self.per_hour_milli / 1000) as int),
    {
        format_grouped(self.per_hour_whole())
    }
}

/// A run that completed no transaction reports zero for every rate.
pub proof fn lemma_empty_run_rates_are_zero(r: Report)
    requires
        r.total == 0,
        r.elapsed_ms >= 1,
        r.per_second_milli == r.total * 1_000_000 / r.elapsed_ms as int,
        r.per_minute_milli == r.per_second_milli * 60,
        r.per_hour_milli == r.per_minute_milli * 60,
    ensures
        r.per_second_milli == 0,
        r.per_minute_milli == 0,
        r.per_hour_milli == 0,
{
}

} // verus!
