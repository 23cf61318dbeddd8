//! The orchestrator: fan out the workers, accumulate the counter, read it
//! once.
//!
//! [`execute_run`] is the deterministic model of a whole run over recorded
//! transport behaviours, one per worker: it runs exactly one session per
//! script, all increments land on one shared counter, and the final
//! counter value is read once at the end. Its contract pins the worker
//! count, every worker's individual outcome, and the exact final total —
//! no lost updates.

use vstd::prelude::*;

use crate::counter::SharedCounter;
use crate::worker::run_session;
use crate::worker::SessionResult;
use crate::worker::SessionScript;
use crate::worker::spec_session_status;
use crate::worker::spec_session_successes;

verus! {

/// The sum of every worker's completed transactions.
pub open spec fn spec_total_successes(
    scripts: Seq<SessionScript>,
    want_tls: bool,
    duration: int,
    op_timeout: int,
) -> nat
    decreases scripts.len(),
{
    if scripts.len() == 0 {
        0
    } else {
        spec_session_successes(scripts[0], want_tls, duration, op_timeout)
            + spec_total_successes(scripts.skip(1), want_tls, duration, op_timeout)
    }
}

/// Extending a run by its next worker adds exactly that worker's
/// completed transactions to the total.
pub proof fn lemma_total_take_succ(
    scripts: Seq<SessionScript>,
    i: int,
    want_tls: bool,
    duration: int,
    op_timeout: int,
)
    requires
        0 <= i < scripts.len(),
    ensures
        spec_total_successes(scripts.take(i + 1), want_tls, duration, op_timeout)
            == spec_total_successes(scripts.take(i), want_tls, duration, op_timeout)
            + spec_session_successes(scripts[i], want_tls, duration, op_timeout),
    decreases i,
{
    if i == 0 {
        assert(scripts.take(0) =~= Seq::<SessionScript>::empty());
        assert(scripts.take(1)[0] == scripts[0]);
        assert(scripts.take(1).skip(1) =~= Seq::<SessionScript>::empty());
    } else {
        lemma_total_take_succ(scripts.skip(1), i - 1, want_tls, duration, op_timeout);
        assert(scripts.take(i + 1)[0] == scripts[0]);
        assert(scripts.take(i)[0] == scripts[0]);
        assert(scripts.take(i + 1).skip(1) =~= scripts.skip(1).take(i));
        assert(scripts.take(i).skip(1) =~= scripts.skip(1).take(i - 1));
        assert(scripts.skip(1)[i - 1] == scripts[i]);
    }
}

/// A partial run never exceeds the whole run's total.
pub proof fn lemma_total_prefix_le(
    scripts: Seq<SessionScript>,
    i: int,
    want_tls: bool,
    duration: int,
    op_timeout: int,
)
    requires
        0 <= i <= scripts.len(),
    ensures
        spec_total_successes(scripts.take(i), want_tls, duration, op_timeout)
            <= spec_total_successes(scripts, want_tls, duration, op_timeout),
    decreases scripts.len() - i,
{
    if i == scripts.len() {
        assert(scripts.take(i) =~= scripts);
    } else {
        lemma_total_take_succ(scripts, i, want_tls, duration, op_timeout);
        lemma_total_prefix_le(scripts, i + 1, want_tls, duration, op_timeout);
    }
}

/// What a whole run produced: every worker's outcome and the final
/// counter reading.
pub struct RunOutcome {
    /// One entry per spawned worker, in spawn order.
    pub results: Vec<SessionResult>,
    /// The shared counter as read once at the end of the run.
    pub total: usize,
}

/// A whole run over recorded transport behaviours: exactly one worker per
/// script, every completed transaction counted once on one shared
/// counter, the counter read once at the end. Each worker's outcome
/// depends on its own script alone, so a failing worker leaves its
/// siblings untouched.
pub fn execute_run(
    scripts: &Vec<SessionScript>,
    want_tls: bool,
    duration_secs: u64,
    op_timeout_secs: u64,
) -> (r: RunOutcome)
    requires
        duration_secs <= u64::MAX - op_timeout_secs,
        spec_total_successes(
            scripts@,
            want_tls,
            duration_secs as int,
            op_timeout_secs as int,
        ) <= usize::MAX,
    ensures
        r.results@.len() == scripts@.len(),
        forall|i: int|
            0 <= i < scripts@.len() ==> (#[trigger] r.results@[i]).sent == spec_session_successes(
                scripts@[i],
                want_tls,
                duration_secs as int,
                op_timeout_secs as int,
            ) && r.results@[i].status == spec_session_status(
                scripts@[i],
                want_tls,
                duration_secs as int,
                op_timeout_secs as int,
            ),
        r.total == spec_total_successes(
            scripts@,
            want_tls,
            duration_secs as int,
            op_timeout_secs as int,
        ),
{
    let ghost d = duration_secs as int;
    let ghost t = op_timeout_secs as int;
    let mut counter = SharedCounter::new();
    let mut results: Vec<SessionResult> = Vec::new();
    let mut i: usize = 0;
    proof {
        assert(scripts@.take(0) =~= Seq::<SessionScript>::empty());
    }
    while i < scripts.len()
        invariant
            d == duration_secs as int,
            t == op_timeout_secs as int,
            i <= scripts@.len(),
            results@.len() == i,
            duration_secs <= u64::MAX - op_timeout_secs,
            spec_total_successes(scripts@, want_tls, d, t) <= usize::MAX,
            counter@ == spec_total_successes(scripts@.take(i as int), want_tls, d, t),
            forall|j: int|
                0 <= j < i ==> (#[trigger] results@[j]).sent == spec_session_successes(
                    scripts@[j],
                    want_tls,
                    d,
                    t,
                ) && results@[j].status == spec_session_status(scripts@[j], want_tls, d, t),
        decreases scripts@.len() - i,
    {
        proof {
            lemma_total_take_succ(scripts@, i as int, want_tls, d, t);
            lemma_total_prefix_le(scripts@, i as int + 1, want_tls, d, t);
        }
        let ghost prev_results = results@;
        let res = run_session(&scripts[i], want_tls, duration_secs, op_timeout_secs, &mut counter);
        results.push(res);
        i = i + 1;
        proof {
            assert(results@ == prev_results.push(res));
            assert forall|j: int| 0 <= j < i implies (#[trigger] results@[j]).sent
                == spec_session_successes(scripts@[j], want_tls, d, t) && results@[j].status
                == spec_session_status(scripts@[j], want_tls, d, t) by {
                if j < i - 1 {
                    assert(results@[j] == prev_results[j]);
                } else {
                    assert(results@[j] == res);
                }
            }
        }
    }
    proof {
        assert(scripts@.take(i as int) =~= scripts@);
    }
    let total = counter.read();
    RunOutcome { results, total }
}

/// The sum of the per-worker counts in a run's outcome.
pub open spec fn spec_sum_sent(results: Seq<SessionResult>) -> nat
    decreases results.len(),
{
    if results.len() == 0 {
        0
    } else {
        (results[0].sent + spec_sum_sent(results.skip(1))) as nat
    }
}

/// No lost updates: when every worker's count is exactly its own session's
/// completed transactions, the final counter total is exactly the sum of
/// the per-worker counts.
pub proof fn lemma_no_lost_updates(
    scripts: Seq<SessionScript>,
    results: Seq<SessionResult>,
    want_tls: bool,
    duration: int,
    op_timeout: int,
)
    requires
        results.len() == scripts.len(),
        forall|i: int|
            0 <= i < scripts.len() ==> (#[trigger] results[i]).sent == spec_session_successes(
                scripts[i],
                want_tls,
                duration,
                op_timeout,
            ),
    ensures
        spec_sum_sent(results) == spec_total_successes(scripts, want_tls, duration, op_timeout),
    decreases scripts.len(),
{
    if scripts.len() == 0 {
    } else {
        assert(results[0].sent == spec_session_successes(
            scripts[0],
            want_tls,
            duration,
            op_timeout,
        ));
        assert forall|i: int| 0 <= i < scripts.skip(1).len() implies (#[trigger] results.skip(
            1,
        )[i]).sent == spec_session_successes(
            scripts.skip(1)[i],
            want_tls,
            duration,
            op_timeout,
        ) by {
            assert(results.skip(1)[i] == results[i + 1]);
            assert(scripts.skip(1)[i] == scripts[i + 1]);
        }
        lemma_no_lost_updates(scripts.skip(1), results.skip(1), want_tls, duration, op_timeout);
    }
}

} // verus!
