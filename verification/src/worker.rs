//! The session worker: a deadline-bounded transaction loop around one
//! transport session.
//!
//! The worker is modelled as a state machine. The runtime shell performs
//! one outside operation at a time (connect, read the banner, greet,
//! upgrade, send one message, quit), reports what happened as an [`Event`],
//! and every decision — which operation comes next, what a reply code
//! means, when the deadline has passed, when the shared counter is
//! incremented — is taken here, with a contract.
//!
//! [`run_session`] drives the same machine over a recorded transport
//! behaviour ([`SessionScript`]) and is the deterministic model of one
//! worker's whole life: its contract pins the number of counter increments
//! and the terminal status exactly.

use vstd::prelude::*;

use crate::config::QUIT_TIMEOUT_SECS;
use crate::counter::SharedCounter;
use crate::errors::WorkerError;
use crate::smtp::SERVICE_READY_CODE;

verus! {

/// One phase of a worker's life. `Errored` is absorbing: once a worker has
/// failed it never performs another operation.
#[derive(Clone, Copy, Debug, PartialEq, Eq, Structural)]
pub enum Phase {
    /// Opening the transport connection.
    Connecting,
    /// Connected; reading the banner (`banner_done == false`) or sending
    /// the greeting (`banner_done == true`).
    Handshaking { banner_done: bool },
    /// Negotiating the optional transport-security upgrade.
    TlsUpgrade,
    /// Running the deadline-bounded transaction loop.
    Looping,
    /// Deadline reached; sending the polite session termination.
    Draining,
    /// The session ended in good order.
    Terminated,
    /// The worker failed and has stopped for good.
    Errored { error: WorkerError },
}

/// What the transport reported for one awaited operation.
#[derive(Clone, Copy, Debug, PartialEq, Eq, Structural)]
pub enum Event {
    /// The connection was opened.
    ConnectOk,
    /// The connection could not be opened.
    ConnectFailed,
    /// The banner was read and carried this reply code.
    BannerOk { code: u16 },
    /// The banner could not be read.
    BannerFailed,
    /// The greeting succeeded; the peer may have offered a
    /// transport-security upgrade.
    EhloOk { offers_starttls: bool },
    /// The greeting failed.
    EhloFailed,
    /// The transport-security upgrade succeeded.
    TlsOk,
    /// The transport-security upgrade failed.
    TlsFailed,
    /// One transaction completed successfully.
    SendOk,
    /// One transaction failed at the transport level.
    SendFailed,
    /// One transaction exceeded the per-operation timeout.
    SendTimedOut,
    /// The session termination was acknowledged.
    QuitOk,
    /// The session termination failed.
    QuitFailed,
    /// The session termination exceeded its timeout.
    QuitTimedOut,
}

/// The next outside operation a worker should perform.
#[derive(Clone, Copy, Debug, PartialEq, Eq, Structural)]
pub enum Action {
    /// Open the transport connection.
    Connect,
    /// Read the banner.
    ReadBanner,
    /// Send the greeting.
    Ehlo,
    /// Negotiate the transport-security upgrade.
    StartTls,
    /// Synthesize one payload and execute one transaction.
    SendMail,
    /// Send the polite session termination.
    Quit,
    /// Do nothing further.
    Stop,
}

/// The transition relation of the worker machine. An event that does not
/// belong to the current phase leaves the phase unchanged.
pub open spec fn spec_step(p: Phase, ev: Event, want_tls: bool) -> Phase {
    match (p, ev) {
        (Phase::Connecting, Event::ConnectOk) => Phase::Handshaking { banner_done: false },
        (Phase::Connecting, Event::ConnectFailed) => Phase::Errored {
            error: WorkerError::Connect,
        },
        (Phase::Handshaking { banner_done: false }, Event::BannerOk { code }) => if code
            == SERVICE_READY_CODE {
            Phase::Handshaking { banner_done: true }
        } else {
            Phase::Errored { error: WorkerError::Handshake }
        },
        (Phase::Handshaking { banner_done: false }, Event::BannerFailed) => Phase::Errored {
            error: WorkerError::Handshake,
        },
        (Phase::Handshaking { banner_done: true }, Event::EhloOk { offers_starttls }) => if want_tls
            && offers_starttls {
            Phase::TlsUpgrade
        } else {
            Phase::Looping
        },
        (Phase::Handshaking { banner_done: true }, Event::EhloFailed) => Phase::Errored {
            error: WorkerError::Handshake,
        },
        (Phase::TlsUpgrade, Event::TlsOk) => Phase::Looping,
        (Phase::TlsUpgrade, Event::TlsFailed) => Phase::Errored {
            error: WorkerError::SecurityUpgrade,
        },
        (Phase::Looping, Event::SendOk) => Phase::Looping,
        (Phase::Looping, Event::SendFailed) => Phase::Errored { error: WorkerError::Transaction },
        (Phase::Looping, Event::SendTimedOut) => Phase::Errored {
            error: WorkerError::TransactionTimeout,
        },
        (Phase::Draining, Event::QuitOk) => Phase::Terminated,
        (Phase::Draining, Event::QuitFailed) => Phase::Errored {
            error: WorkerError::Termination,
        },
        (Phase::Draining, Event::QuitTimedOut) => Phase::Errored {
            error: WorkerError::Termination,
        },
        _ => p,
    }
}

/// Advance the machine by one reported event.
pub fn step(p: Phase, ev: Event, want_tls: bool) -> (r: Phase)
    ensures
        r == spec_step(p, ev, want_tls),
{
    match (p, ev) {
        (Phase::Connecting, Event::ConnectOk) => Phase::Handshaking { banner_done: false },
        (Phase::Connecting, Event::ConnectFailed) => Phase::Errored {
            error: WorkerError::Connect,
        },
        (Phase::Handshaking { banner_done: false }, Event::BannerOk { code }) => if code
            == SERVICE_READY_CODE {
            Phase::Handshaking { banner_done: true }
        } else {
            Phase::Errored { error: WorkerError::Handshake }
        },
        (Phase::Handshaking { banner_done: false }, Event::BannerFailed) => Phase::Errored {
            error: WorkerError::Handshake,
        },
        (Phase::Handshaking { banner_done: true }, Event::EhloOk { offers_starttls }) => if want_tls
            && offers_starttls {
            Phase::TlsUpgrade
        } else {
            Phase::Looping
        },
        (Phase::Handshaking { banner_done: true }, Event::EhloFailed) => Phase::Errored {
            error: WorkerError::Handshake,
        },
        (Phase::TlsUpgrade, Event::TlsOk) => Phase::Looping,
        (Phase::TlsUpgrade, Event::TlsFailed) => Phase::Errored {
            error: WorkerError::SecurityUpgrade,
        },
        (Phase::Looping, Event::SendOk) => Phase::Looping,
        (Phase::Looping, Event::SendFailed) => Phase::Errored { error: WorkerError::Transaction },
        (Phase::Looping, Event::SendTimedOut) => Phase::Errored {
            error: WorkerError::TransactionTimeout,
        },
        (Phase::Draining, Event::QuitOk) => Phase::Terminated,
        (Phase::Draining, Event::QuitFailed) => Phase::Errored {
            error: WorkerError::Termination,
        },
        (Phase::Draining, Event::QuitTimedOut) => Phase::Errored {
            error: WorkerError::Termination,
        },
        _ => p,
    }
}

/// Where the deadline check sends a looping worker: past the run duration
/// it stops starting transactions and moves on to the polite termination.
/// Phases other than `Looping` are not affected by the clock.
pub open spec fn spec_deadline_check(p: Phase, elapsed_secs: u64, duration_secs: u64) -> Phase {
    if p == (Phase::Looping) && elapsed_secs > duration_secs {
        Phase::Draining
    } else {
        p
    }
}

/// Re-check the run deadline before starting another transaction.
pub fn deadline_check(p: Phase, elapsed_secs: u64, duration_secs: u64) -> (r: Phase)
    ensures
        r == spec_deadline_check(p, elapsed_secs, duration_secs),
{
    if matches!(p, Phase::Looping) && elapsed_secs > duration_secs {
        Phase::Draining
    } else {
        p
    }
}

/// The outside operation owed in each phase.
pub open spec fn spec_next_action(p: Phase) -> Action {
    match p {
        Phase::Connecting => Action::Connect,
        Phase::Handshaking { banner_done: false } => Action::ReadBanner,
        Phase::Handshaking { banner_done: true } => Action::Ehlo,
        Phase::TlsUpgrade => Action::StartTls,
        Phase::Looping => Action::SendMail,
        Phase::Draining => Action::Quit,
        Phase::Terminated => Action::Stop,
        Phase::Errored { .. } => Action::Stop,
    }
}

/// What a worker should do next.
pub fn next_action(p: &Phase) -> (r: Action)
    ensures
        r == spec_next_action(*p),
{
    match p {
        Phase::Connecting => Action::Connect,
        Phase::Handshaking { banner_done: false } => Action::ReadBanner,
        Phase::Handshaking { banner_done: true } => Action::Ehlo,
        Phase::TlsUpgrade => Action::StartTls,
        Phase::Looping => Action::SendMail,
        Phase::Draining => Action::Quit,
        Phase::Terminated => Action::Stop,
        Phase::Errored { .. } => Action::Stop,
    }
}

/// Whether an event earns one increment of the shared counter: exactly a
/// successful transaction observed while the worker is in its loop.
pub open spec fn spec_counts_success(p: Phase, ev: Event) -> bool {
    p == (Phase::Looping) && ev == (Event::SendOk)
}

/// Decide whether the event that was just reported adds one completed
/// transaction to the shared counter.
pub fn counts_success(p: &Phase, ev: &Event) -> (r: bool)
    ensures
        r == spec_counts_success(*p, *ev),
{
    matches!(p, Phase::Looping) && matches!(ev, Event::SendOk)
}

/// A failed worker stays failed: no event moves it anywhere else.
pub proof fn lemma_errored_absorbing(e: WorkerError, ev: Event, want_tls: bool)
    ensures
        spec_step(Phase::Errored { error: e }, ev, want_tls) == (Phase::Errored { error: e }),
{
}

/// A terminated worker stays terminated.
pub proof fn lemma_terminated_absorbing(ev: Event, want_tls: bool)
    ensures
        spec_step(Phase::Terminated, ev, want_tls) == Phase::Terminated,
{
}

/// Neither a failed nor a terminated worker ever earns another counter
/// increment.
pub proof fn lemma_stopped_never_counts(p: Phase, ev: Event)
    requires
        (p matches Phase::Errored { .. }) || p == Phase::Terminated,
    ensures
        (!spec_counts_success(p, ev)),
{
}

/// How one transaction attempt goes: how long the call blocks, in
/// seconds, and whether the transport reports success.
#[derive(Clone, Copy, Debug, PartialEq, Eq, Structural)]
pub struct TxAttempt {
    /// Seconds the transaction call blocks before returning.
    pub cost_secs: u64,
    /// Whether the transport reports the transaction as completed.
    pub ok: bool,
}

/// The behaviour one transport session exhibits over a whole worker life:
/// what a fake transport is scripted to do, or what a live one did.
#[derive(Clone, Debug)]
pub struct SessionScript {
    /// Whether the connection can be opened.
    pub connect_ok: bool,
    /// Whether a banner line can be read at all.
    pub banner_readable: bool,
    /// The reply code the banner carries.
    pub banner_code: u16,
    /// Whether the greeting succeeds.
    pub ehlo_ok: bool,
    /// Whether the peer offers the transport-security upgrade.
    pub offers_starttls: bool,
    /// Whether the upgrade succeeds, if attempted.
    pub tls_ok: bool,
    /// One entry per transaction the transport would serve, in order.
    pub attempts: Vec<TxAttempt>,
    /// Whether the final termination command is acknowledged.
    pub quit_ok: bool,
    /// Seconds the termination command blocks.
    pub quit_cost_secs: u64,
}

/// How a whole session ended.
#[derive(Clone, Copy, Debug, PartialEq, Eq, Structural)]
pub enum SessionStatus {
    /// The deadline passed and the polite termination was acknowledged.
    Completed,
    /// The worker failed and stopped.
    Failed {
        /// The terminal error.
        error: WorkerError,
    },
    /// The transport behaviour ran out before the deadline passed: the
    /// worker was still mid-loop when the run window closed on it.
    InFlight,
}

/// How the transaction loop was left.
#[derive(Clone, Copy, Debug, PartialEq, Eq, Structural)]
pub enum LoopExit {
    /// The run deadline passed; the worker moves on to the termination.
    Deadline,
    /// A transaction failed or timed out; the worker stops.
    Failed {
        /// The terminal error.
        error: WorkerError,
    },
    /// The recorded transport behaviour was exhausted mid-loop.
    Exhausted,
}

/// The phase a worker reaches once the session set-up is over: its loop,
/// or the error that stopped it on the way there.
pub open spec fn spec_handshake(s: SessionScript, want_tls: bool) -> Phase {
    if !s.connect_ok {
        Phase::Errored { error: WorkerError::Connect }
    } else if !s.banner_readable {
        Phase::Errored { error: WorkerError::Handshake }
    } else if s.banner_code != SERVICE_READY_CODE {
        Phase::Errored { error: WorkerError::Handshake }
    } else if !s.ehlo_ok {
        Phase::Errored { error: WorkerError::Handshake }
    } else if want_tls && s.offers_starttls && !s.tls_ok {
        Phase::Errored { error: WorkerError::SecurityUpgrade }
    } else {
        Phase::Looping
    }
}

/// How many transactions the loop completes: attempts are taken in order,
/// each only while the elapsed time has not passed the duration, and the
/// first attempt that fails or overruns the per-operation timeout ends the
/// count.
pub open spec fn spec_loop_successes(
    attempts: Seq<TxAttempt>,
    elapsed: int,
    duration: int,
    op_timeout: int,
) -> nat
    decreases attempts.len(),
{
    if elapsed > duration || attempts.len() == 0 {
        0
    } else if attempts[0].cost_secs > op_timeout || !attempts[0].ok {
        0
    } else {
        1 + spec_loop_successes(
            attempts.skip(1),
            elapsed + attempts[0].cost_secs,
            duration,
            op_timeout,
        )
    }
}

/// How the transaction loop is left for a given transport behaviour.
pub open spec fn spec_loop_exit(
    attempts: Seq<TxAttempt>,
    elapsed: int,
    duration: int,
    op_timeout: int,
) -> LoopExit
    decreases attempts.len(),
{
    if elapsed > duration {
        LoopExit::Deadline
    } else if attempts.len() == 0 {
        LoopExit::Exhausted
    } else if attempts[0].cost_secs > op_timeout {
        LoopExit::Failed { error: WorkerError::TransactionTimeout }
    } else if !attempts[0].ok {
        LoopExit::Failed { error: WorkerError::Transaction }
    } else {
        spec_loop_exit(attempts.skip(1), elapsed + attempts[0].cost_secs, duration, op_timeout)
    }
}

/// The number of shared-counter increments one whole session earns: zero
/// unless the session set-up reaches the loop.
pub open spec fn spec_session_successes(
    s: SessionScript,
    want_tls: bool,
    duration: int,
    op_timeout: int,
) -> nat {
    if spec_handshake(s, want_tls) == (Phase::Looping) {
        spec_loop_successes(s.attempts@, 0, duration, op_timeout)
    } else {
        0
    }
}

/// The terminal status of one whole session.
pub open spec fn spec_session_status(
    s: SessionScript,
    want_tls: bool,
    duration: int,
    op_timeout: int,
) -> SessionStatus {
    match spec_handshake(s, want_tls) {
        Phase::Errored { error } => SessionStatus::Failed { error },
        _ => match spec_loop_exit(s.attempts@, 0, duration, op_timeout) {
            LoopExit::Deadline => if s.quit_cost_secs > QUIT_TIMEOUT_SECS {
                SessionStatus::Failed { error: WorkerError::Termination }
            } else if !s.quit_ok {
                SessionStatus::Failed { error: WorkerError::Termination }
            } else {
                SessionStatus::Completed
            },
            LoopExit::Failed { error } => SessionStatus::Failed { error },
            LoopExit::Exhausted => SessionStatus::InFlight,
        },
    }
}

/// What one worker's run produced: its counter increments and how it
/// ended.
#[derive(Clone, Copy, Debug, PartialEq, Eq, Structural)]
pub struct SessionResult {
    /// Successful transactions, all counted on the shared counter.
    pub sent: usize,
    /// The terminal status.
    pub status: SessionStatus,
}

/// The transaction loop over a recorded transport behaviour, from attempt
/// `i` on, with `elapsed` seconds already spent. Returns the number of
/// completed transactions (each already counted on the shared counter),
/// how the loop was left, and the elapsed time at exit.
fn run_attempts(
    attempts: &Vec<TxAttempt>,
    i: usize,
    elapsed: u64,
    duration_secs: u64,
    op_timeout_secs: u64,
    counter: &mut SharedCounter,
) -> (r: (usize, LoopExit, u64))
    requires
        i <= attempts.len(),
        duration_secs <= u64::MAX - op_timeout_secs,
        old(counter)@ + spec_loop_successes(
            attempts@.skip(i as int),
            elapsed as int,
            duration_secs as int,
            op_timeout_secs as int,
        ) <= usize::MAX,
    ensures
        r.0 == spec_loop_successes(
            attempts@.skip(i as int),
            elapsed as int,
            duration_secs as int,
            op_timeout_secs as int,
        ),
        r.1 == spec_loop_exit(
            attempts@.skip(i as int),
            elapsed as int,
            duration_secs as int,
            op_timeout_secs as int,
        ),
        final(counter)@ == old(counter)@ + r.0,
        r.0 <= attempts@.len() - i,
        r.1 == (LoopExit::Deadline) ==> r.2 > duration_secs,
        (r.1 matches LoopExit::Failed { error } ==> error == WorkerError::TransactionTimeout
            || error == WorkerError::Transaction),
    decreases attempts.len() - i,
{
    if elapsed > duration_secs {
        (0, LoopExit::Deadline, elapsed)
    } else if i == attempts.len() {
        proof {
            assert(attempts@.skip(i as int) =~= Seq::<TxAttempt>::empty());
        }
        (0, LoopExit::Exhausted, elapsed)
    } else {
        let a = attempts[i];
        proof {
            assert(attempts@.skip(i as int)[0] == attempts@[i as int]);
            assert(attempts@.skip(i as int).skip(1) =~= attempts@.skip(i as int + 1));
        }
        if a.cost_secs > op_timeout_secs {
            (0, LoopExit::Failed { error: WorkerError::TransactionTimeout }, elapsed)
        } else if !a.ok {
            (0, LoopExit::Failed { error: WorkerError::Transaction }, elapsed)
        } else {
            counter.increment();
            let rest = run_attempts(
                attempts,
                i + 1,
                elapsed + a.cost_secs,
                duration_secs,
                op_timeout_secs,
                counter,
            );
            (rest.0 + 1, rest.1, rest.2)
        }
    }
}

/// One worker's whole life over a recorded transport behaviour, driven
/// through the worker machine: session set-up, the deadline-bounded
/// transaction loop, and the polite termination. Every completed
/// transaction increments the shared counter exactly once; nothing ever
/// decrements it.
pub fn run_session(
    script: &SessionScript,
    want_tls: bool,
    duration_secs: u64,
    op_timeout_secs: u64,
    counter: &mut SharedCounter,
) -> (r: SessionResult)
    requires
        duration_secs <= u64::MAX - op_timeout_secs,
        old(counter)@ + spec_session_successes(
            *script,
            want_tls,
            duration_secs as int,
            op_timeout_secs as int,
        ) <= usize::MAX,
    ensures
        r.sent == spec_session_successes(
            *script,
            want_tls,
            duration_secs as int,
            op_timeout_secs as int,
        ),
        r.status == spec_session_status(
            *script,
            want_tls,
            duration_secs as int,
            op_timeout_secs as int,
        ),
        final(counter)@ == old(counter)@ + r.sent,
        final(counter)@ >= old(counter)@,
{
    let ghost d = duration_secs as int;
    let ghost t = op_timeout_secs as int;
    let mut phase = Phase::Connecting;
    let ev = if script.connect_ok {
        Event::ConnectOk
    } else {
        Event::ConnectFailed
    };
    phase = step(phase, ev, want_tls);
    if matches!(phase, Phase::Handshaking { banner_done: false }) {
        let ev = if script.banner_readable {
            Event::BannerOk { code: script.banner_code }
        } else {
            Event::BannerFailed
        };
        phase = step(phase, ev, want_tls);
    }
    if matches!(phase, Phase::Handshaking { banner_done: true }) {
        let ev = if script.ehlo_ok {
            Event::EhloOk { offers_starttls: script.offers_starttls }
        } else {
            Event::EhloFailed
        };
        phase = step(phase, ev, want_tls);
    }
    if matches!(phase, Phase::TlsUpgrade) {
        let ev = if script.tls_ok {
            Event::TlsOk
        } else {
            Event::TlsFailed
        };
        phase = step(phase, ev, want_tls);
    }
    proof {
        assert(phase == spec_handshake(*script, want_tls));
    }
    let mut sent: usize = 0;
    if matches!(phase, Phase::Looping) {
        proof {
            assert(script.attempts@.skip(0) =~= script.attempts@);
        }
        let looped = run_attempts(
            &script.attempts,
            0,
            0,
            duration_secs,
            op_timeout_secs,
            counter,
        );
        sent = looped.0;
        match looped.1 {
            LoopExit::Deadline => {
                phase = deadline_check(phase, looped.2, duration_secs);
                let ev = if script.quit_cost_secs > QUIT_TIMEOUT_SECS {
                    Event::QuitTimedOut
                } else if script.quit_ok {
                    Event::QuitOk
                } else {
                    Event::QuitFailed
                };
                phase = step(phase, ev, want_tls);
            },
            LoopExit::Failed { error } => {
                let ev = if matches!(error, WorkerError::TransactionTimeout) {
                    Event::SendTimedOut
                } else {
                    Event::SendFailed
                };
                phase = step(phase, ev, want_tls);
            },
            LoopExit::Exhausted => {},
        }
    }
    let status = match phase {
        Phase::Errored { error } => SessionStatus::Failed { error },
        Phase::Terminated => SessionStatus::Completed,
        _ => SessionStatus::InFlight,
    };
    SessionResult { sent, status }
}

/// The completed transactions of any prefix of the loop never exceed those
/// of the whole loop: successes only accumulate.
pub proof fn lemma_successes_monotone(
    attempts: Seq<TxAttempt>,
    k: int,
    elapsed: int,
    duration: int,
    op_timeout: int,
)
    requires
        0 <= k <= attempts.len(),
    ensures
        spec_loop_successes(attempts.take(k), elapsed, duration, op_timeout)
            <= spec_loop_successes(attempts, elapsed, duration, op_timeout),
    decreases attempts.len(),
{
    if elapsed > duration {
    } else if k == 0 {
        assert(attempts.take(0) =~= Seq::<TxAttempt>::empty());
    } else {
        assert(attempts.take(k)[0] == attempts[0]);
        if attempts[0].cost_secs > op_timeout || !attempts[0].ok {
        } else {
            assert(attempts.take(k).skip(1) =~= attempts.skip(1).take(k - 1));
            lemma_successes_monotone(
                attempts.skip(1),
                k - 1,
                elapsed + attempts[0].cost_secs,
                duration,
                op_timeout,
            );
        }
    }
}

/// The shared counter is monotonically non-decreasing throughout a
/// session: starting from `c`, its value after the first `j` attempts is
/// at least `c` and at most its value after the first `k` attempts, for
/// any `j <= k`.
pub proof fn lemma_counter_monotone(
    attempts: Seq<TxAttempt>,
    c: nat,
    j: int,
    k: int,
    duration: int,
    op_timeout: int,
)
    requires
        0 <= j <= k <= attempts.len(),
    ensures
        c <= c + spec_loop_successes(attempts.take(j), 0, duration, op_timeout),
        c + spec_loop_successes(attempts.take(j), 0, duration, op_timeout) <= c
            + spec_loop_successes(attempts.take(k), 0, duration, op_timeout),
{
    assert(attempts.take(k).take(j) =~= attempts.take(j));
    lemma_successes_monotone(attempts.take(k), j, 0, duration, op_timeout);
}

/// A worker whose connection or handshake fails contributes exactly zero
/// increments to the shared counter.
pub proof fn lemma_failed_setup_contributes_zero(
    s: SessionScript,
    want_tls: bool,
    duration: int,
    op_timeout: int,
)
    requires
        spec_handshake(s, want_tls) != (Phase::Looping),
    ensures
        spec_session_successes(s, want_tls, duration, op_timeout) == 0,
{
}

/// Seconds the first `k` attempts spend in total.
pub open spec fn spec_prefix_cost(attempts: Seq<TxAttempt>, k: int) -> int
    decreases k,
{
    if k <= 0 || attempts.len() == 0 {
        0
    } else {
        attempts[0].cost_secs + spec_prefix_cost(attempts.skip(1), k - 1)
    }
}

/// A transaction that overruns the per-operation timeout stops its worker
/// with the timeout error: when the first `k` attempts succeed in time and
/// attempt `k` overruns before the deadline has passed, the loop ends with
/// `TransactionTimeout` after exactly `k` completed transactions.
pub proof fn lemma_timeout_stops_worker(
    attempts: Seq<TxAttempt>,
    k: int,
    elapsed: int,
    duration: int,
    op_timeout: int,
)
    requires
        0 <= k < attempts.len(),
        forall|j: int|
            0 <= j < k ==> (#[trigger] attempts[j]).ok && attempts[j].cost_secs <= op_timeout,
        attempts[k].cost_secs > op_timeout,
        0 <= elapsed,
        elapsed + spec_prefix_cost(attempts, k) <= duration,
    ensures
        spec_loop_exit(attempts, elapsed, duration, op_timeout) == (LoopExit::Failed {
            error: WorkerError::TransactionTimeout,
        }),
        spec_loop_successes(attempts, elapsed, duration, op_timeout) == k,
    decreases k,
{
    if k == 0 {
    } else {
        assert(attempts[0].ok && attempts[0].cost_secs <= op_timeout);
        assert(spec_prefix_cost(attempts, k) == attempts[0].cost_secs + spec_prefix_cost(
            attempts.skip(1),
            k - 1,
        ));
        assert(attempts.skip(1)[k - 1] == attempts[k]);
        assert forall|j: int| 0 <= j < k - 1 implies (#[trigger] attempts.skip(1)[j]).ok
            && attempts.skip(1)[j].cost_secs <= op_timeout by {
            assert(attempts.skip(1)[j] == attempts[j + 1]);
        }
        lemma_timeout_stops_worker(
            attempts.skip(1),
            k - 1,
            elapsed + attempts[0].cost_secs,
            duration,
            op_timeout,
        );
    }
}

} // verus!
