use traffic_gen::counter::SharedCounter;
use traffic_gen::errors::WorkerError;
use traffic_gen::orchestrate::execute_run;
use traffic_gen::worker::run_session;
use traffic_gen::worker::SessionScript;
use traffic_gen::worker::SessionStatus;
use traffic_gen::worker::TxAttempt;

fn good_script(attempts: Vec<TxAttempt>) -> SessionScript {
    SessionScript {
        connect_ok: true,
        banner_readable: true,
        banner_code: 220,
        ehlo_ok: true,
        offers_starttls: false,
        tls_ok: true,
        attempts,
        quit_ok: true,
        quit_cost_secs: 0,
    }
}

fn instant_successes(n: usize) -> Vec<TxAttempt> {
    (0..n).map(|_| TxAttempt { cost_secs: 0, ok: true }).collect()
}

#[test]
fn all_instant_successes_are_all_counted() {
    // Four workers, each scripted to complete eight instant transactions
    // inside a two-second window: every one of them lands on the counter.
    let scripts: Vec<SessionScript> = (0..4).map(|_| good_script(instant_successes(8))).collect();
    let outcome = execute_run(&scripts, false, 2, 300);
    assert_eq!(outcome.results.len(), 4);
    assert_eq!(outcome.total, 4 * 8);
    assert!(outcome.total > 0);
    for r in &outcome.results {
        assert_eq!(r.sent, 8);
        assert_eq!(r.status, SessionStatus::InFlight);
    }
}

#[test]
fn all_failing_transactions_count_nothing() {
    // Every worker's first transaction fails: the counter stays at zero
    // and every worker reports the transaction error.
    let scripts: Vec<SessionScript> =
        (0..4).map(|_| good_script(vec![TxAttempt { cost_secs: 0, ok: false }])).collect();
    let outcome = execute_run(&scripts, false, 2, 300);
    assert_eq!(outcome.results.len(), 4);
    assert_eq!(outcome.total, 0);
    for r in &outcome.results {
        assert_eq!(r.sent, 0);
        assert_eq!(r.status, SessionStatus::Failed { error: WorkerError::Transaction });
    }
}

#[test]
fn timeout_stops_one_worker_and_spares_siblings() {
    // The second worker's third transaction overruns the per-operation
    // timeout: it keeps its first two successes, ends with the timeout
    // error, and the siblings are untouched.
    let mut attempts = instant_successes(2);
    attempts.push(TxAttempt { cost_secs: 301, ok: true });
    attempts.extend(instant_successes(5));
    let scripts = vec![
        good_script(instant_successes(6)),
        good_script(attempts),
        good_script(instant_successes(3)),
    ];
    let outcome = execute_run(&scripts, false, 1000, 300);
    assert_eq!(outcome.results[0].sent, 6);
    assert_eq!(outcome.results[1].sent, 2);
    assert_eq!(
        outcome.results[1].status,
        SessionStatus::Failed { error: WorkerError::TransactionTimeout }
    );
    assert_eq!(outcome.results[2].sent, 3);
    assert_eq!(outcome.total, 6 + 2 + 3);
}

#[test]
fn failed_connect_contributes_zero() {
    let mut bad = good_script(instant_successes(9));
    bad.connect_ok = false;
    let scripts = vec![bad, good_script(instant_successes(4))];
    let outcome = execute_run(&scripts, false, 2, 300);
    assert_eq!(outcome.results[0].sent, 0);
    assert_eq!(outcome.results[0].status, SessionStatus::Failed { error: WorkerError::Connect });
    assert_eq!(outcome.results[1].sent, 4);
    assert_eq!(outcome.total, 4);
}

#[test]
fn bad_banner_and_bad_greeting_fail_handshake() {
    let mut bad_code = good_script(instant_successes(1));
    bad_code.banner_code = 421;
    let mut unreadable = good_script(instant_successes(1));
    unreadable.banner_readable = false;
    let mut bad_ehlo = good_script(instant_successes(1));
    bad_ehlo.ehlo_ok = false;
    for script in [bad_code, unreadable, bad_ehlo] {
        let mut counter = SharedCounter::new();
        let r = run_session(&script, false, 2, 300, &mut counter);
        assert_eq!(r.sent, 0);
        assert_eq!(r.status, SessionStatus::Failed { error: WorkerError::Handshake });
        assert_eq!(counter.read(), 0);
    }
}

#[test]
fn failed_upgrade_fails_worker_only_when_offered_and_requested() {
    let mut script = good_script(instant_successes(5));
    script.offers_starttls = true;
    script.tls_ok = false;
    // Requested and offered: the failing upgrade stops the worker.
    let mut counter = SharedCounter::new();
    let r = run_session(&script, true, 2, 300, &mut counter);
    assert_eq!(r.sent, 0);
    assert_eq!(r.status, SessionStatus::Failed { error: WorkerError::SecurityUpgrade });
    // Not requested: the broken upgrade is never attempted.
    let mut counter = SharedCounter::new();
    let r = run_session(&script, false, 2, 300, &mut counter);
    assert_eq!(r.sent, 5);
    assert_eq!(counter.read(), 5);
}

#[test]
fn deadline_ends_loop_and_quit_is_sent() {
    // One-second transactions against a two-second window: the fourth
    // iteration finds the deadline passed, the loop stops at three, and
    // the polite termination completes the session.
    let script = good_script(vec![
        TxAttempt { cost_secs: 1, ok: true },
        TxAttempt { cost_secs: 1, ok: true },
        TxAttempt { cost_secs: 1, ok: true },
        TxAttempt { cost_secs: 1, ok: true },
    ]);
    let mut counter = SharedCounter::new();
    let r = run_session(&script, false, 2, 300, &mut counter);
    assert_eq!(r.sent, 3);
    assert_eq!(r.status, SessionStatus::Completed);
}

#[test]
fn slow_termination_reports_termination_error() {
    let mut script = good_script(vec![TxAttempt { cost_secs: 3, ok: true }]);
    script.quit_cost_secs = 2;
    let mut counter = SharedCounter::new();
    let r = run_session(&script, false, 2, 300, &mut counter);
    // The single transaction finishes, then the deadline has passed and
    // the termination command overruns its one-second allowance.
    assert_eq!(r.sent, 1);
    assert_eq!(r.status, SessionStatus::Failed { error: WorkerError::Termination });
}

#[test]
fn refused_termination_reports_termination_error() {
    let mut script = good_script(vec![TxAttempt { cost_secs: 3, ok: true }]);
    script.quit_ok = false;
    let mut counter = SharedCounter::new();
    let r = run_session(&script, false, 2, 300, &mut counter);
    assert_eq!(r.status, SessionStatus::Failed { error: WorkerError::Termination });
}

#[test]
fn counter_accumulates_across_sessions() {
    let mut counter = SharedCounter::new();
    assert_eq!(counter.read(), 0);
    let first = good_script(instant_successes(2));
    let second = good_script(instant_successes(3));
    run_session(&first, false, 2, 300, &mut counter);
    assert_eq!(counter.read(), 2);
    run_session(&second, false, 2, 300, &mut counter);
    assert_eq!(counter.read(), 5);
}

#[test]
fn counter_increment_is_one_at_a_time() {
    let mut counter = SharedCounter::new();
    for expected in 1..=10 {
        counter.increment();
        assert_eq!(counter.read(), expected);
    }
}

#[test]
fn empty_run_has_no_workers_and_no_count() {
    let scripts: Vec<SessionScript> = Vec::new();
    let outcome = execute_run(&scripts, false, 2, 300);
    assert_eq!(outcome.results.len(), 0);
    assert_eq!(outcome.total, 0);
}
