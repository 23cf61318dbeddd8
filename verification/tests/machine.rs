use traffic_gen::errors::WorkerError;
use traffic_gen::worker::Action;
use traffic_gen::worker::Event;
use traffic_gen::worker::Phase;
use traffic_gen::worker::counts_success;
use traffic_gen::worker::deadline_check;
use traffic_gen::worker::next_action;
use traffic_gen::worker::step;

#[test]
fn connect_success_starts_handshake() {
    let p = step(Phase::Connecting, Event::ConnectOk, false);
    assert_eq!(p, Phase::Handshaking { banner_done: false });
    assert_eq!(next_action(&p), Action::ReadBanner);
}

#[test]
fn connect_failure_is_terminal() {
    let p = step(Phase::Connecting, Event::ConnectFailed, false);
    assert_eq!(p, Phase::Errored { error: WorkerError::Connect });
    assert_eq!(next_action(&p), Action::Stop);
}

#[test]
fn ready_banner_is_accepted() {
    let p = Phase::Handshaking { banner_done: false };
    let p = step(p, Event::BannerOk { code: 220 }, false);
    assert_eq!(p, Phase::Handshaking { banner_done: true });
    assert_eq!(next_action(&p), Action::Ehlo);
}

#[test]
fn unexpected_banner_code_fails_handshake() {
    let p = Phase::Handshaking { banner_done: false };
    let p = step(p, Event::BannerOk { code: 554 }, false);
    assert_eq!(p, Phase::Errored { error: WorkerError::Handshake });
}

#[test]
fn greeting_without_upgrade_enters_loop() {
    let p = Phase::Handshaking { banner_done: true };
    let p = step(p, Event::EhloOk { offers_starttls: true }, false);
    assert_eq!(p, Phase::Looping);
    assert_eq!(next_action(&p), Action::SendMail);
}

#[test]
fn requested_and_offered_upgrade_is_taken() {
    let p = Phase::Handshaking { banner_done: true };
    let p = step(p, Event::EhloOk { offers_starttls: true }, true);
    assert_eq!(p, Phase::TlsUpgrade);
    assert_eq!(next_action(&p), Action::StartTls);
    let p = step(p, Event::TlsOk, true);
    assert_eq!(p, Phase::Looping);
}

#[test]
fn requested_but_unoffered_upgrade_is_skipped() {
    let p = Phase::Handshaking { banner_done: true };
    let p = step(p, Event::EhloOk { offers_starttls: false }, true);
    assert_eq!(p, Phase::Looping);
}

#[test]
fn failed_upgrade_is_terminal() {
    let p = step(Phase::TlsUpgrade, Event::TlsFailed, true);
    assert_eq!(p, Phase::Errored { error: WorkerError::SecurityUpgrade });
}

#[test]
fn send_timeout_ends_worker_with_timeout_error() {
    let p = step(Phase::Looping, Event::SendTimedOut, false);
    assert_eq!(p, Phase::Errored { error: WorkerError::TransactionTimeout });
    assert_eq!(next_action(&p), Action::Stop);
}

#[test]
fn send_failure_ends_worker_with_transaction_error() {
    let p = step(Phase::Looping, Event::SendFailed, false);
    assert_eq!(p, Phase::Errored { error: WorkerError::Transaction });
}

#[test]
fn deadline_moves_looping_worker_to_draining() {
    assert_eq!(deadline_check(Phase::Looping, 3, 2), Phase::Draining);
    assert_eq!(deadline_check(Phase::Looping, 2, 2), Phase::Looping);
    assert_eq!(deadline_check(Phase::Connecting, 9, 2), Phase::Connecting);
}

#[test]
fn drain_outcomes() {
    assert_eq!(step(Phase::Draining, Event::QuitOk, false), Phase::Terminated);
    assert_eq!(
        step(Phase::Draining, Event::QuitFailed, false),
        Phase::Errored { error: WorkerError::Termination }
    );
    assert_eq!(
        step(Phase::Draining, Event::QuitTimedOut, false),
        Phase::Errored { error: WorkerError::Termination }
    );
}

#[test]
fn errored_is_absorbing() {
    let p = Phase::Errored { error: WorkerError::Transaction };
    assert_eq!(step(p, Event::SendOk, false), p);
    assert_eq!(step(p, Event::ConnectOk, false), p);
}

#[test]
fn only_loop_successes_count() {
    assert!(counts_success(&Phase::Looping, &Event::SendOk));
    assert!(!counts_success(&Phase::Looping, &Event::SendFailed));
    assert!(!counts_success(&Phase::Draining, &Event::QuitOk));
    assert!(!counts_success(
        &Phase::Errored { error: WorkerError::Transaction },
        &Event::SendOk
    ));
}

#[test]
fn error_messages_name_each_failure() {
    assert_eq!(WorkerError::Connect.message(), "connection failed");
    assert_eq!(WorkerError::Handshake.message(), "handshake failed");
    assert_eq!(WorkerError::SecurityUpgrade.message(), "security upgrade failed");
    assert_eq!(WorkerError::TransactionTimeout.message(), "transaction timed out");
    assert_eq!(WorkerError::Transaction.message(), "transaction failed");
    assert_eq!(WorkerError::Termination.message(), "session termination failed");
}
