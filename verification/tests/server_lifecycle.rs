use acme_svc::lifecycle::{
    Lifecycle, Phase, ServerError, ShutdownSignal, SignalAction, SignalWatch,
    SECOND_SIGNAL_EXIT_CODE,
};

#[test]
fn no_services_is_an_error() {
    let err = Lifecycle::start(0, 10_000_000).expect_err("empty");
    assert!(matches!(err, ServerError::NoServices));
}

#[test]
fn signal_drains_cleanly() {
    let mut run = Lifecycle::start(1, 1_000_000_000).expect("one service");
    assert_eq!(run.phase(), Phase::Starting);
    run.readiness_settled(true);
    assert_eq!(run.phase(), Phase::Ready);
    let mut signals = SignalWatch::new();
    assert_eq!(signals.on_signal(ShutdownSignal::Terminate), SignalAction::RequestShutdown);
    run.begin_drain();
    assert_eq!(run.phase(), Phase::Draining);
    assert_eq!(run.finish(true, 0), Ok(()));
    assert_eq!(run.phase(), Phase::Stopped);
}

#[test]
fn service_failure_takes_the_process_down() {
    let mut run = Lifecycle::start(2, 1_000_000_000).expect("two services");
    run.readiness_settled(true);
    run.service_failed("failing".to_string());
    run.service_failed("later".to_string());
    run.begin_drain();
    let err = run.finish(true, 0).expect_err("must fail");
    assert!(
        matches!(&err, ServerError::ServiceFailed { name } if name == "failing"),
        "{err:?}"
    );
}

#[test]
fn grace_period_is_enforced() {
    let mut run = Lifecycle::start(1, 50_000_000).expect("one service");
    run.readiness_settled(true);
    let mut signals = SignalWatch::new();
    assert_eq!(signals.on_signal(ShutdownSignal::Interrupt), SignalAction::RequestShutdown);
    run.begin_drain();
    let err = run.finish(false, 1).expect_err("must exceed grace");
    assert!(
        matches!(err, ServerError::GraceExceeded { remaining: 1, .. }),
        "{err:?}"
    );
    assert_eq!(run.phase(), Phase::Aborted);
    assert_eq!(
        err,
        ServerError::GraceExceeded { grace_ns: 50_000_000, remaining: 1 }
    );
}

#[test]
fn a_timeout_degrades_until_the_late_services_are_ready() {
    let mut run = Lifecycle::start(3, 1).expect("three services");
    run.readiness_settled(false);
    assert_eq!(run.phase(), Phase::Degraded);
    assert!(run.phase().accepts_work());
    run.late_ready();
    assert_eq!(run.phase(), Phase::Ready);
    run.late_ready();
    assert_eq!(run.phase(), Phase::Ready);
    run.begin_drain();
    assert!(!run.phase().accepts_work());
    run.late_ready();
    assert_eq!(run.phase(), Phase::Draining);
}

#[test]
fn a_second_signal_exits_at_once_with_130() {
    let mut signals = SignalWatch::new();
    assert_eq!(signals.on_signal(ShutdownSignal::Interrupt), SignalAction::RequestShutdown);
    assert_eq!(
        signals.on_signal(ShutdownSignal::Terminate),
        SignalAction::ExitImmediately { code: 130 }
    );
    assert_eq!(SECOND_SIGNAL_EXIT_CODE, 130);
    assert_eq!(ShutdownSignal::Terminate.name(), "SIGTERM");
    assert_eq!(ShutdownSignal::Interrupt.name(), "SIGINT");
}

#[test]
fn only_ready_and_degraded_accept_work() {
    for (phase, accepts, name) in [
        (Phase::Starting, false, "starting"),
        (Phase::Ready, true, "ready"),
        (Phase::Degraded, true, "degraded"),
        (Phase::Draining, false, "draining"),
        (Phase::Stopped, false, "stopped"),
        (Phase::Aborted, false, "aborted"),
    ] {
        assert_eq!(phase.accepts_work(), accepts);
        assert_eq!(phase.as_str(), name);
    }
}

#[test]
fn a_run_with_services_starts() {
    let run = Lifecycle::start(1, 0).expect("one service starts");
    assert_eq!(run.phase(), Phase::Starting);
}
