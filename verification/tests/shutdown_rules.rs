use act_api_server::shutdown::{
    begin_shutdown, elapsed_ms, finish_drain, force_shutdown, grace_ms, Action, Config, Phase,
    server_completed_first, ShutdownError, State, Trigger, DEFAULT_SHUTDOWN_GRACE_MS,
};

#[test]
fn tty_second_sigint_forces() {
    let first = State::new(true).apply(Trigger::Sigint);
    assert_eq!(first.action, Action::BeginGraceful);
    assert!(first.show_force_hint);

    let second = first.state.apply(Trigger::Sigint);
    assert_eq!(second.action, Action::Force);
    assert_eq!(second.state.phase, Phase::Forcing);
}

#[test]
fn tty_eof_only_forces_after_sigint() {
    let before = State::new(true).apply(Trigger::StdinEof);
    assert_eq!(before.action, Action::Ignore);

    let first = State::new(true).apply(Trigger::Sigint);
    let eof = first.state.apply(Trigger::StdinEof);
    assert_eq!(eof.action, Action::Force);
}

#[test]
fn non_tty_one_sigint_begins_graceful_without_force_hint() {
    let first = State::new(false).apply(Trigger::Sigint);
    assert_eq!(first.action, Action::BeginGraceful);
    assert!(!first.show_force_hint);
}

#[test]
fn sigterm_always_begins_graceful_without_force_hint() {
    for stdin_is_tty in [false, true] {
        let first = State::new(stdin_is_tty).apply(Trigger::Sigterm);
        assert_eq!(first.action, Action::BeginGraceful);
        assert!(!first.show_force_hint);
    }
}

#[test]
fn graceful_completion_reaches_complete_phase() {
    let first = State::new(false).apply(Trigger::Sigterm);
    let complete = first.state.apply(Trigger::GracefulComplete);
    assert_eq!(complete.action, Action::Complete);
    assert_eq!(complete.state.phase, Phase::Complete);
}

#[test]
fn eof_after_sigterm_is_ignored() {
    let first = State::new(true).apply(Trigger::Sigterm);
    let eof = first.state.apply(Trigger::StdinEof);
    assert_eq!(eof.action, Action::Ignore);
    assert_eq!(eof.state, first.state);
}

#[test]
fn final_phases_ignore_every_trigger() {
    let forcing = State::new(true)
        .apply(Trigger::Sigint)
        .state
        .apply(Trigger::Timeout)
        .state;
    assert_eq!(forcing.phase, Phase::Forcing);
    for trigger in [
        Trigger::Sigint,
        Trigger::Sigterm,
        Trigger::StdinEof,
        Trigger::Timeout,
        Trigger::GracefulComplete,
    ] {
        let t = forcing.apply(trigger);
        assert_eq!(t.action, Action::Ignore);
        assert_eq!(t.state, forcing);
    }
}

#[test]
fn first_trigger_must_be_a_signal() {
    assert_eq!(
        begin_shutdown(false, Trigger::Timeout).unwrap_err(),
        ShutdownError::InvalidFirstTrigger(Trigger::Timeout)
    );
    let draining = begin_shutdown(true, Trigger::Sigint).expect("signal");
    assert_eq!(draining.signal_count, 1);
    assert!(draining.show_force_hint);
    assert_eq!(draining.state.phase, Phase::Draining);
}

#[test]
fn drain_completion_and_forcing() {
    let draining = begin_shutdown(false, Trigger::Sigterm).expect("signal");
    let (state, outcome) = finish_drain(draining);
    assert_eq!(state.phase, Phase::Complete);
    assert!(!outcome.forced);
    assert_eq!(outcome.trigger, Trigger::Sigterm);

    let (state, count, outcome) = force_shutdown(draining, Trigger::Sigint).expect("force");
    assert_eq!(state.phase, Phase::Forcing);
    assert_eq!(count, 2);
    assert!(outcome.forced);
    let (_, count, _) = force_shutdown(draining, Trigger::Timeout).expect("deadline");
    assert_eq!(count, 1);
    assert_eq!(
        force_shutdown(draining, Trigger::StdinEof).unwrap_err(),
        ShutdownError::InvalidTransition(Phase::Draining, Trigger::StdinEof)
    );
}

#[test]
fn grace_period_setting() {
    assert_eq!(Config::from_values(None, false).grace_ms, DEFAULT_SHUTDOWN_GRACE_MS);
    assert_eq!(Config::from_values(Some("2500"), true).grace_ms, 2500);
    assert_eq!(Config::from_values(Some("0"), true).grace_ms, DEFAULT_SHUTDOWN_GRACE_MS);
    assert_eq!(Config::from_values(Some("soon"), true).grace_ms, DEFAULT_SHUTDOWN_GRACE_MS);
    assert!(Config::from_values(None, true).stdin_is_tty);
}

#[test]
fn millisecond_counts_saturate() {
    assert_eq!(grace_ms(10_000), 10_000);
    assert_eq!(grace_ms(u128::from(u64::MAX) + 1), u64::MAX);
    assert_eq!(elapsed_ms(42), 42);
    assert_eq!(elapsed_ms(u128::MAX), u64::MAX);
}

#[test]
fn names_of_phases_and_triggers() {
    assert_eq!(Phase::Draining.as_str(), "draining");
    assert_eq!(Trigger::StdinEof.as_str(), "stdin_eof");
    assert!(Trigger::Sigterm.is_signal());
    assert!(!Trigger::Timeout.is_signal());
}

#[test]
fn server_finishing_first_is_an_unforced_completion() {
    let outcome = server_completed_first();
    assert!(!outcome.forced);
    assert_eq!(outcome.trigger, Trigger::GracefulComplete);
}
