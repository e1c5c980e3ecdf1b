use std::time::Duration;

use signal_mod::{Error, InstallState, ShutdownReason, ShutdownState, Signal, WaitStep};

#[test]
fn token_observes_trigger() {
    let mut state = ShutdownState::new();
    assert!(!state.is_initiated());
    assert_eq!(state.reason(), None);
    assert!(state.trigger(ShutdownReason::Requested));
    assert!(state.is_initiated());
    assert_eq!(state.reason(), Some(ShutdownReason::Requested));
    assert!(!state.trigger(ShutdownReason::Forced));
    assert_eq!(state.reason(), Some(ShutdownReason::Requested));
}

#[test]
fn later_triggers_all_lose() {
    let mut state = ShutdownState::new();
    assert!(state.trigger(ShutdownReason::Signal(Signal::Terminate)));
    for r in [
        ShutdownReason::Requested,
        ShutdownReason::Forced,
        ShutdownReason::Timeout,
        ShutdownReason::Error,
        ShutdownReason::Signal(Signal::Interrupt),
    ] {
        assert!(!state.trigger(r));
    }
    assert_eq!(state.reason(), Some(ShutdownReason::Signal(Signal::Terminate)));
}

#[test]
fn elapsed_increases_after_trigger() {
    let mut state = ShutdownState::new();
    assert!(state.elapsed().is_none());
    state.trigger(ShutdownReason::Requested);
    let first = state.elapsed().unwrap();
    let t = std::time::Instant::now();
    while t.elapsed() < Duration::from_millis(5) {}
    let second = state.elapsed().unwrap();
    assert!(second >= first);
}

#[test]
fn trigger_clones_are_idempotent() {
    let mut state = ShutdownState::new();
    assert!(state.trigger(ShutdownReason::Signal(Signal::Terminate)));
    assert!(!state.trigger(ShutdownReason::Requested));
    assert!(!state.trigger(ShutdownReason::Forced));

    let stats = state.statistics(0, 0);
    assert!(stats.initiated);
    assert_eq!(stats.reason, Some(ShutdownReason::Signal(Signal::Terminate)));
}

#[test]
fn statistics_snapshot() {
    let mut state = ShutdownState::new();
    let before = state.statistics(2, 0);
    assert!(!before.initiated);
    assert_eq!(before.reason, None);
    assert_eq!(before.hooks_registered, 2);
    assert_eq!(before.hooks_completed, 0);
    assert!(before.elapsed.is_none());
    state.trigger(ShutdownReason::Signal(Signal::Terminate));
    let after = state.statistics(2, 2);
    assert!(after.initiated);
    assert_eq!(after.reason, Some(ShutdownReason::Signal(Signal::Terminate)));
    assert_eq!(after.hooks_completed, 2);
    assert!(after.elapsed.is_some());
}

#[test]
fn wait_step_decisions() {
    let mut state = ShutdownState::new();
    assert_eq!(state.wait_step(false), WaitStep::Wait);
    assert_eq!(state.wait_step(true), WaitStep::Expired);
    state.trigger(ShutdownReason::Requested);
    assert_eq!(state.wait_step(false), WaitStep::Observed);
    assert_eq!(state.wait_step(true), WaitStep::Observed);
}

#[test]
fn install_is_claimed_once() {
    let mut install = InstallState::new();
    assert!(!install.is_installed());
    assert!(install.begin().is_ok());
    assert!(install.finish(Ok(())).is_ok());
    assert!(install.is_installed());
    assert!(matches!(install.begin(), Err(Error::AlreadyInstalled)));
    assert!(install.is_installed());
}

#[test]
fn failed_install_releases_claim() {
    let mut install = InstallState::new();
    assert!(install.begin().is_ok());
    let out = install.finish(Err(Error::NoRuntime));
    assert!(matches!(out, Err(Error::NoRuntime)));
    assert!(!install.is_installed());
    assert!(install.begin().is_ok());
}

#[test]
fn error_messages() {
    assert_eq!(
        Error::AlreadyInstalled.to_string(),
        "signal handlers already installed for this coordinator"
    );
    assert_eq!(Error::InvalidState("closed").to_string(), "invalid coordinator state: closed");
    assert_eq!(Error::Timeout("hooks").to_string(), "operation timed out: hooks");
    assert_eq!(
        Error::NoRuntime.to_string(),
        "no async-runtime feature and no ctrlc-fallback feature enabled; enable `tokio`, `async-std`, or `ctrlc-fallback`"
    );
    let e = Error::SignalRegistration {
        signal: Signal::Interrupt,
        source: std::io::Error::new(std::io::ErrorKind::Other, "boom"),
    };
    assert_eq!(
        e.to_string(),
        "failed to register handler for Interrupt (SIGINT / CTRL_C_EVENT): boom"
    );
    assert_eq!(e.source().unwrap().to_string(), "boom");
    assert!(Error::NoRuntime.source().is_none());
}
