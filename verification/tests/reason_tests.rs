use signal_mod::{ShutdownReason, Signal};

#[test]
fn description_labels() {
    assert_eq!(ShutdownReason::Requested.description(), "requested");
    assert_eq!(ShutdownReason::Forced.description(), "forced");
    assert_eq!(ShutdownReason::Timeout.description(), "timeout");
    assert_eq!(ShutdownReason::Error.description(), "error");
    assert_eq!(
        ShutdownReason::Signal(Signal::Terminate).description(),
        "signal"
    );
}

#[test]
fn is_signal_only_for_signal_variant() {
    assert!(ShutdownReason::Signal(Signal::Interrupt).is_signal());
    assert!(!ShutdownReason::Requested.is_signal());
    assert!(!ShutdownReason::Forced.is_signal());
}

#[test]
fn display_renders_signal_label() {
    let s = ShutdownReason::Signal(Signal::Terminate).to_string();
    assert!(s.starts_with("Signal("));
}

#[test]
fn reason_rendering_is_exact() {
    assert_eq!(
        ShutdownReason::Signal(Signal::Hangup).to_string(),
        "Signal(Hangup (SIGHUP / CTRL_SHUTDOWN_EVENT))"
    );
    assert_eq!(ShutdownReason::Requested.to_string(), "Requested");
    assert_eq!(ShutdownReason::Forced.to_string(), "Forced");
    assert_eq!(ShutdownReason::Timeout.to_string(), "Timeout");
    assert_eq!(ShutdownReason::Error.to_string(), "Error");
}
