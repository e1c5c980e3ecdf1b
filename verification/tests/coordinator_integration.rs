use signal_mod::{Signal, SignalSet};

#[test]
fn signal_set_iteration_includes_only_enabled() {
    let mut seen = Vec::new();
    let mut it = SignalSet::graceful().iter();
    while let Some(sig) = it.next() {
        seen.push(sig);
    }
    assert_eq!(
        seen,
        vec![Signal::Terminate, Signal::Interrupt, Signal::Hangup]
    );
}
