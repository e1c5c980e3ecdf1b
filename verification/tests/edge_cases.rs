use signal_mod::{ShutdownReason, Signal, SignalSet, SignalSetIter};

fn collect(mut it: SignalSetIter) -> Vec<Signal> {
    let mut out = Vec::new();
    while let Some(sig) = it.next() {
        out.push(sig);
    }
    out
}

#[test]
fn empty_set_iter_yields_nothing() {
    let empty = SignalSet::empty();
    assert!(empty.is_empty());
    assert_eq!(empty.len(), 0);
    assert_eq!(collect(empty.iter()).len(), 0);
    let collected: Vec<Signal> = collect(empty.iter());
    assert!(collected.is_empty());
}

#[test]
fn all_set_contains_every_variant() {
    let all = SignalSet::all();
    assert_eq!(all.len(), 7);
    for sig in Signal::ALL {
        assert!(all.contains(sig));
    }
}

#[test]
fn set_round_trip_through_with_and_without() {
    let mut set = SignalSet::empty();
    for sig in Signal::ALL {
        set = set.with(sig);
    }
    assert_eq!(set, SignalSet::all());

    for sig in Signal::ALL {
        set = set.without(sig);
    }
    assert!(set.is_empty());
}

#[test]
fn set_iter_yields_canonical_order() {
    let set = SignalSet::all();
    let yielded: Vec<Signal> = collect(set.iter());
    assert_eq!(yielded, Signal::ALL.to_vec());
}

#[test]
fn set_default_matches_graceful() {
    assert_eq!(SignalSet::default(), SignalSet::graceful());
}

#[test]
fn signal_unix_numbers_round_trip_unique() {
    let mut seen = std::collections::HashSet::new();
    for sig in Signal::ALL {
        let n = sig.unix_number().expect("every signal has a unix number");
        assert!(seen.insert(n), "duplicate unix number {n}");
    }
}

#[test]
fn signal_display_renders_description() {
    for sig in Signal::ALL {
        assert_eq!(sig.to_string(), sig.description());
    }
}

#[test]
fn shutdown_reason_descriptions_are_stable() {
    assert_eq!(ShutdownReason::Requested.description(), "requested");
    assert_eq!(ShutdownReason::Forced.description(), "forced");
    assert_eq!(ShutdownReason::Timeout.description(), "timeout");
    assert_eq!(ShutdownReason::Error.description(), "error");
    assert_eq!(
        ShutdownReason::Signal(Signal::Terminate).description(),
        "signal"
    );
}
