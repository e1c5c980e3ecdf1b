use signal_mod::{Signal, SignalSet, SignalSetIter};

fn collect(mut it: SignalSetIter) -> Vec<Signal> {
    let mut out = Vec::new();
    while let Some(sig) = it.next() {
        out.push(sig);
    }
    out
}

#[test]
fn signal_display_matches_description() {
    for s in Signal::ALL {
        assert_eq!(s.to_string(), s.description());
    }
}

#[test]
fn signal_unix_number_round_trip() {
    assert_eq!(Signal::Terminate.unix_number(), Some(15));
    assert_eq!(Signal::Interrupt.unix_number(), Some(2));
    assert_eq!(Signal::Hangup.unix_number(), Some(1));
    assert_eq!(Signal::Quit.unix_number(), Some(3));
    assert_eq!(Signal::Pipe.unix_number(), Some(13));
    assert_eq!(Signal::User1.unix_number(), Some(10));
    assert_eq!(Signal::User2.unix_number(), Some(12));
}

#[test]
fn is_unix_only_is_correct() {
    assert!(Signal::Pipe.is_unix_only());
    assert!(Signal::User1.is_unix_only());
    assert!(Signal::User2.is_unix_only());
    assert!(!Signal::Terminate.is_unix_only());
    assert!(!Signal::Interrupt.is_unix_only());
    assert!(!Signal::Quit.is_unix_only());
    assert!(!Signal::Hangup.is_unix_only());
}

#[test]
fn set_empty_and_all() {
    assert!(SignalSet::empty().is_empty());
    assert_eq!(SignalSet::empty().len(), 0);
    assert_eq!(SignalSet::all().len(), 7);
}

#[test]
fn set_graceful_contents() {
    let g = SignalSet::graceful();
    assert!(g.contains(Signal::Terminate));
    assert!(g.contains(Signal::Interrupt));
    assert!(g.contains(Signal::Hangup));
    assert!(!g.contains(Signal::Quit));
    assert!(!g.contains(Signal::Pipe));
    assert_eq!(g.len(), 3);
}

#[test]
fn set_standard_contents() {
    let s = SignalSet::standard();
    assert!(s.contains(Signal::Quit));
    assert_eq!(s.len(), 4);
}

#[test]
fn with_without_idempotent() {
    let s = SignalSet::empty()
        .with(Signal::Terminate)
        .with(Signal::Terminate);
    assert_eq!(s.len(), 1);
    let s = s.without(Signal::Terminate).without(Signal::Terminate);
    assert!(s.is_empty());
}

#[test]
fn iter_canonical_order() {
    let s = SignalSet::all();
    let v: Vec<Signal> = collect(s.iter());
    assert_eq!(v, Signal::ALL.to_vec());
}

#[test]
fn default_is_graceful() {
    assert_eq!(SignalSet::default(), SignalSet::graceful());
}

#[test]
fn description_texts_are_exact() {
    assert_eq!(Signal::Terminate.description(), "Terminate (SIGTERM / CTRL_CLOSE_EVENT)");
    assert_eq!(Signal::Interrupt.description(), "Interrupt (SIGINT / CTRL_C_EVENT)");
    assert_eq!(Signal::Quit.description(), "Quit (SIGQUIT / CTRL_BREAK_EVENT)");
    assert_eq!(Signal::Hangup.description(), "Hangup (SIGHUP / CTRL_SHUTDOWN_EVENT)");
    assert_eq!(Signal::Pipe.description(), "Pipe (SIGPIPE, Unix only)");
    assert_eq!(Signal::User1.description(), "User1 (SIGUSR1, Unix only)");
    assert_eq!(Signal::User2.description(), "User2 (SIGUSR2, Unix only)");
}

#[test]
fn availability_follows_platform() {
    for sig in Signal::ALL {
        assert!(sig.available_on(true));
        assert_eq!(sig.available_on(false), !sig.is_unix_only());
        let unix_like = std::path::MAIN_SEPARATOR == '/';
        if unix_like {
            assert!(sig.available_on_current_platform());
        } else {
            assert_eq!(sig.available_on_current_platform(), !sig.is_unix_only());
        }
    }
}

/// Every set reachable by `with` from the empty set: all 128 of them.
fn every_set() -> Vec<SignalSet> {
    let mut sets = vec![SignalSet::empty()];
    for sig in Signal::ALL {
        let mut more = Vec::new();
        for s in &sets {
            more.push(s.with(sig));
        }
        sets.extend(more);
    }
    sets
}

#[test]
fn every_set_obeys_with_without_laws() {
    let sets = every_set();
    assert_eq!(sets.len(), 128);
    for set in &sets {
        for sig in Signal::ALL {
            assert!(set.with(sig).contains(sig));
            assert!(!set.without(sig).contains(sig));
            assert_eq!(set.with(sig).without(sig), set.without(sig));
            assert_eq!(set.without(sig).with(sig), set.with(sig));
            assert_eq!(set.with(sig).with(sig), set.with(sig));
            for other in Signal::ALL {
                if other != sig {
                    assert_eq!(set.with(sig).contains(other), set.contains(other));
                    assert_eq!(set.without(sig).contains(other), set.contains(other));
                }
            }
        }
    }
}

#[test]
fn every_set_len_matches_iteration() {
    for set in every_set() {
        let yielded = collect(set.iter());
        assert_eq!(set.len(), yielded.len());
        assert_eq!(set.is_empty(), yielded.is_empty());
        let mut last: Option<usize> = None;
        for sig in &yielded {
            assert!(set.contains(*sig));
            let i = Signal::ALL.iter().position(|s| s == sig).unwrap();
            if let Some(p) = last {
                assert!(i > p);
            }
            last = Some(i);
        }
        for sig in Signal::ALL {
            assert_eq!(set.contains(sig), yielded.contains(&sig));
        }
    }
}

#[test]
fn sets_with_same_members_are_equal() {
    let a = SignalSet::empty().with(Signal::Hangup).with(Signal::Terminate).with(Signal::Interrupt);
    assert_eq!(a, SignalSet::graceful());
    let b = SignalSet::all()
        .without(Signal::Quit)
        .without(Signal::Pipe)
        .without(Signal::User1)
        .without(Signal::User2);
    assert_eq!(b, SignalSet::graceful());
    assert_eq!(SignalSet::graceful().with(Signal::Quit), SignalSet::standard());
}

#[test]
fn iterator_stays_exhausted() {
    let mut it = SignalSet::empty().with(Signal::User2).iter();
    assert_eq!(it.next(), Some(Signal::User2));
    assert_eq!(it.next(), None);
    assert_eq!(it.next(), None);
}
