use nix::sys::signal::{sigprocmask, SigSet, SigmaskHow, Signal};
use signal_state::delivery::Watched;
use signal_state::mask::SignalMask;

const ALL_WATCHED: [Watched; 4] =
    [Watched::Interrupt, Watched::Child, Watched::User1, Watched::User2];

#[test]
fn empty_mask_holds_nothing() {
    let m = SignalMask::empty();
    for w in ALL_WATCHED {
        assert!(!m.contains(w));
    }
    for signal in Signal::iterator() {
        assert!(!m.set.contains(signal));
    }
}

#[test]
fn insert_adds_one_signal_and_keeps_the_rest() {
    let mut m = SignalMask::empty();
    m.insert(Watched::Child);
    assert!(m.contains(Watched::Child));
    assert!(!m.contains(Watched::Interrupt));
    assert!(!m.contains(Watched::User1));
    assert!(!m.contains(Watched::User2));
    m.insert(Watched::User2);
    assert!(m.contains(Watched::Child));
    assert!(m.contains(Watched::User2));
    assert!(!m.contains(Watched::Interrupt));
    assert!(!m.contains(Watched::User1));
}

#[test]
fn insert_twice_is_insert_once() {
    let mut once = SignalMask::empty();
    once.insert(Watched::Interrupt);
    let mut twice = SignalMask::empty();
    twice.insert(Watched::Interrupt);
    twice.insert(Watched::Interrupt);
    assert_eq!(once.set, twice.set);
}

#[test]
fn insert_puts_the_matching_nix_signal_in_the_set() {
    let pairs = [
        (Watched::Interrupt, Signal::SIGINT),
        (Watched::Child, Signal::SIGCHLD),
        (Watched::User1, Signal::SIGUSR1),
        (Watched::User2, Signal::SIGUSR2),
    ];
    for (w, signal) in pairs {
        let mut m = SignalMask::empty();
        m.insert(w);
        for other in Signal::iterator() {
            assert_eq!(m.set.contains(other), other == signal);
        }
    }
}

#[test]
fn contains_reads_a_set_that_nix_filled() {
    let mut set = SigSet::empty();
    set.add(Signal::SIGUSR1);
    set.add(Signal::SIGTERM);
    let m = SignalMask { set };
    assert!(m.contains(Watched::User1));
    assert!(!m.contains(Watched::User2));
    assert!(!m.contains(Watched::Interrupt));
    assert!(!m.contains(Watched::Child));
}

#[test]
fn clear_empties_a_full_set() {
    let mut m = SignalMask { set: SigSet::all() };
    for w in ALL_WATCHED {
        assert!(m.contains(w));
    }
    m.clear();
    for w in ALL_WATCHED {
        assert!(!m.contains(w));
    }
    assert_eq!(m.set, SigSet::empty());
}

#[test]
fn mask_of_nothing_is_empty() {
    let m = SignalMask::of(&[]);
    assert_eq!(m.set, SigSet::empty());
}

#[test]
fn mask_of_both_user_signals() {
    let m = SignalMask::of(&[Watched::User1, Watched::User2]);
    assert!(m.contains(Watched::User1));
    assert!(m.contains(Watched::User2));
    assert!(!m.contains(Watched::Interrupt));
    assert!(!m.contains(Watched::Child));
    let mut by_hand = SigSet::empty();
    by_hand.add(Signal::SIGUSR1);
    by_hand.add(Signal::SIGUSR2);
    assert_eq!(m.set, by_hand);
}

#[test]
fn mask_of_ignores_order_and_repeats() {
    let a = SignalMask::of(&[Watched::Child, Watched::Interrupt]);
    let b = SignalMask::of(&[
        Watched::Interrupt,
        Watched::Child,
        Watched::Interrupt,
        Watched::Child,
    ]);
    assert_eq!(a.set, b.set);
    assert!(a.contains(Watched::Child));
    assert!(a.contains(Watched::Interrupt));
    assert!(!a.contains(Watched::User1));
}

#[test]
fn mask_of_one_signal_is_empty_plus_insert() {
    for w in ALL_WATCHED {
        let mut by_insert = SignalMask::empty();
        by_insert.insert(w);
        assert_eq!(SignalMask::of(&[w]).set, by_insert.set);
    }
}

#[test]
fn mask_holds_no_signal_but_those_listed() {
    let m = SignalMask::of(&[Watched::User1, Watched::Child]);
    for signal in Signal::iterator() {
        let listed = signal == Signal::SIGUSR1 || signal == Signal::SIGCHLD;
        assert_eq!(m.set.contains(signal), listed, "{:?}", signal);
    }
}

#[test]
fn test_sigprocmask() {
    // This needs to be a signal that rust doesn't use in the test harness.
    const SIGNAL: Watched = Watched::Child;

    let mut old_signal_set = SignalMask::empty();
    sigprocmask(SigmaskHow::SIG_BLOCK, None, Some(&mut old_signal_set.set))
        .expect("expect to be able to retrieve old signals");

    // Make sure the old set doesn't contain the signal, otherwise the following
    // test don't make sense.
    assert!(
        !old_signal_set.contains(SIGNAL),
        "the {SIGNAL:?} signal is already blocked, please change to a \
             different one"
    );

    // Now block the signal.
    let mut signal_set = SignalMask::empty();
    signal_set.insert(SIGNAL);
    sigprocmask(SigmaskHow::SIG_BLOCK, Some(&signal_set.set), None)
        .expect("expect to be able to block signals");

    // And test it again, to make sure the change was effective.
    old_signal_set.clear();
    sigprocmask(SigmaskHow::SIG_BLOCK, None, Some(&mut old_signal_set.set))
        .expect("expect to be able to retrieve old signals");
    assert!(
        old_signal_set.contains(SIGNAL),
        "expected the {SIGNAL:?} to be blocked"
    );

    // Reset the signal.
    sigprocmask(SigmaskHow::SIG_UNBLOCK, Some(&signal_set.set), None)
        .expect("expect to be able to block signals");
}
