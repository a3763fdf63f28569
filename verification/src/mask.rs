//! Signal masks: nix's `SigSet`, seen as the set of signal numbers it holds.

use crate::delivery::{number_of, Watched};
use nix::sys::signal::{SigSet, Signal};
use vstd::prelude::*;

verus! {

/// Trusted: makes nix's `SigSet` known as an opaque type.
#[verifier::external_type_specification]
#[verifier::external_body]
pub struct ExSigSet(SigSet);

/// The signal numbers that `set` holds: those for which `sigismember`
/// answers 1 on it, which is what `SigSet::contains` asks.
pub uninterp spec fn mask_members(set: SigSet) -> Set<int>;

/// Trusted: `SigSet::empty` of nix, which initialises the set with
/// `sigemptyset`. The set that comes back holds no signal at all.
#[verifier::external_body]
fn sigset_empty() -> (set: SigSet)
    ensures
        mask_members(set) == Set::<int>::empty(),
{
    SigSet::empty()
}

/// Trusted: `SigSet::add` of nix, which calls `sigaddset` with the signal's
/// number. Afterwards the set holds the number of `which` and, of all other
/// numbers, those it held before.
#[verifier::external_body]
fn sigset_add(set: &mut SigSet, which: Watched)
    ensures
        mask_members(*final(set)) == mask_members(*old(set)).insert(number_of(which)),
{
    set.add(
        match which {
            Watched::Interrupt => Signal::SIGINT,
            Watched::Child => Signal::SIGCHLD,
            Watched::User1 => Signal::SIGUSR1,
            Watched::User2 => Signal::SIGUSR2,
        },
    )
}

/// Trusted: `SigSet::clear` of nix, which calls `sigemptyset` on the set.
/// Afterwards the set holds no signal at all.
#[verifier::external_body]
fn sigset_clear(set: &mut SigSet)
    ensures
        mask_members(*final(set)) == Set::<int>::empty(),
{
    set.clear()
}

/// Trusted: `SigSet::contains` of nix, which asks `sigismember` with the
/// signal's number. The answer is whether the set holds the number of
/// `which`.
#[verifier::external_body]
fn sigset_contains(set: &SigSet, which: Watched) -> (held: bool)
    ensures
        held == mask_members(*set).contains(number_of(which)),
{
    set.contains(
        match which {
            Watched::Interrupt => Signal::SIGINT,
            Watched::Child => Signal::SIGCHLD,
            Watched::User1 => Signal::SIGUSR1,
            Watched::User2 => Signal::SIGUSR2,
        },
    )
}

/// The numbers of the signals listed.
pub open spec fn numbers(signals: Seq<Watched>) -> Set<int> {
    signals.map_values(|w: Watched| number_of(w)).to_set()
}

/// A signal mask. The field is the `SigSet` that the system calls take and
/// fill; the view is the set of all signal numbers in it, watched or not.
#[derive(Clone, Copy, Debug)]
pub struct SignalMask {
    pub set: SigSet,
}

impl View for SignalMask {
    type V = Set<int>;

    open spec fn view(&self) -> Set<int> {
        mask_members(self.set)
    }
}

impl SignalMask {
    /// The mask that holds no signal at all.
    pub fn empty() -> (m: SignalMask)
        ensures
            m@ == Set::<int>::empty(),
    {
        SignalMask { set: sigset_empty() }
    }

    /// Adds `which` to the mask; every other signal stays as it is.
    pub fn insert(&mut self, which: Watched)
        ensures
            final(self)@ == old(self)@.insert(number_of(which)),
    {
        sigset_add(&mut self.set, which);
    }

    /// Takes every signal out of the mask.
    pub fn clear(&mut self)
        ensures
            final(self)@ == Set::<int>::empty(),
    {
        sigset_clear(&mut self.set);
    }

    /// Whether the mask holds `which`.
    pub fn contains(&self, which: Watched) -> (held: bool)
        ensures
            held == self@.contains(number_of(which)),
    {
        sigset_contains(&self.set, which)
    }

    /// The mask that holds exactly the signals listed and no other signal,
    /// however often and in whatever order they are listed.
    pub fn of(signals: &[Watched]) -> (m: SignalMask)
        ensures
            m@ == numbers(signals@),
    {
        let mut m = SignalMask::empty();
        let mut i: usize = 0;
        while i < signals.len()
            invariant
                i <= signals.len(),
                m@ == numbers(signals@.take(i as int)),
            decreases signals.len() - i,
        {
            m.insert(signals[i]);
            proof {
                let f = |w: Watched| number_of(w);
                let before = signals@.take(i as int);
                let last = signals@[i as int];
                assert(signals@.take(i + 1) == before.push(last));
                assert(before.push(last).map_values(f) == before.map_values(f).push(f(last)));
                before.map_values(f).lemma_push_to_set_commute(f(last));
            }
            i += 1;
        }
        assert(signals@.take(signals.len() as int) == signals@);
        m
    }
}

} // verus!
