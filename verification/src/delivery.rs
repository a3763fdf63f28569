//! Telling apart the signal numbers that a handler receives.

use nix::sys::signal::Signal;
use vstd::prelude::*;

verus! {

/// The signals that this library knows by name.
#[derive(Clone, Copy, Debug, PartialEq, Eq, Structural)]
pub enum Watched {
    /// `SIGINT`, the interrupt signal.
    Interrupt,
    /// `SIGCHLD`, sent to a parent when a child stops or exits.
    Child,
    /// `SIGUSR1`, the first user-defined signal.
    User1,
    /// `SIGUSR2`, the second user-defined signal.
    User2,
}

/// What a raw signal number turns out to be.
#[derive(Clone, Copy, Debug, PartialEq, Eq, Structural)]
pub enum Delivery {
    /// The number is no signal of this platform.
    Unknown,
    /// The number is a signal of this platform, but none of the watched ones.
    Other,
    /// The number is one of the watched signals.
    Watched(Watched),
}

/// What `signum` is on the platform the library was built for: `Unknown` where
/// nix's conversion from `i32` to `Signal` rejects the number, otherwise the
/// watched signal it converts to, or `Other`.
///
/// The signal table is fixed when nix is compiled, so this is a function of
/// the number alone. Nothing else is assumed of it.
pub uninterp spec fn delivery_of(signum: int) -> Delivery;

/// Trusted: converts `signum` with nix's `Signal::try_from` and names the
/// variant that comes back. The contract only gives that outcome its name,
/// `delivery_of`.
#[verifier::external_body]
fn convert(signum: i32) -> (d: Delivery)
    ensures
        d == delivery_of(signum as int),
{
    match Signal::try_from(signum) {
        Ok(Signal::SIGINT) => Delivery::Watched(Watched::Interrupt),
        Ok(Signal::SIGCHLD) => Delivery::Watched(Watched::Child),
        Ok(Signal::SIGUSR1) => Delivery::Watched(Watched::User1),
        Ok(Signal::SIGUSR2) => Delivery::Watched(Watched::User2),
        Ok(_) => Delivery::Other,
        Err(_) => Delivery::Unknown,
    }
}

/// Classifies a raw signal number as the platform's signal table sees it.
pub fn classify(signum: i32) -> (d: Delivery)
    ensures
        d == delivery_of(signum as int),
{
    convert(signum)
}

/// The number that the platform gives the watched signal `w`: the value of
/// the `Signal` variant of nix that stands for it, which is libc's constant
/// of the same name.
pub uninterp spec fn number_of(w: Watched) -> int;

/// Trusted: casts the `Signal` variant of nix that stands for `w` to its
/// number. The contract gives that number its name, `number_of`, and says
/// that it classifies as `w`: nix declares each variant with libc's constant
/// as its value, and `Signal::try_from` turns that constant back into the
/// variant.
#[verifier::external_body]
fn signum_of(w: Watched) -> (n: i32)
    ensures
        n == number_of(w),
        delivery_of(n as int) == Delivery::Watched(w),
{
    match w {
        Watched::Interrupt => Signal::SIGINT as i32,
        Watched::Child => Signal::SIGCHLD as i32,
        Watched::User1 => Signal::SIGUSR1 as i32,
        Watched::User2 => Signal::SIGUSR2 as i32,
    }
}

impl Watched {
    /// The signal's number on this platform. Classifying it gives the signal
    /// back.
    pub fn number(self) -> (n: i32)
        ensures
            n == number_of(self),
            delivery_of(n as int) == Delivery::Watched(self),
    {
        signum_of(self)
    }
}

} // verus!
