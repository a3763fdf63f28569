//! What a signal handler writes down when a signal arrives.
//!
//! A handler gets a raw number and keeps its records in shared memory. The
//! functions here compute the next record from the current one and the number
//! received; loading and storing the record is left to the caller.

use crate::delivery::{classify, delivery_of, Delivery, Watched};
use vstd::prelude::*;

verus! {

/// Why a handler could not record a delivery.
#[derive(Clone, Copy, Debug, PartialEq, Eq, Structural)]
pub enum HandlerError {
    /// The number received is no signal of this platform.
    UnknownSignal,
    /// The signal is one that the handler was not installed for.
    UnexpectedSignal,
    /// The count to be written does not fit in a `u8`.
    CounterOverflow,
}

/// The flag of an interrupt handler after a delivery: set exactly when the
/// signal was the interrupt. An unknown number is an error.
pub open spec fn interrupt_seen(d: Delivery) -> Result<bool, HandlerError> {
    if d is Unknown {
        Err(HandlerError::UnknownSignal)
    } else {
        Ok(d == Delivery::Watched(Watched::Interrupt))
    }
}

/// Whether a delivery of a signal of this platform was the interrupt: the
/// value that an interrupt handler stores in its flag. A handler has no flag
/// value for a number that is no signal, so such a delivery is left out.
pub fn seen_interrupt(d: Delivery) -> (seen: bool)
    requires
        !(d is Unknown),
    ensures
        interrupt_seen(d) == Ok::<bool, HandlerError>(seen),
{
    match d {
        Delivery::Watched(w) => w == Watched::Interrupt,
        _ => false,
    }
}

/// The value that an interrupt handler stores in its flag for a delivery that
/// has been classified already, or the reason why it has none.
pub fn flag_for(d: Delivery) -> (r: Result<bool, HandlerError>)
    ensures
        r == interrupt_seen(d),
{
    match d {
        Delivery::Unknown => Err(HandlerError::UnknownSignal),
        _ => Ok(seen_interrupt(d)),
    }
}

/// The value that an interrupt handler stores in its flag when it receives
/// `signum`: `true` for the interrupt, `false` for any other signal of the
/// platform, an error for a number that is no signal.
pub fn interrupt_flag(signum: i32) -> (r: Result<bool, HandlerError>)
    ensures
        r == interrupt_seen(delivery_of(signum as int)),
{
    flag_for(classify(signum))
}

/// The two counts kept by a handler installed for both user-defined signals.
#[derive(Clone, Copy, Debug, PartialEq, Eq, Structural)]
pub struct SuspendCounts {
    /// Written on a `SIGUSR1` delivery.
    pub usr1: u8,
    /// Written on a `SIGUSR2` delivery.
    pub usr2: u8,
}

impl SuspendCounts {
    /// The counts after a delivery.
    ///
    /// Both user signals write one more than the *first* count: `SIGUSR1`
    /// writes it to the first count, `SIGUSR2` to the second. The second
    /// count is never read. Any other signal is unexpected, and a number that
    /// is no signal is unknown; neither changes anything.
    pub open spec fn after(self, d: Delivery) -> Result<SuspendCounts, HandlerError> {
        match d {
            Delivery::Unknown => Err(HandlerError::UnknownSignal),
            Delivery::Watched(Watched::User1) => if self.usr1 < u8::MAX {
                Ok(SuspendCounts { usr1: (self.usr1 + 1) as u8, usr2: self.usr2 })
            } else {
                Err(HandlerError::CounterOverflow)
            },
            Delivery::Watched(Watched::User2) => if self.usr1 < u8::MAX {
                Ok(SuspendCounts { usr1: self.usr1, usr2: (self.usr1 + 1) as u8 })
            } else {
                Err(HandlerError::CounterOverflow)
            },
            _ => Err(HandlerError::UnexpectedSignal),
        }
    }

    /// Both counts at zero, as before any delivery.
    pub fn new() -> (c: SuspendCounts)
        ensures
            c == (SuspendCounts { usr1: 0, usr2: 0 }),
    {
        SuspendCounts { usr1: 0, usr2: 0 }
    }

    /// The counts after a delivery of one of the two user signals, while the
    /// first count is below the top of `u8`. These are the deliveries that the
    /// handler is installed for; nothing is asked of the second count.
    pub fn counted(self, d: Delivery) -> (c: SuspendCounts)
        requires
            d == Delivery::Watched(Watched::User1) || d == Delivery::Watched(Watched::User2),
            self.usr1 < u8::MAX,
        ensures
            self.after(d) == Ok::<SuspendCounts, HandlerError>(c),
    {
        let next: u8 = self.usr1 + 1;
        match d {
            Delivery::Watched(Watched::User1) => SuspendCounts { usr1: next, usr2: self.usr2 },
            _ => SuspendCounts { usr1: self.usr1, usr2: next },
        }
    }

    /// The counts after a delivery that has been classified already, or the
    /// reason why the delivery cannot be counted.
    pub fn record(self, d: Delivery) -> (r: Result<SuspendCounts, HandlerError>)
        ensures
            r == self.after(d),
    {
        match d {
            Delivery::Unknown => Err(HandlerError::UnknownSignal),
            Delivery::Watched(Watched::User1) | Delivery::Watched(Watched::User2) => {
                if self.usr1 < u8::MAX {
                    Ok(self.counted(d))
                } else {
                    Err(HandlerError::CounterOverflow)
                }
            },
            _ => Err(HandlerError::UnexpectedSignal),
        }
    }

    /// The counts after the handler receives `signum`.
    pub fn on_signal(self, signum: i32) -> (r: Result<SuspendCounts, HandlerError>)
        ensures
            r == self.after(delivery_of(signum as int)),
    {
        self.record(classify(signum))
    }
}

} // verus!
