//! What signal-handling code decides, apart from the system calls it makes:
//! which signal a raw number stands for, what a handler records when a signal
//! arrives, and which signals a mask holds.
//!
//! Signal numbers and signal sets are those of the `nix` crate. The calls into
//! it are the trusted items of this library; each says in its documentation
//! what is believed of it.

pub mod delivery;
pub mod mask;
pub mod record;
