//! Process signals as plain values: named signals with their numbers, sets
//! of signals kept as a bitset, and process identifiers.
//!
//! Everything here is pure and verified. Talking to the operating system
//! (asking for a process id, sending a signal, changing the signal mask of
//! the calling thread) is left to the caller, who hands this crate the raw
//! numbers and takes raw numbers back.

mod bits;
pub mod laws;
pub mod mask;
pub mod pid;
pub mod send;
pub mod sig;
pub mod sigset;
pub mod status;

pub use mask::{MaskAction, MaskChange};
pub use pid::Pid;
pub use send::Delivery;
pub use sig::Sig;
pub use sigset::SigSet;
