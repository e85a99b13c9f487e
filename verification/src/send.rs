//! Sending a signal to a process, as a value.
//!
//! To send a signal is to call the operating system. What this module makes
//! is the description of that call in plain numbers; making the call is the
//! caller's part.

use crate::pid::Pid;
use crate::sig::Sig;
use vstd::prelude::*;

verus! {

/// A signal on its way to a process: the number of the process, and the
/// number of the signal that the operating system is to deliver to it.
#[derive(Copy, Clone, Debug, PartialEq, Eq, Structural)]
#[must_use]
pub struct Delivery {
    pub pid: i32,
    pub signal: i32,
}

impl Pid {
    /// The delivery of `sig` to this process.
    pub fn send(self, sig: Sig) -> (delivery: Delivery)
        ensures
            delivery.pid == self.0,
            delivery.signal == sig.code(),
    {
        Delivery { pid: self.0, signal: sig.to_numeric() }
    }
}

impl Sig {
    /// The delivery of this signal to the process `pid`: the same as
    /// `pid.send` of this signal.
    pub fn send_to(self, pid: Pid) -> (delivery: Delivery)
        ensures
            delivery.pid == pid.0,
            delivery.signal == self.code(),
    {
        pid.send(self)
    }
}

/// It makes no difference whether a signal is sent to a process, or a
/// process is sent a signal.
pub proof fn lemma_send_to_is_send(by_pid: Delivery, by_sig: Delivery, pid: Pid, sig: Sig)
    requires
        by_pid.pid == pid.0 && by_pid.signal == sig.code(),
        by_sig.pid == pid.0 && by_sig.signal == sig.code(),
    ensures
        by_pid == by_sig,
{
}

} // verus!
