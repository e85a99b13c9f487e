//! Changes of a thread's signal mask, as values.
//!
//! The mask of a thread names the signals that are withheld from default
//! handling. It belongs to the operating system, and only a call of the
//! operating system changes it. What this module makes is the description of
//! such a call in plain numbers; making the call is the caller's part.

use crate::sig::Sig;
use crate::sigset::{lists, SigSet};
use crate::status::{succeeded, FAILED};
use vstd::prelude::*;

verus! {

/// What a change of the signal mask does with the signals it names.
#[derive(Copy, Clone, Debug, PartialEq, Eq, Structural)]
pub enum MaskAction {
    /// The signals join the mask: they are withheld from default handling.
    Block,
    /// The signals leave the mask: default handling gets them again.
    Unblock,
}

impl MaskAction {
    /// The number by which the operating system knows the action.
    ///
    /// The numbers are those of Linux on the architectures that share its
    /// common numbering, among them x86, ARM and RISC-V. On MIPS and SPARC
    /// Linux has 1 and 2 in their place.
    pub open spec fn code(self) -> int {
        match self {
            MaskAction::Block => 0,
            MaskAction::Unblock => 1,
        }
    }

    /// The number of this action.
    pub fn to_numeric(self) -> (code: i32)
        ensures
            code == self.code(),
    {
        match self {
            MaskAction::Block => 0,
            MaskAction::Unblock => 1,
        }
    }
}

/// A change of the calling thread's signal mask: the action, and the
/// numbers of the signals it is about, each once, in rising order. Signals
/// that the change does not name keep their place in or out of the mask.
#[derive(Clone, Debug, PartialEq, Eq)]
#[must_use]
pub struct MaskChange {
    pub action: MaskAction,
    pub signals: Vec<i32>,
}

/// The answer with which the operating system reports that it has carried
/// out a change of the signal mask.
pub const CHANGED: i32 = 0;

impl MaskChange {
    /// What became of a change of the signal mask, told from the answer of
    /// the operating system.
    ///
    /// The answer `CHANGED` means that the change was carried out. Any other
    /// answer means that it was rejected, and is itself the number of the
    /// error: it comes back unchanged.
    pub fn outcome(status: i32) -> (r: Result<(), i32>)
        ensures
            r == if status == CHANGED {
                Ok::<(), i32>(())
            } else {
                Err::<(), i32>(status)
            },
    {
        if status == CHANGED {
            Ok(())
        } else {
            Err(status)
        }
    }

    /// Whether a change can go on after the operating system's own set, in
    /// which the signals are handed over, answered `status` to the request
    /// to take in the number `code`.
    ///
    /// It can where the number was taken in. It can also where the number
    /// is that of no named signal: such a number the system may keep to
    /// itself, and it then stays out of the change, as it stays out of a
    /// set that the system fills. The refusal of a named signal ends the
    /// change.
    pub fn tolerates(code: i32, status: i32) -> (ok: bool)
        ensures
            ok == (status != FAILED || !Sig::is_named(code as int)),
    {
        succeeded(status) || Sig::try_from_numeric(code).is_none()
    }
}

impl SigSet {
    /// The change that detaches the members of the set from default
    /// handlers.
    ///
    /// Once the operating system has been handed the change, the signals are
    /// withheld from the runtime and can be handled by handlers of the
    /// caller's own.
    pub fn disable_default_handler(&self) -> (change: MaskChange)
        ensures
            change.action == MaskAction::Block,
            lists(change.signals@, self@),
    {
        MaskChange { action: MaskAction::Block, signals: self.members() }
    }

    /// The change that attaches the members of the set to default handlers.
    ///
    /// Once the operating system has been handed the change, the signals are
    /// handled by the runtime according to default rules, which may keep
    /// them from reaching handlers of the caller's own.
    pub fn enable_default_handler(&self) -> (change: MaskChange)
        ensures
            change.action == MaskAction::Unblock,
            lists(change.signals@, self@),
    {
        MaskChange { action: MaskAction::Unblock, signals: self.members() }
    }
}

} // verus!
