//! What the calls answer that report a failure with -1.
//!
//! `getpid`, `getppid`, `kill` and the routines that work on a signal set of
//! the operating system answer -1 where they fail and leave the number of
//! the error aside, for the caller to read. A change of the signal mask does
//! not answer so: its rule stands with `MaskChange`.

use vstd::prelude::*;

verus! {

/// The status with which `getpid`, `getppid`, `kill` and the routines on a
/// signal set of the operating system report that they failed.
pub const FAILED: i32 = -1;

/// Whether one of `getpid`, `getppid`, `kill` or the routines on a signal
/// set of the operating system, having returned `status`, did what it was
/// asked to do. Every status but `FAILED` means that it did.
///
/// This is not the rule for a change of the signal mask: see
/// `MaskChange::outcome`.
pub fn succeeded(status: i32) -> (ok: bool)
    ensures
        ok == (status != FAILED),
{
    status != FAILED
}

} // verus!
