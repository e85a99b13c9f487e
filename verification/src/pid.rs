//! Process identifiers.

use crate::status::{succeeded, FAILED};
use vstd::prelude::*;
use vstd::std_specs::convert::FromSpecImpl;

verus! {

/// The number by which the operating system knows a process.
#[derive(Copy, Clone, Debug, PartialEq, Eq, Structural)]
pub struct Pid(pub i32);

impl Pid {
    /// What a query for a process id answered: the id, or `None` where the
    /// answer is the status of a failed call.
    pub fn from_status(status: i32) -> (r: Option<Pid>)
        ensures
            r == if status == FAILED {
                None
            } else {
                Some(Pid(status))
            },
    {
        if succeeded(status) {
            Some(Pid(status))
        } else {
            None
        }
    }
}

impl From<i32> for Pid {
    fn from(pid: i32) -> (r: Pid) {
        Pid(pid)
    }
}

impl FromSpecImpl<i32> for Pid {
    open spec fn obeys_from_spec() -> bool {
        true
    }

    open spec fn from_spec(pid: i32) -> Pid {
        Pid(pid)
    }
}

impl From<Pid> for i32 {
    fn from(pid: Pid) -> (r: i32) {
        pid.0
    }
}

impl FromSpecImpl<Pid> for i32 {
    open spec fn obeys_from_spec() -> bool {
        true
    }

    open spec fn from_spec(pid: Pid) -> i32 {
        pid.0
    }
}

} // verus!
