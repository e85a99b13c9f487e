//! The named signals and the numbers the operating system knows them by.

use vstd::pervasive::unreached;
use vstd::prelude::*;
use vstd::std_specs::convert::FromSpecImpl;

verus! {

/// A named Linux signal.
///
/// The set is closed: a number that belongs to none of these variants is not
/// a `Sig`, and no conversion invents one for it. The numbers are those of
/// Linux on the architectures that share its common numbering, among them
/// x86, ARM and RISC-V.
#[derive(Copy, Clone, Debug, PartialEq, Eq, Structural)]
pub enum Sig {
    ABRT,
    ALRM,
    BUS,
    CHLD,
    CONT,
    FPE,
    HUP,
    ILL,
    INT,
    KILL,
    PIPE,
    POLL,
    PROF,
    PWR,
    QUIT,
    SEGV,
    STKFLT,
    STOP,
    SYS,
    TERM,
    TSTP,
    TTIN,
    TTOU,
    URG,
    USR1,
    USR2,
    VTALRM,
    WINCH,
    XCPU,
    XFSZ,
}

impl Sig {
    /// The number by which the operating system knows this signal.
    pub open spec fn code(self) -> int {
        match self {
            Sig::HUP => 1,
            Sig::INT => 2,
            Sig::QUIT => 3,
            Sig::ILL => 4,
            Sig::ABRT => 6,
            Sig::BUS => 7,
            Sig::FPE => 8,
            Sig::KILL => 9,
            Sig::USR1 => 10,
            Sig::SEGV => 11,
            Sig::USR2 => 12,
            Sig::PIPE => 13,
            Sig::ALRM => 14,
            Sig::TERM => 15,
            Sig::STKFLT => 16,
            Sig::CHLD => 17,
            Sig::CONT => 18,
            Sig::STOP => 19,
            Sig::TSTP => 20,
            Sig::TTIN => 21,
            Sig::TTOU => 22,
            Sig::URG => 23,
            Sig::XCPU => 24,
            Sig::XFSZ => 25,
            Sig::VTALRM => 26,
            Sig::PROF => 27,
            Sig::WINCH => 28,
            Sig::POLL => 29,
            Sig::PWR => 30,
            Sig::SYS => 31,
        }
    }

    /// Whether `code` is the number of some named signal.
    pub open spec fn is_named(code: int) -> bool {
        exists|s: Sig| s.code() == code
    }

    /// The named signal whose number is `code`, if there is one.
    pub open spec fn named(code: int) -> Option<Sig> {
        if Sig::is_named(code) {
            Some(choose|s: Sig| s.code() == code)
        } else {
            None
        }
    }

    /// No two named signals share a number.
    pub proof fn lemma_code_injective(a: Sig, b: Sig)
        requires
            a.code() == b.code(),
        ensures
            a == b,
    {
    }

    /// The numbers of the named signals are 1 to 31 without 5.
    pub proof fn lemma_named_codes(code: int)
        ensures
            Sig::is_named(code) <==> (1 <= code <= 31 && code != 5),
    {
        if 1 <= code <= 31 && code != 5 {
            assert(Sig::HUP.code() == 1 && Sig::INT.code() == 2 && Sig::QUIT.code() == 3);
            assert(Sig::ILL.code() == 4 && Sig::ABRT.code() == 6 && Sig::BUS.code() == 7);
            assert(Sig::FPE.code() == 8 && Sig::KILL.code() == 9 && Sig::USR1.code() == 10);
            assert(Sig::SEGV.code() == 11 && Sig::USR2.code() == 12 && Sig::PIPE.code() == 13);
            assert(Sig::ALRM.code() == 14 && Sig::TERM.code() == 15 && Sig::STKFLT.code() == 16);
            assert(Sig::CHLD.code() == 17 && Sig::CONT.code() == 18 && Sig::STOP.code() == 19);
            assert(Sig::TSTP.code() == 20 && Sig::TTIN.code() == 21 && Sig::TTOU.code() == 22);
            assert(Sig::URG.code() == 23 && Sig::XCPU.code() == 24 && Sig::XFSZ.code() == 25);
            assert(Sig::VTALRM.code() == 26 && Sig::PROF.code() == 27 && Sig::WINCH.code() == 28);
            assert(Sig::POLL.code() == 29 && Sig::PWR.code() == 30 && Sig::SYS.code() == 31);
        }
    }

    /// Going from a signal to its number and back gives the same signal.
    pub proof fn lemma_numeric_round_trip(s: Sig)
        ensures
            Sig::named(s.code()) == Some(s),
    {
    }

    /// A number that no named signal has is never turned into a signal, and
    /// a number that is turned into a signal is that signal's own number.
    pub proof fn lemma_named_is_exact(code: int)
        ensures
            match Sig::named(code) {
                Some(s) => s.code() == code,
                None => forall|s: Sig| s.code() != code,
            },
    {
    }

    /// The number of this signal.
    pub fn to_numeric(self) -> (code: i32)
        ensures
            code == self.code(),
    {
        match self {
            Sig::HUP => 1,
            Sig::INT => 2,
            Sig::QUIT => 3,
            Sig::ILL => 4,
            Sig::ABRT => 6,
            Sig::BUS => 7,
            Sig::FPE => 8,
            Sig::KILL => 9,
            Sig::USR1 => 10,
            Sig::SEGV => 11,
            Sig::USR2 => 12,
            Sig::PIPE => 13,
            Sig::ALRM => 14,
            Sig::TERM => 15,
            Sig::STKFLT => 16,
            Sig::CHLD => 17,
            Sig::CONT => 18,
            Sig::STOP => 19,
            Sig::TSTP => 20,
            Sig::TTIN => 21,
            Sig::TTOU => 22,
            Sig::URG => 23,
            Sig::XCPU => 24,
            Sig::XFSZ => 25,
            Sig::VTALRM => 26,
            Sig::PROF => 27,
            Sig::WINCH => 28,
            Sig::POLL => 29,
            Sig::PWR => 30,
            Sig::SYS => 31,
        }
    }

    /// The named signal with the number `code`, or `None` where no named
    /// signal has that number.
    pub fn try_from_numeric(code: i32) -> (r: Option<Sig>)
        ensures
            r == Sig::named(code as int),
            r is Some <==> Sig::is_named(code as int),
            r matches Some(s) ==> s.code() == code,
    {
        let r = match code {
            1 => Some(Sig::HUP),
            2 => Some(Sig::INT),
            3 => Some(Sig::QUIT),
            4 => Some(Sig::ILL),
            6 => Some(Sig::ABRT),
            7 => Some(Sig::BUS),
            8 => Some(Sig::FPE),
            9 => Some(Sig::KILL),
            10 => Some(Sig::USR1),
            11 => Some(Sig::SEGV),
            12 => Some(Sig::USR2),
            13 => Some(Sig::PIPE),
            14 => Some(Sig::ALRM),
            15 => Some(Sig::TERM),
            16 => Some(Sig::STKFLT),
            17 => Some(Sig::CHLD),
            18 => Some(Sig::CONT),
            19 => Some(Sig::STOP),
            20 => Some(Sig::TSTP),
            21 => Some(Sig::TTIN),
            22 => Some(Sig::TTOU),
            23 => Some(Sig::URG),
            24 => Some(Sig::XCPU),
            25 => Some(Sig::XFSZ),
            26 => Some(Sig::VTALRM),
            27 => Some(Sig::PROF),
            28 => Some(Sig::WINCH),
            29 => Some(Sig::POLL),
            30 => Some(Sig::PWR),
            31 => Some(Sig::SYS),
            _ => None,
        };
        proof {
            if let Some(s) = r {
                Sig::lemma_numeric_round_trip(s);
            }
        }
        r
    }

    /// The named signal with the number `code`.
    ///
    /// The caller has to know that `code` is the number of a named signal;
    /// `try_from_numeric` is there for a number of unknown origin.
    pub fn from_numeric(code: i32) -> (s: Sig)
        requires
            Sig::is_named(code as int),
        ensures
            Sig::named(code as int) == Some(s),
            s.code() == code,
    {
        match Sig::try_from_numeric(code) {
            Some(s) => s,
            None => unreached(),
        }
    }
}

impl From<Sig> for i32 {
    fn from(sig: Sig) -> (code: i32) {
        sig.to_numeric()
    }
}

impl FromSpecImpl<Sig> for i32 {
    open spec fn obeys_from_spec() -> bool {
        true
    }

    open spec fn from_spec(sig: Sig) -> i32 {
        sig.code() as i32
    }
}

} // verus!
