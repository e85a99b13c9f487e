use pakr_signals::mask::CHANGED;
use pakr_signals::sigset::MAX_SIGNAL;
use pakr_signals::status::succeeded;
use pakr_signals::{MaskAction, MaskChange, Sig, SigSet};

/// All signals
const SIG_ALL: &[Sig] = &[
    Sig::ABRT,
    Sig::ALRM,
    Sig::BUS,
    Sig::CHLD,
    Sig::CONT,
    Sig::FPE,
    Sig::HUP,
    Sig::ILL,
    Sig::INT,
    Sig::KILL,
    Sig::PIPE,
    Sig::POLL,
    Sig::PROF,
    Sig::PWR,
    Sig::QUIT,
    Sig::SEGV,
    Sig::STKFLT,
    Sig::STOP,
    Sig::SYS,
    Sig::TERM,
    Sig::TSTP,
    Sig::TTIN,
    Sig::TTOU,
    Sig::URG,
    Sig::USR1,
    Sig::USR2,
    Sig::VTALRM,
    Sig::WINCH,
    Sig::XCPU,
    Sig::XFSZ,
];

#[test]
fn all_signals() {
    let mut sigset = SigSet::new();

    assert!(!sigset.has_any(SIG_ALL));
    sigset.fill();
    assert!(sigset.has_all(SIG_ALL));
    sigset.clear();
    assert!(!sigset.has_any(SIG_ALL));
}

#[test]
fn single_signal_all_any() {
    let sigset = SigSet::from(&[Sig::USR1]);
    assert!(sigset.has(Sig::USR1));
    assert!(sigset.has_any(SIG_ALL));
    assert!(!sigset.has_all(SIG_ALL));
}

#[test]
fn single_signal() {
    let mut sigset = SigSet::new();

    for &sig in SIG_ALL {
        assert!(!sigset.has(sig));
        sigset.add(sig);
        assert!(sigset.has(sig));
        sigset.remove(sig);
        assert!(!sigset.has(sig));
    }
}

#[test]
fn new_set_has_no_signal() {
    let sigset = SigSet::new();
    for &sig in SIG_ALL {
        assert!(!sigset.has(sig));
    }
    assert!(!sigset.has_all(SIG_ALL));
    assert_eq!(sigset.members(), Vec::<i32>::new());
}

#[test]
fn filled_set_has_every_signal() {
    let mut sigset = SigSet::new();
    sigset.fill();
    for &sig in SIG_ALL {
        assert!(sigset.has(sig));
    }
    assert!(sigset.has_all(SIG_ALL));
    assert!(sigset.has_any(SIG_ALL));
    assert!(sigset.has_any(&[Sig::KILL]));
}

#[test]
fn fill_reaches_beyond_the_named_signals() {
    let mut sigset = SigSet::new();
    sigset.fill();
    let expected: Vec<i32> = (1..=64).collect();
    assert_eq!(sigset.members(), expected);
    assert_eq!(MAX_SIGNAL, 64);
    // 5 and everything above 31 belong to no named signal
    assert!(sigset.members().contains(&5));
    assert!(sigset.members().contains(&32));
    assert!(sigset.members().contains(&64));
}

#[test]
fn fill_and_clear_are_idempotent() {
    let mut sigset = SigSet::from(&[Sig::HUP]);
    sigset.fill();
    let once = sigset.members();
    sigset.fill();
    assert_eq!(sigset.members(), once);
    sigset.clear();
    assert_eq!(sigset.members(), Vec::<i32>::new());
    sigset.clear();
    assert_eq!(sigset.members(), Vec::<i32>::new());
    assert!(!sigset.has_any(SIG_ALL));
}

#[test]
fn clear_after_fill_leaves_nothing() {
    let mut sigset = SigSet::new();
    sigset.fill().clear();
    for &sig in SIG_ALL {
        assert!(!sigset.has(sig));
    }
    assert!(!sigset.has_any(SIG_ALL));
}

#[test]
fn add_twice_is_add_once() {
    for &sig in SIG_ALL {
        let mut once = SigSet::new();
        once.add(sig);
        let mut twice = SigSet::new();
        twice.add(sig);
        twice.add(sig);
        assert_eq!(once.members(), twice.members());
        assert_eq!(twice.members(), vec![sig.to_numeric()]);
        for &other in SIG_ALL {
            assert_eq!(once.has(other), twice.has(other));
            assert_eq!(once.has(other), other == sig);
        }
    }
}

#[test]
fn add_leaves_other_members_alone() {
    let mut sigset = SigSet::from(&[Sig::HUP, Sig::SYS]);
    sigset.add(Sig::CHLD);
    assert_eq!(sigset.members(), vec![1, 17, 31]);
    sigset.add(Sig::HUP);
    assert_eq!(sigset.members(), vec![1, 17, 31]);
}

#[test]
fn remove_of_absent_signal_changes_nothing() {
    let mut sigset = SigSet::from(&[Sig::INT, Sig::TERM]);
    sigset.remove(Sig::QUIT);
    assert_eq!(sigset.members(), vec![2, 15]);
    sigset.remove(Sig::INT);
    assert_eq!(sigset.members(), vec![15]);
    sigset.remove(Sig::INT);
    assert_eq!(sigset.members(), vec![15]);
    assert!(!sigset.has(Sig::INT));
    assert!(sigset.has(Sig::TERM));
}

#[test]
fn remove_from_filled_set_takes_one_number_out() {
    let mut sigset = SigSet::new();
    sigset.fill().remove(Sig::KILL);
    let expected: Vec<i32> = (1..=64).filter(|&n| n != 9).collect();
    assert_eq!(sigset.members(), expected);
    assert!(!sigset.has(Sig::KILL));
    assert!(sigset.has(Sig::STOP));
    assert!(!sigset.has_all(SIG_ALL));
}

#[test]
fn empty_list_has_all_and_not_any() {
    let empty: &[Sig] = &[];
    let mut sigset = SigSet::new();
    assert!(sigset.has_all(empty));
    assert!(!sigset.has_any(empty));
    sigset.add(Sig::USR2);
    assert!(sigset.has_all(empty));
    assert!(!sigset.has_any(empty));
    sigset.fill();
    assert!(sigset.has_all(empty));
    assert!(!sigset.has_any(empty));
}

#[test]
fn from_one_signal() {
    let sigset = SigSet::from(&[Sig::USR1]);
    assert!(sigset.has(Sig::USR1));
    assert!(!sigset.has(Sig::USR2));
    assert!(sigset.has_any(&[Sig::USR1, Sig::USR2]));
    assert!(!sigset.has_all(&[Sig::USR1, Sig::USR2]));
    assert_eq!(sigset.members(), vec![10]);
}

#[test]
fn from_is_new_then_add_many() {
    let list = [Sig::WINCH, Sig::ABRT, Sig::WINCH, Sig::PIPE];
    let made = SigSet::from(&list);
    let mut grown = SigSet::new();
    grown.add_many(&list);
    assert_eq!(made.members(), grown.members());
    assert_eq!(made.members(), vec![6, 13, 28]);
    assert!(made.has_all(&list));
    let none: &[Sig] = &[];
    assert_eq!(SigSet::from(none).members(), Vec::<i32>::new());
}

#[test]
fn add_many_and_remove_many() {
    let mut sigset = SigSet::from(&[Sig::HUP]);
    sigset.add_many(&[Sig::INT, Sig::QUIT, Sig::HUP]);
    assert_eq!(sigset.members(), vec![1, 2, 3]);
    sigset.remove_many(&[Sig::INT, Sig::TERM, Sig::INT]);
    assert_eq!(sigset.members(), vec![1, 3]);
    sigset.remove_many(&[]);
    assert_eq!(sigset.members(), vec![1, 3]);
    sigset.add_many(&[]);
    assert_eq!(sigset.members(), vec![1, 3]);
    sigset.remove_many(SIG_ALL);
    assert_eq!(sigset.members(), Vec::<i32>::new());
}

#[test]
fn remove_many_from_filled_set_keeps_the_unnamed_numbers() {
    let mut sigset = SigSet::new();
    sigset.fill().remove_many(SIG_ALL);
    let expected: Vec<i32> = std::iter::once(5).chain(32..=64).collect();
    assert_eq!(sigset.members(), expected);
    assert!(!sigset.has_any(SIG_ALL));
}

#[test]
fn calls_can_be_chained() {
    let mut sigset = SigSet::new();
    sigset.add(Sig::INT).add(Sig::TERM).remove(Sig::INT).add_many(&[Sig::USR1, Sig::USR2]);
    assert_eq!(sigset.members(), vec![10, 12, 15]);
    sigset.clear().add(Sig::ALRM);
    assert_eq!(sigset.members(), vec![14]);
    let last = sigset.fill().remove_many(&[Sig::ALRM]).has(Sig::ALRM);
    assert!(!last);
}

#[test]
fn has_any_and_has_all_on_mixed_lists() {
    let sigset = SigSet::from(&[Sig::TSTP, Sig::TTIN, Sig::TTOU]);
    assert!(sigset.has_any(&[Sig::HUP, Sig::TTOU]));
    assert!(sigset.has_any(&[Sig::TTOU, Sig::HUP]));
    assert!(!sigset.has_any(&[Sig::HUP, Sig::INT]));
    assert!(sigset.has_all(&[Sig::TTIN, Sig::TSTP]));
    assert!(sigset.has_all(&[Sig::TTIN, Sig::TTIN]));
    assert!(!sigset.has_all(&[Sig::TTIN, Sig::HUP]));
    assert!(!sigset.has_all(&[Sig::HUP, Sig::TTIN]));
}

#[test]
fn members_rise_and_hold_each_member_once() {
    let sigset = SigSet::from(&[Sig::SYS, Sig::HUP, Sig::PWR, Sig::HUP, Sig::USR1]);
    let members = sigset.members();
    assert_eq!(members, vec![1, 10, 30, 31]);
    for pair in members.windows(2) {
        assert!(pair[0] < pair[1]);
    }
    for &sig in SIG_ALL {
        assert_eq!(members.contains(&sig.to_numeric()), sigset.has(sig));
    }
}

#[test]
fn disable_then_enable_for_one_signal() {
    let sigint = SigSet::from(&[Sig::INT]);
    let disable = sigint.disable_default_handler();
    assert_eq!(disable, MaskChange { action: MaskAction::Block, signals: vec![2] });
    assert_eq!(disable.signals, vec![libc::SIGINT]);
    let enable = sigint.enable_default_handler();
    assert_eq!(enable, MaskChange { action: MaskAction::Unblock, signals: vec![2] });
    // the change back names the signals of the change, and no other
    assert_eq!(enable.signals, disable.signals);
    assert_ne!(enable.action, disable.action);
    // the set itself is as it was
    assert_eq!(sigint.members(), vec![2]);
}

#[test]
fn mask_change_names_the_members() {
    let mut sigset = SigSet::from(&[Sig::TERM, Sig::QUIT, Sig::HUP, Sig::QUIT]);
    assert_eq!(
        sigset.disable_default_handler(),
        MaskChange { action: MaskAction::Block, signals: vec![1, 3, 15] }
    );
    assert_eq!(
        sigset.enable_default_handler(),
        MaskChange { action: MaskAction::Unblock, signals: vec![1, 3, 15] }
    );
    sigset.clear();
    assert_eq!(
        sigset.disable_default_handler(),
        MaskChange { action: MaskAction::Block, signals: vec![] }
    );
    sigset.fill();
    let all: Vec<i32> = (1..=64).collect();
    assert_eq!(sigset.enable_default_handler().signals, all);
    // the signals that no mask can hold back are named like any other
    let stubborn = SigSet::from(&[Sig::KILL, Sig::STOP]).disable_default_handler();
    assert_eq!(stubborn.signals, vec![libc::SIGKILL, libc::SIGSTOP]);
}

#[test]
fn mask_actions_by_number() {
    assert_eq!(MaskAction::Block.to_numeric(), 0);
    assert_eq!(MaskAction::Unblock.to_numeric(), 1);
    assert_eq!(MaskAction::Block.to_numeric(), libc::SIG_BLOCK);
    assert_eq!(MaskAction::Unblock.to_numeric(), libc::SIG_UNBLOCK);
}

#[test]
fn outcome_of_a_mask_change() {
    assert_eq!(MaskChange::outcome(0), Ok(()));
    assert_eq!(MaskChange::outcome(22), Err(22));
    assert_eq!(MaskChange::outcome(-1), Err(-1));
    assert_eq!(MaskChange::outcome(libc::EINVAL), Err(libc::EINVAL));
    assert_eq!(MaskChange::outcome(libc::EFAULT), Err(libc::EFAULT));
    assert_eq!(MaskChange::outcome(1), Err(1));
    assert_eq!(MaskChange::outcome(i32::MAX), Err(i32::MAX));
    assert_eq!(MaskChange::outcome(i32::MIN), Err(i32::MIN));
    assert_eq!(CHANGED, 0);
}

#[test]
fn rejected_mask_change_is_no_success() {
    // the rule for the calls that answer -1 would call 22 a success
    assert!(succeeded(22));
    assert!(MaskChange::outcome(22).is_err());
    for status in -70..=70 {
        assert_eq!(MaskChange::outcome(status).is_ok(), status == 0);
        assert_eq!(MaskChange::outcome(status).err(), if status == 0 { None } else { Some(status) });
    }
}

#[test]
fn refused_number_ends_a_change_only_for_a_named_signal() {
    for &sig in SIG_ALL {
        assert!(MaskChange::tolerates(sig.to_numeric(), 0));
        assert!(!MaskChange::tolerates(sig.to_numeric(), -1));
    }
    for code in [0, 5, 32, 33, 34, 64, 65, -1, i32::MIN, i32::MAX] {
        assert!(MaskChange::tolerates(code, 0));
        assert!(MaskChange::tolerates(code, -1));
    }
    assert!(MaskChange::tolerates(2, 1));
    assert!(MaskChange::tolerates(2, 22));
    assert!(!MaskChange::tolerates(libc::SIGINT, -1));
}
