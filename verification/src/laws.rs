//! What holds of signal sets, whatever they hold.
//!
//! Each statement speaks of sets through their views, as the contracts of
//! the operations do: a set "after `add`" is any set whose view is the view
//! from before with the signal's number inserted.

use crate::sig::Sig;
use crate::sigset::{all_signals, codes_of, lemma_codes_of_push, SigSet};
use vstd::prelude::*;

verus! {

/// A set without members holds no signal, neither alone nor as one of a
/// list.
pub proof fn lemma_empty_holds_nothing(set: SigSet, sig: Sig, sigs: Seq<Sig>)
    requires
        set@ == Set::<int>::empty(),
    ensures
        !set.spec_has(sig),
        !set.spec_has_any(sigs),
{
}

/// A set that was filled holds every named signal: each alone, all of any
/// list, and one of any list that is not empty.
pub proof fn lemma_full_holds_everything(set: SigSet, sig: Sig, sigs: Seq<Sig>)
    requires
        set@ == all_signals(),
    ensures
        set.spec_has(sig),
        set.spec_has_all(sigs),
        sigs.len() > 0 ==> set.spec_has_any(sigs),
{
    if sigs.len() > 0 {
        assert(set.spec_has(sigs[0]));
    }
}

/// Clearing a set that was cleared changes nothing: what `clear` leaves
/// does not depend on what the set held before.
pub proof fn lemma_clear_is_idempotent(once: SigSet, twice: SigSet)
    requires
        once@ == Set::<int>::empty(),
        twice@ == Set::<int>::empty(),
    ensures
        twice == once,
{
    SigSet::lemma_same_members_same_set(twice, once);
}

/// Filling a set that was filled changes nothing: what `fill` leaves does
/// not depend on what the set held before.
pub proof fn lemma_fill_is_idempotent(once: SigSet, twice: SigSet)
    requires
        once@ == all_signals(),
        twice@ == all_signals(),
    ensures
        twice == once,
{
    SigSet::lemma_same_members_same_set(twice, once);
}

/// A signal is a member once it was added, and no member once it was
/// removed again; the removal gives back the set from before the signal was
/// added, where that set did not hold it.
pub proof fn lemma_add_then_remove(start: SigSet, added: SigSet, removed: SigSet, sig: Sig)
    requires
        added@ == start@.insert(sig.code()),
        removed@ == added@.remove(sig.code()),
    ensures
        added.spec_has(sig),
        !removed.spec_has(sig),
        !start.spec_has(sig) ==> removed == start,
{
    if !start.spec_has(sig) {
        assert(removed@ =~= start@);
        SigSet::lemma_same_members_same_set(removed, start);
    }
}

/// Adding a signal that is a member, and removing one that is none, leaves
/// the set as it was.
pub proof fn lemma_nothing_to_do(start: SigSet, added: SigSet, removed: SigSet, sig: Sig)
    requires
        added@ == start@.insert(sig.code()),
        removed@ == start@.remove(sig.code()),
    ensures
        start.spec_has(sig) ==> added == start,
        !start.spec_has(sig) ==> removed == start,
{
    if start.spec_has(sig) {
        assert(added@ =~= start@);
        SigSet::lemma_same_members_same_set(added, start);
    } else {
        assert(removed@ =~= start@);
        SigSet::lemma_same_members_same_set(removed, start);
    }
}

/// Adding a signal a second time changes nothing: the set is the one that
/// the first addition left.
pub proof fn lemma_add_is_idempotent(start: SigSet, once: SigSet, twice: SigSet, sig: Sig)
    requires
        once@ == start@.insert(sig.code()),
        twice@ == once@.insert(sig.code()),
    ensures
        twice == once,
{
    assert(twice@ =~= once@);
    SigSet::lemma_same_members_same_set(twice, once);
}

/// Adding a list of signals is adding them one after the other, and
/// removing a list is removing them one after the other.
pub proof fn lemma_many_is_one_by_one(members: Set<int>, sigs: Seq<Sig>, sig: Sig)
    ensures
        members.union(codes_of(sigs.push(sig))) == members.union(codes_of(sigs)).insert(
            sig.code(),
        ),
        members.difference(codes_of(sigs.push(sig))) == members.difference(
            codes_of(sigs),
        ).remove(sig.code()),
        members.union(codes_of(Seq::<Sig>::empty())) == members,
        members.difference(codes_of(Seq::<Sig>::empty())) == members,
{
    lemma_codes_of_push(sigs, sig);
    assert(members.union(codes_of(sigs).insert(sig.code())) =~= members.union(
        codes_of(sigs),
    ).insert(sig.code()));
    assert(members.difference(codes_of(sigs).insert(sig.code())) =~= members.difference(
        codes_of(sigs),
    ).remove(sig.code()));
}

/// A set holds every signal of the list it was made from, and no other
/// named signal.
pub proof fn lemma_from_holds_its_list(set: SigSet, sigs: Seq<Sig>, sig: Sig)
    requires
        set@ == codes_of(sigs),
    ensures
        set.spec_has_all(sigs),
        set.spec_has(sig) <==> sigs.contains(sig),
{
}

/// Of the empty list, every set holds all signals and none holds any.
pub proof fn lemma_empty_list(set: SigSet)
    ensures
        set.spec_has_all(Seq::<Sig>::empty()),
        !set.spec_has_any(Seq::<Sig>::empty()),
{
}

} // verus!
