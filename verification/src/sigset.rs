//! Sets of signals, kept as one bit per signal number.

use crate::bits::{
    is_set, lemma_and_not_single, lemma_ones_has_every_bit, lemma_or_single,
    lemma_same_bits_same_word, lemma_zero_has_no_bit,
};
use crate::sig::Sig;
use vstd::prelude::*;

verus! {

/// The largest signal number a set has room for.
pub const MAX_SIGNAL: i32 = 64;

/// Every signal number of the operating system's range, named or not.
pub open spec fn all_signals() -> Set<int> {
    Set::new(|n: int| 1 <= n <= MAX_SIGNAL)
}

/// The numbers of the signals in `sigs`.
pub open spec fn codes_of(sigs: Seq<Sig>) -> Set<int> {
    Set::new(|n: int| exists|i: int| 0 <= i < sigs.len() && #[trigger] sigs[i].code() == n)
}

/// A set of signals.
///
/// The set is a value of its own: it holds no resource of the operating
/// system, and changing it changes nothing but the set. Its view is the set
/// of the numbers of its members. `fill` makes every number from 1 to
/// `MAX_SIGNAL` a member, so the view may hold numbers that belong to no
/// named signal.
///
/// The operations that change a set hand the set back, so that calls can be
/// chained.
pub struct SigSet {
    bits: u64,
}

impl View for SigSet {
    type V = Set<int>;

    /// The numbers of the signals in the set: `n` is a member exactly when
    /// bit `n - 1` is set.
    closed spec fn view(&self) -> Set<int> {
        Set::new(|n: int| 1 <= n <= MAX_SIGNAL && is_set(self.bits, (n - 1) as u64))
    }
}

impl SigSet {
    /// Whether `sig` is a member.
    pub open spec fn spec_has(&self, sig: Sig) -> bool {
        self@.contains(sig.code())
    }

    /// Whether at least one signal of `sigs` is a member.
    pub open spec fn spec_has_any(&self, sigs: Seq<Sig>) -> bool {
        exists|i: int| 0 <= i < sigs.len() && self.spec_has(#[trigger] sigs[i])
    }

    /// Whether every signal of `sigs` is a member.
    pub open spec fn spec_has_all(&self, sigs: Seq<Sig>) -> bool {
        forall|i: int| 0 <= i < sigs.len() ==> self.spec_has(#[trigger] sigs[i])
    }

    /// A set holds signal numbers of the operating system's range only, so
    /// it is finite.
    pub proof fn lemma_members_in_range(&self)
        ensures
            self@.subset_of(all_signals()),
            self@.finite(),
    {
        assert(all_signals() =~= vstd::set_lib::set_int_range(1, MAX_SIGNAL + 1));
        vstd::set_lib::lemma_int_range(1, MAX_SIGNAL + 1);
    }

    /// Two sets with the same members are the same set.
    pub proof fn lemma_same_members_same_set(a: SigSet, b: SigSet)
        requires
            a@ == b@,
        ensures
            a == b,
    {
        assert forall|k: u64| k < 64 implies is_set(a.bits, k) == is_set(b.bits, k) by {
            let n = k + 1;
            assert(b@.contains(n) == is_set(b.bits, k));
        }
        lemma_same_bits_same_word(a.bits, b.bits);
    }

    /// A new set without members.
    pub fn new() -> (set: SigSet)
        ensures
            set@ == Set::<int>::empty(),
            forall|sig: Sig| !set.spec_has(sig),
    {
        let set = SigSet { bits: 0 };
        proof {
            assert forall|n: int| !set@.contains(n) by {
                lemma_zero_has_no_bit((n - 1) as u64);
            }
        }
        set
    }

    /// Takes every member out of the set.
    pub fn clear(&mut self) -> (ret: &mut Self)
        ensures
            ret@ == Set::<int>::empty(),
            *final(self) == *final(ret),
    {
        self.bits = 0;
        proof {
            assert forall|n: int| !self@.contains(n) by {
                lemma_zero_has_no_bit((n - 1) as u64);
            }
        }
        self
    }

    /// Makes every signal number of the operating system's range a member,
    /// also those that belong to no named signal.
    pub fn fill(&mut self) -> (ret: &mut Self)
        ensures
            ret@ == all_signals(),
            *final(self) == *final(ret),
    {
        self.bits = u64::MAX;
        proof {
            assert forall|n: int| 1 <= n <= MAX_SIGNAL implies self@.contains(n) by {
                lemma_ones_has_every_bit((n - 1) as u64);
            }
        }
        self
    }

    /// Makes `sig` a member. A signal that is a member already stays one,
    /// and the set does not change.
    pub fn add(&mut self, sig: Sig) -> (ret: &mut Self)
        ensures
            ret@ == old(self)@.insert(sig.code()),
            *final(self) == *final(ret),
    {
        let k: u64 = (sig.to_numeric() - 1) as u64;
        self.bits = self.bits | (1u64 << k);
        proof {
            assert forall|n: int|
                self@.contains(n) == old(self)@.insert(sig.code()).contains(n) by {
                if 1 <= n <= MAX_SIGNAL {
                    lemma_or_single(old(self).bits, k, (n - 1) as u64);
                }
            }
        }
        self
    }

    /// Makes every signal of `sigs` a member.
    pub fn add_many(&mut self, sigs: &[Sig]) -> (ret: &mut Self)
        ensures
            ret@ == old(self)@.union(codes_of(sigs@)),
            *final(self) == *final(ret),
    {
        let mut i: usize = 0;
        while i < sigs.len()
            invariant
                i <= sigs.len(),
                self@ == old(self)@.union(codes_of(sigs@.take(i as int))),
            decreases sigs.len() - i,
        {
            proof {
                lemma_codes_of_push(sigs@.take(i as int), sigs@[i as int]);
                assert(sigs@.take(i as int).push(sigs@[i as int]) =~= sigs@.take(i + 1));
            }
            self.add(sigs[i]);
            i += 1;
        }
        proof {
            assert(sigs@.take(i as int) =~= sigs@);
        }
        self
    }

    /// Takes `sig` out of the set. A signal that is no member stays out, and
    /// the set does not change.
    pub fn remove(&mut self, sig: Sig) -> (ret: &mut Self)
        ensures
            ret@ == old(self)@.remove(sig.code()),
            *final(self) == *final(ret),
    {
        let k: u64 = (sig.to_numeric() - 1) as u64;
        self.bits = self.bits & !(1u64 << k);
        proof {
            assert forall|n: int|
                self@.contains(n) == old(self)@.remove(sig.code()).contains(n) by {
                if 1 <= n <= MAX_SIGNAL {
                    lemma_and_not_single(old(self).bits, k, (n - 1) as u64);
                }
            }
        }
        self
    }

    /// Takes every signal of `sigs` out of the set.
    pub fn remove_many(&mut self, sigs: &[Sig]) -> (ret: &mut Self)
        ensures
            ret@ == old(self)@.difference(codes_of(sigs@)),
            *final(self) == *final(ret),
    {
        let mut i: usize = 0;
        while i < sigs.len()
            invariant
                i <= sigs.len(),
                self@ == old(self)@.difference(codes_of(sigs@.take(i as int))),
            decreases sigs.len() - i,
        {
            proof {
                lemma_codes_of_push(sigs@.take(i as int), sigs@[i as int]);
                assert(sigs@.take(i as int).push(sigs@[i as int]) =~= sigs@.take(i + 1));
            }
            self.remove(sigs[i]);
            i += 1;
        }
        proof {
            assert(sigs@.take(i as int) =~= sigs@);
        }
        self
    }

    /// Whether `sig` is a member of the set.
    pub fn has(&self, sig: Sig) -> (r: bool)
        ensures
            r == self.spec_has(sig),
    {
        let k: u64 = (sig.to_numeric() - 1) as u64;
        self.bits & (1u64 << k) != 0
    }

    /// Whether at least one signal of `sigs` is a member of the set. Of an
    /// empty list none is.
    pub fn has_any(&self, sigs: &[Sig]) -> (r: bool)
        ensures
            r == self.spec_has_any(sigs@),
    {
        let mut i: usize = 0;
        while i < sigs.len()
            invariant
                i <= sigs.len(),
                forall|j: int| 0 <= j < i ==> !self.spec_has(#[trigger] sigs@[j]),
            decreases sigs.len() - i,
        {
            if self.has(sigs[i]) {
                return true;
            }
            i += 1;
        }
        false
    }

    /// Whether every signal of `sigs` is a member of the set. Of an empty
    /// list every one is.
    pub fn has_all(&self, sigs: &[Sig]) -> (r: bool)
        ensures
            r == self.spec_has_all(sigs@),
    {
        let mut i: usize = 0;
        while i < sigs.len()
            invariant
                i <= sigs.len(),
                forall|j: int| 0 <= j < i ==> self.spec_has(#[trigger] sigs@[j]),
            decreases sigs.len() - i,
        {
            if !self.has(sigs[i]) {
                return false;
            }
            i += 1;
        }
        true
    }

    /// The set whose members are the signals of `sigs`.
    pub fn from(sigs: &[Sig]) -> (set: SigSet)
        ensures
            set@ == codes_of(sigs@),
    {
        let mut set = SigSet::new();
        set.add_many(sigs);
        set
    }

    /// The numbers of all members, each once, in rising order.
    ///
    /// This is what a caller hands to the operating system, signal by
    /// signal, when it wants the system to know the set.
    pub fn members(&self) -> (codes: Vec<i32>)
        ensures
            lists(codes@, self@),
            codes@.len() == self@.len(),
    {
        let mut codes: Vec<i32> = Vec::new();
        let mut n: i32 = 1;
        while n <= MAX_SIGNAL
            invariant
                1 <= n <= MAX_SIGNAL + 1,
                forall|m: int|
                    (self@.contains(m) && m < n) <==> numbers(codes@).contains(m),
                forall|i: int, j: int| 0 <= i < j < codes@.len() ==> codes@[i] < codes@[j],
                forall|i: int| 0 <= i < codes@.len() ==> #[trigger] codes@[i] < n,
            decreases MAX_SIGNAL + 1 - n,
        {
            let k: u64 = (n - 1) as u64;
            let ghost before = codes@;
            if self.bits & (1u64 << k) != 0 {
                codes.push(n);
            }
            proof {
                assert forall|m: int|
                    (self@.contains(m) && m < n + 1) <==> numbers(codes@).contains(m) by {
                    if numbers(before).contains(m) {
                        let i = choose|i: int| 0 <= i < before.len() && numbers(before)[i] == m;
                        assert(numbers(codes@)[i] == m);
                    }
                    if numbers(codes@).contains(m) {
                        let i = choose|i: int| 0 <= i < codes@.len() && numbers(codes@)[i] == m;
                        if i < before.len() {
                            assert(numbers(before)[i] == m);
                        }
                    }
                    if self@.contains(m) && m == n {
                        assert(numbers(codes@)[before.len() as int] == m);
                    }
                }
            }
            n += 1;
        }
        proof {
            assert(numbers(codes@).to_set() =~= self@);
            numbers(codes@).unique_seq_to_set();
        }
        codes
    }
}

/// The numbers in `codes` as mathematical integers, in the same order.
pub open spec fn numbers(codes: Seq<i32>) -> Seq<int> {
    Seq::new(codes.len(), |i: int| codes[i] as int)
}

/// Whether `codes` holds the numbers in `members` and no other, each once,
/// in rising order.
pub open spec fn lists(codes: Seq<i32>, members: Set<int>) -> bool {
    &&& numbers(codes).to_set() == members
    &&& forall|i: int, j: int| 0 <= i < j < codes.len() ==> codes[i] < codes[j]
}

/// The last number of a list is the largest member, and the list without
/// it lists the other members.
proof fn lemma_lists_without_last(codes: Seq<i32>, members: Set<int>)
    requires
        lists(codes, members),
        codes.len() > 0,
    ensures
        members.contains(codes.last() as int),
        forall|n: int| members.contains(n) ==> n <= codes.last(),
        lists(codes.drop_last(), members.remove(codes.last() as int)),
{
    let last = codes.len() - 1;
    let shorter = codes.drop_last();
    assert(numbers(codes)[last] == codes.last());
    assert forall|n: int|
        numbers(shorter).to_set().contains(n) == members.remove(codes.last() as int).contains(
            n,
        ) by {
        if numbers(shorter).to_set().contains(n) {
            let k = choose|k: int| 0 <= k < shorter.len() && numbers(shorter)[k] == n;
            assert(numbers(codes)[k] == n);
        }
        if members.remove(codes.last() as int).contains(n) {
            let k = choose|k: int| 0 <= k < codes.len() && numbers(codes)[k] == n;
            assert(numbers(shorter)[k] == n);
        }
    }
    assert(numbers(shorter).to_set() =~= members.remove(codes.last() as int));
}

/// There is one way only to list the members of a set.
pub proof fn lemma_lists_is_exact(a: Seq<i32>, b: Seq<i32>, members: Set<int>)
    requires
        lists(a, members),
        lists(b, members),
    ensures
        a == b,
    decreases a.len(),
{
    if a.len() > 0 && b.len() > 0 {
        lemma_lists_without_last(a, members);
        lemma_lists_without_last(b, members);
        lemma_lists_is_exact(a.drop_last(), b.drop_last(), members.remove(a.last() as int));
        assert(b =~= b.drop_last().push(b.last()));
    } else if a.len() > 0 {
        lemma_lists_without_last(a, members);
    } else if b.len() > 0 {
        lemma_lists_without_last(b, members);
    }
}

/// The numbers of a list with one more signal are those of the list and the
/// number of that signal.
pub proof fn lemma_codes_of_push(sigs: Seq<Sig>, sig: Sig)
    ensures
        codes_of(sigs.push(sig)) == codes_of(sigs).insert(sig.code()),
{
    let longer = sigs.push(sig);
    assert forall|n: int| codes_of(longer).contains(n) == codes_of(sigs).insert(
        sig.code(),
    ).contains(n) by {
        if codes_of(sigs).contains(n) {
            let i = choose|i: int| 0 <= i < sigs.len() && #[trigger] sigs[i].code() == n;
            assert(longer[i].code() == n);
        }
        if n == sig.code() {
            assert(longer[sigs.len() as int].code() == n);
        }
    }
}

} // verus!
