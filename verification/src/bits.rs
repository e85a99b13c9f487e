//! Facts about single bits of a 64-bit word.

use vstd::prelude::*;

verus! {

/// The word that has bit `k` set and no other.
pub open spec fn single(k: u64) -> u64 {
    1u64 << k
}

/// Whether bit `k` of `word` is set.
pub open spec fn is_set(word: u64, k: u64) -> bool {
    word & single(k) != 0
}

/// The zero word has no bit set.
pub proof fn lemma_zero_has_no_bit(k: u64)
    ensures
        !is_set(0, k),
{
    assert(0u64 & (1u64 << k) == 0) by (bit_vector);
}

/// The word of all ones has each of its 64 bits set.
pub proof fn lemma_ones_has_every_bit(k: u64)
    requires
        k < 64,
    ensures
        is_set(u64::MAX, k),
{
    assert(0xffff_ffff_ffff_ffffu64 & (1u64 << k) != 0) by (bit_vector)
        requires
            k < 64,
    ;
}

/// Or-ing a single bit in sets that bit and leaves every other as it was.
pub proof fn lemma_or_single(word: u64, k: u64, j: u64)
    requires
        k < 64,
        j < 64,
    ensures
        is_set(word | single(k), j) == (j == k || is_set(word, j)),
{
    assert(((word | (1u64 << k)) & (1u64 << j) != 0) == (j == k || word & (1u64 << j) != 0))
        by (bit_vector)
        requires
            k < 64,
            j < 64,
    ;
}

/// And-ing with the complement of a single bit clears that bit and leaves
/// every other as it was.
pub proof fn lemma_and_not_single(word: u64, k: u64, j: u64)
    requires
        k < 64,
        j < 64,
    ensures
        is_set(word & !single(k), j) == (j != k && is_set(word, j)),
{
    assert(((word & !(1u64 << k)) & (1u64 << j) != 0) == (j != k && word & (1u64 << j) != 0))
        by (bit_vector)
        requires
            k < 64,
            j < 64,
    ;
}

/// A word other than zero has a set bit somewhere below position `hi`, once
/// every bit from `hi` upwards is known to be clear.
proof fn lemma_nonzero_has_bit(word: u64, hi: u64) -> (k: u64)
    requires
        word != 0,
        hi <= 64,
        word >> hi == 0,
    ensures
        k < hi,
        is_set(word, k),
    decreases hi,
{
    assert(hi != 0) by (bit_vector)
        requires
            word != 0,
            word >> hi == 0,
    ;
    let top = (hi - 1) as u64;
    if word & (1u64 << top) != 0 {
        top
    } else {
        assert(word >> top == 0) by (bit_vector)
            requires
                0 < hi <= 64,
                top == hi - 1,
                word >> hi == 0,
                word & (1u64 << top) == 0,
        ;
        lemma_nonzero_has_bit(word, top)
    }
}

/// Two words with the same 64 bits are the same word.
pub proof fn lemma_same_bits_same_word(a: u64, b: u64)
    requires
        forall|k: u64| k < 64 ==> is_set(a, k) == is_set(b, k),
    ensures
        a == b,
{
    if a != b {
        let diff = a ^ b;
        assert(diff != 0 && diff >> 64 == 0) by (bit_vector)
            requires
                a != b,
                diff == a ^ b,
        ;
        let k = lemma_nonzero_has_bit(diff, 64);
        assert((a & (1u64 << k) != 0) != (b & (1u64 << k) != 0)) by (bit_vector)
            requires
                diff == a ^ b,
                diff & (1u64 << k) != 0,
        ;
        assert(is_set(a, k) != is_set(b, k));
    }
}

} // verus!
