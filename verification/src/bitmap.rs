//! The mathematical model of a state word: a 64-bit bitmap with mask-based
//! set / clear operations and a population count.

use vstd::prelude::*;
use vstd::arithmetic::power2::pow2;
use vstd::arithmetic::power2::lemma_pow2_unfold;
use vstd::arithmetic::power2::lemma2_to64;

verus! {

/// Number of one bits in `w`.
pub open spec fn popcount(w: u64) -> nat
    decreases w,
{
    if w == 0 {
        0
    } else {
        (w % 2) as nat + popcount(w / 2)
    }
}

/// A bitmap after an atomic OR with `mask`.
pub open spec fn set_bits(w: u64, mask: u64) -> u64 {
    w | mask
}

/// A bitmap after an atomic AND with the negation of `mask`.
pub open spec fn clear_bits(w: u64, mask: u64) -> u64 {
    w & !mask
}

/// Population count of a 64-bit word, computed bit by bit.
pub fn popcount64(w: u64) -> (c: u32)
    ensures
        c == popcount(w),
        c <= 64,
{
    proof {
        lemma_popcount_bounded(w);
    }
    let mut x: u64 = w;
    let mut c: u32 = 0;
    while x != 0
        invariant
            c + popcount(x) == popcount(w),
            popcount(w) <= 64,
        decreases x,
    {
        assert(popcount(x) == (x % 2) + popcount(x / 2));
        c = c + (x % 2) as u32;
        x = x / 2;
    }
    c
}

/// A 64-bit word has at most 64 one bits.
pub proof fn lemma_popcount_bounded(w: u64)
    ensures
        popcount(w) <= 64,
{
    lemma2_to64();
    lemma_popcount_le_width(w, 64);
}

/// Setting bits is idempotent: OR-ing the same mask twice leaves the word
/// as one OR did.
pub proof fn lemma_set_idempotent(w: u64, mask: u64)
    ensures
        set_bits(set_bits(w, mask), mask) == set_bits(w, mask),
{
    assert((w | mask) | mask == w | mask) by (bit_vector);
}

/// Clearing bits is idempotent: AND-ing out the same mask twice leaves the
/// word as one AND did.
pub proof fn lemma_clear_idempotent(w: u64, mask: u64)
    ensures
        clear_bits(clear_bits(w, mask), mask) == clear_bits(w, mask),
{
    assert((w & !mask) & !mask == w & !mask) by (bit_vector);
}

/// Setting and then clearing a mask restores the prior word, provided none
/// of the mask's bits were already set.
pub proof fn lemma_set_then_clear(w: u64, mask: u64)
    requires
        w & mask == 0,
    ensures
        clear_bits(set_bits(w, mask), mask) == w,
{
    assert(w & mask == 0 ==> (w | mask) & !mask == w) by (bit_vector);
}

/// Setting bits never lowers the population count: once a flag is recorded,
/// recording more flags only keeps or raises the count.
pub proof fn lemma_set_monotone(w: u64, mask: u64)
    ensures
        popcount(set_bits(w, mask)) >= popcount(w),
{
    lemma_popcount_or_monotone(w, mask);
}

/// OR-ing any word into `w` keeps or raises the population count.
proof fn lemma_popcount_or_monotone(w: u64, m: u64)
    ensures
        popcount(w | m) >= popcount(w),
    decreases w + m,
{
    if w == 0 {
        // popcount(w) is 0, and a population count is never negative.
    } else {
        assert(w | m != 0) by (bit_vector)
            requires
                w != 0,
        ;
        assert((w | m) % 2 == (w % 2) | (m % 2)) by (bit_vector);
        assert((w | m) / 2 == (w / 2) | (m / 2)) by (bit_vector);
        assert(((w % 2) | (m % 2)) >= w % 2) by (bit_vector);
        assert(w / 2 + m / 2 < w + m) by (bit_vector)
            requires
                w != 0,
        ;
        lemma_popcount_or_monotone(w / 2, m / 2);
    }
}

/// A worker's one-hot mask holds exactly one bit, so a worker is never
/// counted twice however often its flag is set.
pub proof fn lemma_one_hot_mask(i: u64)
    requires
        i < 64,
    ensures
        popcount(1u64 << i) == 1,
    decreases i,
{
    if i == 0 {
        assert(1u64 << 0u64 == 1) by (bit_vector);
        assert(popcount(0) == 0);
        assert(popcount(1) == 1);
    } else {
        let m = 1u64 << i;
        let j = (i - 1) as u64;
        assert(m % 2 == 0 && m / 2 == 1u64 << j && m != 0) by (bit_vector)
            requires
                m == 1u64 << i && 0 < i < 64 && j == i - 1,
        ;
        lemma_one_hot_mask(j);
    }
}

/// Distinct workers carry disjoint one-hot masks.
pub proof fn lemma_masks_disjoint(i: u64, j: u64)
    requires
        i < 64,
        j < 64,
        i != j,
    ensures
        (1u64 << i) & (1u64 << j) == 0,
{
    assert((1u64 << i) & (1u64 << j) == 0) by (bit_vector)
        requires
            i < 64 && j < 64 && i != j,
    ;
}

/// Over disjoint masks the population count is additive: each set flag
/// contributes exactly one to the count.
pub proof fn lemma_popcount_disjoint(w: u64, m: u64)
    requires
        w & m == 0,
    ensures
        popcount(w | m) == popcount(w) + popcount(m),
    decreases w + m,
{
    if w == 0 {
        assert(w | m == m) by (bit_vector)
            requires
                w == 0,
        ;
    } else if m == 0 {
        assert(w | m == w) by (bit_vector)
            requires
                m == 0,
        ;
    } else {
        assert(w | m != 0) by (bit_vector)
            requires
                w != 0,
        ;
        assert((w | m) % 2 == w % 2 + m % 2) by (bit_vector)
            requires
                w & m == 0,
        ;
        assert((w | m) / 2 == (w / 2) | (m / 2)) by (bit_vector);
        assert((w / 2) & (m / 2) == 0) by (bit_vector)
            requires
                w & m == 0,
        ;
        assert(w / 2 + m / 2 < w + m) by (bit_vector)
            requires
                w != 0 && m != 0,
        ;
        lemma_popcount_disjoint(w / 2, m / 2);
    }
}

/// A word below `2^k` has at most `k` one bits.
proof fn lemma_popcount_le_width(w: u64, k: nat)
    requires
        w < pow2(k),
    ensures
        popcount(w) <= k,
    decreases k,
{
    if w == 0 {
    } else if k == 0 {
        assert(pow2(0) == 1) by {
            lemma2_to64();
        }
    } else {
        lemma_pow2_unfold(k);
        lemma_popcount_le_width(w / 2, (k - 1) as nat);
    }
}

} // verus!
