//! The mathematics of powers of two: which numbers are one, and which
//! exponent belongs to each.

use vstd::arithmetic::power2::{
    lemma2_to64, lemma_pow2_adds, lemma_pow2_pos, lemma_pow2_unfold, pow2,
};
use vstd::prelude::*;

verus! {

/// `n` is `2^k` for some natural number `k`.
pub open spec fn is_power_of_two(n: nat) -> bool {
    exists|k: nat| n == pow2(k)
}

/// The binary logarithm of `n`, rounded down: the number of times `n` can be
/// halved before it reaches 1. It is 0 for `n <= 1`.
pub open spec fn log2(n: nat) -> nat
    decreases n,
{
    if n <= 1 {
        0
    } else {
        1 + log2(n / 2)
    }
}

/// The bitwise test for a single set bit.
pub open spec fn has_single_bit(n: u128) -> bool {
    n >= 1 && n & ((n - 1) as u128) == 0
}

/// `2^128` is one more than the largest `u128`.
pub proof fn lemma_pow2_128()
    ensures
        pow2(128) == u128::MAX + 1,
{
    lemma2_to64();
    lemma_pow2_adds(64, 64);
    assert(0x10000000000000000 * 0x10000000000000000 == u128::MAX + 1) by (nonlinear_arith);
}

/// A number below `2^k` has a logarithm below `k`.
pub proof fn lemma_log2_below(n: nat, k: nat)
    requires
        k >= 1,
        n < pow2(k),
    ensures
        log2(n) < k,
    decreases k,
{
    if n > 1 {
        if k == 1 {
            lemma2_to64();
        } else {
            lemma_pow2_unfold(k);
            lemma_log2_below(n / 2, (k - 1) as nat);
        }
    }
}

/// Every `u128` with a single set bit is a power of two.
pub proof fn lemma_single_bit_is_power(n: u128)
    requires
        has_single_bit(n),
    ensures
        is_power_of_two(n as nat),
    decreases n,
{
    if n == 1 {
        lemma2_to64();
        assert(n as nat == pow2(0));
    } else {
        let half: u128 = n / 2;
        assert(n % 2 == 0 && n / 2 >= 1 && (n / 2) & (((n / 2) - 1) as u128) == 0) by (bit_vector)
            requires
                n >= 2,
                n & ((n - 1) as u128) == 0,
        ;
        lemma_single_bit_is_power(half);
        let k = choose|k: nat| half as nat == pow2(k);
        lemma_pow2_unfold(k + 1);
        assert(n as nat == pow2(k + 1));
    }
}

/// Every power of two that fits in 128 bits has a single set bit.
pub proof fn lemma_power_has_single_bit(n: u128, k: nat)
    requires
        n as nat == pow2(k),
    ensures
        has_single_bit(n),
    decreases k,
{
    lemma_pow2_pos(k);
    if k == 0 {
        lemma2_to64();
        assert(1u128 & ((1u128 - 1) as u128) == 0) by (bit_vector);
    } else {
        lemma_pow2_unfold(k);
        let half: u128 = n / 2;
        assert(half as nat == pow2((k - 1) as nat));
        lemma_power_has_single_bit(half, (k - 1) as nat);
        assert(n & ((n - 1) as u128) == 0) by (bit_vector)
            requires
                n >= 2,
                n % 2 == 0,
                (n / 2) & (((n / 2) - 1) as u128) == 0,
        ;
    }
}

/// A `u128` is a power of two exactly when it is at least 1 and has a single
/// set bit.
pub proof fn lemma_power_iff_single_bit(n: u128)
    ensures
        is_power_of_two(n as nat) <==> has_single_bit(n),
{
    if has_single_bit(n) {
        lemma_single_bit_is_power(n);
    }
    if is_power_of_two(n as nat) {
        let k = choose|k: nat| n as nat == pow2(k);
        lemma_power_has_single_bit(n, k);
    }
}

/// The logarithm of `2^k` is `k`.
pub proof fn lemma_log2_of_power(k: nat)
    ensures
        log2(pow2(k)) == k,
    decreases k,
{
    if k == 0 {
        lemma2_to64();
    } else {
        lemma_pow2_unfold(k);
        lemma_pow2_pos((k - 1) as nat);
        lemma_log2_of_power((k - 1) as nat);
        assert(pow2(k) / 2 == pow2((k - 1) as nat));
    }
}

/// A power of two is 1 or even.
pub proof fn lemma_power_is_one_or_even(n: nat)
    requires
        is_power_of_two(n),
    ensures
        n == 1 || n % 2 == 0,
{
    let k = choose|k: nat| n == pow2(k);
    if k == 0 {
        lemma2_to64();
    } else {
        lemma_pow2_unfold(k);
    }
}

/// The successor of a power of two other than 1 is no power of two.
pub proof fn lemma_successor_is_no_power(k: nat)
    requires
        k >= 1,
    ensures
        !is_power_of_two(pow2(k) + 1),
{
    lemma_pow2_unfold(k);
    lemma_pow2_pos((k - 1) as nat);
    if is_power_of_two(pow2(k) + 1) {
        lemma_power_is_one_or_even(pow2(k) + 1);
    }
}

} // verus!
