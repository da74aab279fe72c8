//! Spec-level helpers shared by the fixed-point arithmetic: truncating
//! signed division, powers of ten, and the small division lemmas the
//! ledger proofs lean on.

use vstd::prelude::*;

verus! {

use vstd::arithmetic::div_mod::{
    lemma_div_is_ordered, lemma_div_multiples_vanish, lemma_div_pos_is_pos,
};
use vstd::arithmetic::mul::{lemma_mul_inequality, lemma_mul_nonnegative};

/// Division that truncates toward zero, as Rust's `/` does on signed
/// integers; spec `/` is Euclidean, so negative dividends need the detour
/// through the magnitude.
pub open spec fn tdiv(a: int, b: int) -> int
    recommends
        b > 0,
{
    if a >= 0 {
        a / b
    } else {
        -((-a) / b)
    }
}

/// 10^k as a mathematical integer.
pub open spec fn pow10(k: nat) -> int
    decreases k,
{
    if k == 0 {
        1
    } else {
        10 * pow10((k - 1) as nat)
    }
}

/// 10^k fits comfortably in a `u128` for every exponent a price feed can
/// carry.
pub proof fn lemma_pow10_le_18(k: nat)
    requires
        k <= 18,
    ensures
        0 < pow10(k) <= pow10(18),
        pow10(18) == 1_000_000_000_000_000_000,
    decreases 18 - k,
{
    assert(pow10(18) == 1_000_000_000_000_000_000) by {
        reveal_with_fuel(pow10, 19);
    }
    if k < 18 {
        lemma_pow10_le_18(k + 1);
        assert(pow10(k + 1) == 10 * pow10(k));
    } else {
        assert(pow10(k) == pow10(18));
    }
}

/// Computes 10^k.
pub fn pow10_u128(k: u32) -> (r: u128)
    requires
        k <= 18,
    ensures
        r == pow10(k as nat),
{
    let mut r: u128 = 1;
    let mut i: u32 = 0;
    proof {
        lemma_pow10_le_18(k as nat);
    }
    while i < k
        invariant
            i <= k <= 18,
            r == pow10(i as nat),
        decreases k - i,
    {
        proof {
            lemma_pow10_le_18(i as nat);
            lemma_pow10_le_18((i + 1) as nat);
        }
        r = r * 10;
        i = i + 1;
    }
    r
}

/// Scaling a quantity by a factor not above the unit leaves it no larger:
/// `x * num / den <= x` when `num <= den`.
pub proof fn lemma_scale_le_one(x: int, num: int, den: int)
    requires
        0 <= x,
        0 <= num <= den,
        0 < den,
    ensures
        0 <= x * num / den <= x,
{
    lemma_mul_nonnegative(x, num);
    lemma_div_pos_is_pos(x * num, den);
    lemma_mul_inequality(num, den, x);
    assert(x * num == num * x) by (nonlinear_arith);
    assert(x * den == den * x) by (nonlinear_arith);
    lemma_div_is_ordered(x * num, x * den, den);
    lemma_div_multiples_vanish(x, den);
}

/// Scaling a quantity by a factor at least the unit leaves it no smaller:
/// `x * num / den >= x` when `num >= den`.
pub proof fn lemma_scale_ge_one(x: int, num: int, den: int)
    requires
        0 <= x,
        0 < den <= num,
    ensures
        x * num / den >= x,
{
    lemma_mul_inequality(den, num, x);
    assert(x * num == num * x) by (nonlinear_arith);
    assert(x * den == den * x) by (nonlinear_arith);
    lemma_div_is_ordered(x * den, x * num, den);
    lemma_div_multiples_vanish(x, den);
}

/// A product of non-negatives divided by a positive stays non-negative.
pub proof fn lemma_scale_nonneg(x: int, num: int, den: int)
    requires
        0 <= x,
        0 <= num,
        0 < den,
    ensures
        0 <= x * num / den,
{
    lemma_mul_nonnegative(x, num);
    lemma_div_pos_is_pos(x * num, den);
}

} // verus!
