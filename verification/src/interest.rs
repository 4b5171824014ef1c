use vstd::prelude::*;

use crate::errors::StakingError;
use vstd::arithmetic::div_mod::{
    lemma_div_is_ordered, lemma_fundamental_div_mod, lemma_fundamental_div_mod_converse,
    lemma_mod_bound,
};
use vstd::arithmetic::mul::{lemma_mul_inequality, lemma_mul_upper_bound};

verus! {

/// Percent-seconds in one year: the divisor of the simple-interest
/// formula. `apy` is a percentage, so the product `amount * apy * duration`
/// is measured in percent-seconds of principal.
pub const RATE_DENOMINATOR: u64 = 100 * 365 * 24 * 3600;

/// The simple (non-compounding) linear interest formula: the reward owed
/// on `amount` principal at `apy` percent per year after `duration`
/// seconds, truncated toward zero.
pub open spec fn reward_of(amount: int, apy: int, duration: int) -> int {
    (amount * apy * duration) / (RATE_DENOMINATOR as int)
}

/// Whether the reward computation stays within machine range: the triple
/// product must fit the 128-bit intermediate width and the quotient the
/// 64-bit result width.
pub open spec fn reward_fits(amount: int, apy: int, duration: int) -> bool {
    &&& amount * apy * duration <= u128::MAX
    &&& reward_of(amount, apy, duration) <= u64::MAX
}

/// Computes `reward_of` exactly, in 128-bit intermediate arithmetic, or
/// reports `ArithmeticOverflow` precisely when the computation leaves
/// machine range.
pub fn compute_reward(amount: u64, apy: u64, duration: u64) -> (r: Result<u64, StakingError>)
    ensures
        r is Ok <==> reward_fits(amount as int, apy as int, duration as int),
        r matches Ok(v) ==> v == reward_of(amount as int, apy as int, duration as int),
        r matches Err(e) ==> e == StakingError::ArithmeticOverflow,
{
    proof {
        lemma_mul_upper_bound(amount as int, u64::MAX as int, apy as int, u64::MAX as int);
    }
    let first: u128 = match (amount as u128).checked_mul(apy as u128) {
        Some(v) => v,
        None => {
            // unreachable: the product of two 64-bit values fits 128 bits
            return Err(StakingError::ArithmeticOverflow);
        },
    };
    let product: u128 = match first.checked_mul(duration as u128) {
        Some(v) => v,
        None => {
            return Err(StakingError::ArithmeticOverflow);
        },
    };
    let quotient: u128 = product / (RATE_DENOMINATOR as u128);
    if quotient > u64::MAX as u128 {
        return Err(StakingError::ArithmeticOverflow);
    }
    Ok(quotient as u64)
}

/// For a fixed principal and rate, the reward never decreases as the
/// elapsed duration grows.
pub proof fn lemma_reward_monotone_in_duration(amount: int, apy: int, d1: int, d2: int)
    requires
        0 <= amount,
        0 <= apy,
        0 <= d1 <= d2,
    ensures
        reward_of(amount, apy, d1) <= reward_of(amount, apy, d2),
{
    lemma_mul_upper_bound(amount, amount, apy, apy);
    lemma_mul_inequality(d1, d2, amount * apy);
    assert(amount * apy * d1 == (amount * apy) * d1);
    assert(d1 * (amount * apy) == (amount * apy) * d1) by (nonlinear_arith);
    assert(d2 * (amount * apy) == (amount * apy) * d2) by (nonlinear_arith);
    lemma_div_is_ordered(amount * apy * d1, amount * apy * d2, RATE_DENOMINATOR as int);
}

/// Two sequential claims over durations `d1` and `d2` pay, together, the
/// same as one claim over `d1 + d2` up to integer truncation: the single
/// claim pays at least as much, and at most one unit more, than the pair.
pub proof fn lemma_reward_additive_in_duration(amount: int, apy: int, d1: int, d2: int)
    requires
        0 <= amount,
        0 <= apy,
        0 <= d1,
        0 <= d2,
    ensures
        reward_of(amount, apy, d1) + reward_of(amount, apy, d2) <= reward_of(
            amount,
            apy,
            d1 + d2,
        ),
        reward_of(amount, apy, d1 + d2) <= reward_of(amount, apy, d1) + reward_of(amount, apy, d2)
            + 1,
{
    let k = RATE_DENOMINATOR as int;
    let x = amount * apy * d1;
    let y = amount * apy * d2;
    assert(amount * apy * (d1 + d2) == x + y) by (nonlinear_arith)
        requires
            x == amount * apy * d1,
            y == amount * apy * d2,
    ;
    assert(0 <= x && 0 <= y) by (nonlinear_arith)
        requires
            0 <= amount,
            0 <= apy,
            0 <= d1,
            0 <= d2,
            x == amount * apy * d1,
            y == amount * apy * d2,
    ;
    let q1 = x / k;
    let r1 = x % k;
    let q2 = y / k;
    let r2 = y % k;
    lemma_fundamental_div_mod(x, k);
    lemma_fundamental_div_mod(y, k);
    lemma_mod_bound(x, k);
    lemma_mod_bound(y, k);
    if r1 + r2 < k {
        assert(x + y == (q1 + q2) * k + (r1 + r2)) by (nonlinear_arith)
            requires
                x == q1 * k + r1,
                y == q2 * k + r2,
        ;
        lemma_fundamental_div_mod_converse(x + y, k, q1 + q2, r1 + r2);
    } else {
        assert(x + y == (q1 + q2 + 1) * k + (r1 + r2 - k)) by (nonlinear_arith)
            requires
                x == q1 * k + r1,
                y == q2 * k + r2,
        ;
        lemma_fundamental_div_mod_converse(x + y, k, q1 + q2 + 1, r1 + r2 - k);
    }
}

/// No time elapsed, no reward: a claim over a zero duration pays nothing.
pub proof fn lemma_reward_zero_duration(amount: int, apy: int)
    ensures
        reward_of(amount, apy, 0) == 0,
{
    assert(amount * apy * 0 == 0) by (nonlinear_arith);
}

} // verus!
