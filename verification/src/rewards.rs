use vstd::prelude::*;
use vstd::arithmetic::div_mod::{
    lemma_div_is_ordered, lemma_div_pos_is_pos, lemma_fundamental_div_mod, lemma_mod_bound,
};
use vstd::arithmetic::mul::{
    lemma_mul_inequality, lemma_mul_is_commutative, lemma_mul_nonnegative, lemma_mul_upper_bound,
};

verus! {

/// Seconds in a 365-day year, the period over which the annual rate pays
/// out in full.
pub const SECONDS_IN_YEAR: u64 = 365 * 24 * 60 * 60;

/// Reward accrued by `amount` tokens at `apy` whole percentage points per
/// year over `duration` seconds:
/// `floor(amount * apy * duration / SECONDS_IN_YEAR / 100)`,
/// and `0` when `duration` is negative. The floor never rounds up, so
/// accrual can never outrun what the formula owes.
pub open spec fn reward_of(amount: u64, apy: u64, duration: int) -> int {
    if duration < 0 {
        0
    } else {
        (amount as int) * (apy as int) * (duration as int) / (SECONDS_IN_YEAR as int) / 100
    }
}

/// The accrued reward is never negative.
pub proof fn lemma_reward_nonnegative(amount: u64, apy: u64, duration: int)
    ensures
        0 <= reward_of(amount, apy, duration),
{
    if duration >= 0 {
        lemma_mul_nonnegative(amount as int, apy as int);
        lemma_mul_nonnegative((amount as int) * (apy as int), duration as int);
        lemma_div_pos_is_pos((amount as int) * (apy as int) * (duration as int), SECONDS_IN_YEAR as int);
        lemma_div_pos_is_pos(
            (amount as int) * (apy as int) * (duration as int) / (SECONDS_IN_YEAR as int),
            100,
        );
    }
}

/// For a fixed principal and rate, the accrued reward never shrinks as
/// time passes.
pub proof fn lemma_reward_monotonic(amount: u64, apy: u64, t1: int, t2: int)
    requires
        t1 <= t2,
    ensures
        reward_of(amount, apy, t1) <= reward_of(amount, apy, t2),
{
    if t1 < 0 {
        lemma_reward_nonnegative(amount, apy, t2);
    } else {
        let ap = (amount as int) * (apy as int);
        lemma_mul_nonnegative(amount as int, apy as int);
        lemma_mul_inequality(t1 as int, t2 as int, ap);
        lemma_mul_is_commutative(t1 as int, ap);
        lemma_mul_is_commutative(t2 as int, ap);
        lemma_div_is_ordered(ap * (t1 as int), ap * (t2 as int), SECONDS_IN_YEAR as int);
        lemma_div_is_ordered(
            ap * (t1 as int) / (SECONDS_IN_YEAR as int),
            ap * (t2 as int) / (SECONDS_IN_YEAR as int),
            100,
        );
    }
}

/// Exact bound used to rule out overflow of the 128-bit intermediate
/// product: whenever the final reward fits in a `u64`, the full product
/// `amount * apy * duration` fits comfortably in a `u128`.
proof fn lemma_product_bounded(amount: u64, apy: u64, duration: int)
    requires
        0 <= duration,
        reward_of(amount, apy, duration) <= u64::MAX,
    ensures
        0 <= (amount as int) * (apy as int) * (duration as int) <= u128::MAX,
{
    let y = SECONDS_IN_YEAR as int;
    let x = (amount as int) * (apy as int) * (duration as int);
    lemma_mul_nonnegative(amount as int, apy as int);
    lemma_mul_nonnegative((amount as int) * (apy as int), duration as int);
    let q1 = x / y;
    let q2 = q1 / 100;
    lemma_div_pos_is_pos(x, y);
    lemma_fundamental_div_mod(x, y);
    lemma_mod_bound(x, y);
    lemma_fundamental_div_mod(q1, 100);
    lemma_mod_bound(q1, 100);
    assert(q2 <= u64::MAX as int);
    assert(q1 <= 1844674407370955161599int);
    lemma_mul_inequality(q1, 1844674407370955161599int, 31536000int);
    lemma_mul_is_commutative(q1, 31536000int);
    assert(y == 31536000int);
    assert(x <= 58173652110850441976217599999int);
}

/// Executable form of [`reward_of`]: all intermediate products are taken
/// in 128 bits, wide enough that they cannot overflow whenever the final
/// reward fits in a `u64`, which the caller guarantees.
pub fn calculate_rewards(amount: u64, apy: u64, duration: i64) -> (r: u64)
    requires
        reward_of(amount, apy, duration as int) <= u64::MAX,
    ensures
        r as int == reward_of(amount, apy, duration as int),
{
    if duration < 0 {
        return 0;
    }
    proof {
        lemma_product_bounded(amount, apy, duration as int);
        lemma_mul_upper_bound(amount as int, u64::MAX as int, apy as int, u64::MAX as int);
    }
    let scaled: u128 = (amount as u128) * (apy as u128) * (duration as u128);
    let reward: u128 = scaled / (SECONDS_IN_YEAR as u128) / 100;
    proof {
        lemma_div_pos_is_pos(scaled as int, SECONDS_IN_YEAR as int);
        lemma_div_pos_is_pos(scaled as int / (SECONDS_IN_YEAR as int), 100);
    }
    reward as u64
}

} // verus!
