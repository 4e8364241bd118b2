//! Properties of the reward accounting that hold across calls.

use vstd::prelude::*;
use vstd::arithmetic::div_mod::{
    lemma_div_multiples_vanish, lemma_fundamental_div_mod, lemma_mod_multiples_basic,
};
use vstd::arithmetic::mul::lemma_mul_is_commutative;
use crate::fixed_point::{fixed_from_integer, rational_product, FIXED_DIV};
use crate::liquidity_mining::{
    accumulated_rps, global_pool_claim, global_pool_update, loyalty_multiplier, reward_per_period,
    user_reward, Balance, BlockNumber, Error, GlobalPool, PoolId,
};

verus! {

/// Claiming from a global pool moves the reward from the accumulated rewards
/// to the paid rewards: their sum is unchanged, the reward never exceeds what
/// had accumulated, and the claim starts over from the current reward per
/// share.
pub proof fn lemma_claim_conserves_rewards(pool: GlobalPool, shares: Balance)
    requires
        global_pool_claim(pool, shares).1 is Ok,
    ensures
        ({
            let (after, r) = global_pool_claim(pool, shares);
            let reward = r->Ok_0;
            &&& after.paid_accumulated_rewards + after.accumulated_rewards
                == pool.paid_accumulated_rewards + pool.accumulated_rewards
            &&& reward <= pool.accumulated_rewards
            &&& after.accumulated_rps_start == after.accumulated_rps
            &&& after.accumulated_rps == pool.accumulated_rps
        }),
{
}

/// A claim made right after a successful claim pays nothing and changes
/// nothing.
pub proof fn lemma_second_claim_pays_nothing(pool: GlobalPool, shares: Balance, next_shares: Balance)
    requires
        global_pool_claim(pool, shares).1 is Ok,
    ensures
        ({
            let after = global_pool_claim(pool, shares).0;
            global_pool_claim(after, next_shares) == (after, Ok::<Balance, Error>(0))
        }),
{
    let after = global_pool_claim(pool, shares).0;
    let d: int = after.accumulated_rps - after.accumulated_rps_start;
    assert(d == 0);
    assert(d * next_shares == 0) by (nonlinear_arith)
        requires
            d == 0,
    ;
}

/// Updating a global pool twice to the same period: the second update
/// succeeds and changes nothing, whatever balance it is given.
pub proof fn lemma_global_pool_update_idempotent(
    pool_id: PoolId,
    pool: GlobalPool,
    now_period: BlockNumber,
    reward_per_period: Balance,
    balance: Balance,
    next_reward_per_period: Balance,
    next_balance: Balance,
)
    requires
        global_pool_update(pool_id, pool, now_period, reward_per_period, balance).1 is Ok,
    ensures
        ({
            let after = global_pool_update(pool_id, pool, now_period, reward_per_period, balance).0;
            global_pool_update(pool_id, after, now_period, next_reward_per_period, next_balance)
                == (after, Ok::<(), Error>(()))
        }),
{
}

/// A successful update of a global pool never lowers its accumulated reward
/// per share or its accumulated rewards, leaves it at the period it was
/// brought to (unless it holds no shares), and adds no more rewards than the
/// pool's account holds.
pub proof fn lemma_global_pool_update_grows(
    pool_id: PoolId,
    pool: GlobalPool,
    now_period: BlockNumber,
    reward_per_period: Balance,
    balance: Balance,
)
    requires
        global_pool_update(pool_id, pool, now_period, reward_per_period, balance).1 is Ok,
    ensures
        ({
            let after = global_pool_update(pool_id, pool, now_period, reward_per_period, balance).0;
            &&& after.accumulated_rps >= pool.accumulated_rps
            &&& after.accumulated_rewards >= pool.accumulated_rewards
            &&& after.accumulated_rewards - pool.accumulated_rewards <= balance
            &&& pool.total_shares != 0 ==> after.updated_at == now_period
            &&& after.total_shares == pool.total_shares
            &&& after.paid_accumulated_rewards == pool.paid_accumulated_rewards
        }),
{
}

/// The accumulated reward per share never decreases.
pub proof fn lemma_accumulated_rps_grows(now: Balance, total_shares: Balance, reward: Balance)
    requires
        accumulated_rps(now, total_shares, reward) is Ok,
    ensures
        accumulated_rps(now, total_shares, reward)->Ok_0 >= now,
{
}

/// A user's rewards split the rewards earned since the user's reward per
/// share: what is paid now, what was claimed before and what the loyalty
/// multiplier withholds add up to them.
pub proof fn lemma_user_reward_split(
    user_accumulated_rps: Balance,
    user_shares: Balance,
    accumulated_rps_now: Balance,
    claimed: Balance,
    multiplier: u128,
)
    requires
        user_reward(user_accumulated_rps, user_shares, accumulated_rps_now, claimed, multiplier) is Ok,
    ensures
        ({
            let (paid, withheld) = user_reward(
                user_accumulated_rps,
                user_shares,
                accumulated_rps_now,
                claimed,
                multiplier,
            )->Ok_0;
            paid + claimed + withheld == (accumulated_rps_now - user_accumulated_rps) * user_shares
        }),
{
}

/// The reward of a period never exceeds its cap.
pub proof fn lemma_reward_per_period_capped(
    yield_per_period: u128,
    total_global_farm_shares: Balance,
    max_reward_per_period: Balance,
)
    requires
        reward_per_period(yield_per_period, total_global_farm_shares, max_reward_per_period) is Ok,
    ensures
        reward_per_period(yield_per_period, total_global_farm_shares, max_reward_per_period)->Ok_0
            <= max_reward_per_period,
{
}

proof fn lemma_quotient_at_least(p: int, d: int, k: int)
    requires
        d > 0,
        p >= k * d,
    ensures
        p / d >= k,
{
    lemma_fundamental_div_mod(p, d);
    let q = p / d;
    let r = p % d;
    assert(q >= k) by (nonlinear_arith)
        requires
            p == d * q + r,
            0 <= r < d,
            p >= k * d,
            d > 0,
    ;
}

proof fn lemma_quotient_below(p: int, d: int, k: int)
    requires
        d > 0,
        p >= 0,
        p < k * d,
    ensures
        p / d < k,
{
    lemma_fundamental_div_mod(p, d);
    let q = p / d;
    let r = p % d;
    assert(q < k) by (nonlinear_arith)
        requires
            p == d * q + r,
            0 <= r < d,
            p < k * d,
            d > 0,
    ;
}

proof fn lemma_exact_quotient(k: int, d: int)
    requires
        d > 0,
    ensures
        (k * d) / d == k,
        (k * d) % d == 0,
{
    lemma_div_multiples_vanish(k, d);
    lemma_mod_multiples_basic(k, d);
    lemma_mul_is_commutative(k, d);
}

/// Dividing by one (`10^18` raw) gives the number back.
proof fn lemma_divide_by_one(b: u128)
    ensures
        rational_product(b, FIXED_DIV, FIXED_DIV) == Some(b),
{
    if b != 0 {
        lemma_exact_quotient(b as int, FIXED_DIV as int);
    }
}

/// Before any period has passed, the loyalty multiplier is `b` itself,
/// whenever `(b + 1) * scale_coef` can be represented and `scale_coef` is
/// not zero (`b` other than the raw value 1, which the computation treats as
/// the number one).
pub proof fn lemma_loyalty_multiplier_at_start(b: u128, scale_coef: u32)
    requires
        b != 1,
        scale_coef > 0,
        b + FIXED_DIV <= u128::MAX,
        rational_product(
            (b + FIXED_DIV) as u128,
            fixed_from_integer(scale_coef as u128),
            FIXED_DIV,
        ) is Some,
    ensures
        loyalty_multiplier(0, b, scale_coef) == Ok::<crate::fixed_point::FixedU128, Error>(
            crate::fixed_point::FixedU128 { inner: b },
        ),
{
    let scale = fixed_from_integer(scale_coef as u128);
    assert(scale_coef as u128 * FIXED_DIV <= u128::MAX) by (nonlinear_arith)
        requires
            scale_coef <= u32::MAX,
            FIXED_DIV == 1_000_000_000_000_000_000u128,
    ;
    assert(scale == scale_coef as u128 * FIXED_DIV);
    let a: u128 = (b + FIXED_DIV) as u128;
    let p: int = a as int * scale as int;
    assert(p >= FIXED_DIV as int * FIXED_DIV as int) by (nonlinear_arith)
        requires
            a >= FIXED_DIV,
            scale >= FIXED_DIV,
            p == a as int * scale as int,
    ;
    lemma_quotient_at_least(p, FIXED_DIV as int, FIXED_DIV as int);
    let denom = rational_product(a, scale, FIXED_DIV)->Some_0;
    assert(denom > 0);
    assert(fixed_from_integer(0) == 0);
    assert(fixed_from_integer(1) == FIXED_DIV);
    lemma_divide_by_one(b);
}

/// With `b` at most one, the loyalty multiplier stays between `b` and one.
pub proof fn lemma_loyalty_multiplier_bounds(periods: BlockNumber, b: u128, scale_coef: u32)
    requires
        b <= FIXED_DIV,
        loyalty_multiplier(periods, b, scale_coef) is Ok,
    ensures
        b <= loyalty_multiplier(periods, b, scale_coef)->Ok_0.inner <= FIXED_DIV,
{
    assert(fixed_from_integer(1) == FIXED_DIV);
    if b != 1 {
        let m = loyalty_multiplier(periods, b, scale_coef)->Ok_0.inner;
        // the last step divides num = s + b by den = s + 1
        let b_plus_one = (b + FIXED_DIV) as u128;
        let denom = rational_product(
            b_plus_one,
            fixed_from_integer(scale_coef as u128),
            FIXED_DIV,
        )->Some_0;
        let theta = rational_product(fixed_from_integer(periods as u128), FIXED_DIV, denom)->Some_0;
        let theta_mul_b = rational_product(theta, b, FIXED_DIV)->Some_0;
        let s: int = theta + theta_mul_b;
        let num: int = s + b;
        let den: int = s + FIXED_DIV;
        assert(m == rational_product(num as u128, FIXED_DIV, den as u128)->Some_0);
        if num != 0 {
            let p: int = num * FIXED_DIV;
            assert(p >= b * den) by (nonlinear_arith)
                requires
                    p == num * FIXED_DIV,
                    num == s + b,
                    den == s + FIXED_DIV,
                    s >= 0,
                    0 <= b <= FIXED_DIV,
            ;
            lemma_quotient_at_least(p, den, b as int);
            if num == den {
                lemma_exact_quotient(FIXED_DIV as int, den);
                assert(p == FIXED_DIV * den) by (nonlinear_arith)
                    requires
                        p == num * FIXED_DIV,
                        num == den,
                ;
            } else {
                assert(p < FIXED_DIV * den) by (nonlinear_arith)
                    requires
                        p == num * FIXED_DIV,
                        num < den,
                        FIXED_DIV > 0,
                ;
                lemma_quotient_below(p, den, FIXED_DIV as int);
            }
        }
    }
}

/// `p1 / d1 <= p2 / d2` as rational numbers gives the same order of the
/// rounded-down quotients.
proof fn lemma_floor_ordered(p1: int, d1: int, p2: int, d2: int)
    requires
        d1 > 0,
        d2 > 0,
        p1 >= 0,
        p2 >= 0,
        p1 * d2 <= p2 * d1,
    ensures
        p1 / d1 <= p2 / d2,
{
    lemma_fundamental_div_mod(p1, d1);
    let f1 = p1 / d1;
    let r1 = p1 % d1;
    assert(f1 * d2 <= p2) by (nonlinear_arith)
        requires
            p1 == d1 * f1 + r1,
            0 <= r1 < d1,
            p1 * d2 <= p2 * d1,
            d1 > 0,
            d2 > 0,
    ;
    lemma_quotient_at_least(p2, d2, f1);
}

/// The rounding of `rational_product` goes up exactly when twice the
/// remainder exceeds the divisor.
proof fn lemma_half_test(r: int, d: int)
    requires
        d > 0,
    ensures
        (r > d / 2) == (2 * r > d),
{
}

/// `rational_product` never falls as its first factor grows.
proof fn lemma_rational_product_monotone(a1: u128, a2: u128, b: u128, c: u128)
    requires
        a1 <= a2,
        rational_product(a1, b, c) is Some,
        rational_product(a2, b, c) is Some,
    ensures
        rational_product(a1, b, c)->Some_0 <= rational_product(a2, b, c)->Some_0,
{
    if a1 != 0 && b != 0 {
        let d: int = if c == 0 { 1 } else { c as int };
        let p1: int = a1 as int * b as int;
        let p2: int = a2 as int * b as int;
        assert(p1 <= p2) by (nonlinear_arith)
            requires
                a1 <= a2,
                p1 == a1 as int * b as int,
                p2 == a2 as int * b as int,
                b >= 0,
        ;
        assert(p1 * d <= p2 * d) by (nonlinear_arith)
            requires
                p1 <= p2,
                d > 0,
        ;
        lemma_floor_ordered(p1, d, p2, d);
        lemma_fundamental_div_mod(p1, d);
        lemma_fundamental_div_mod(p2, d);
    }
}

/// `(s + b) / (s + 1)` with the rounding of `rational_product` never falls
/// as `s` grows, when `b` is at most one.
proof fn lemma_last_step_monotone(s1: int, s2: int, b: int)
    requires
        0 <= s1 <= s2,
        0 <= b <= FIXED_DIV,
        s2 + FIXED_DIV <= u128::MAX,
        rational_product((s1 + b) as u128, FIXED_DIV, (s1 + FIXED_DIV) as u128) is Some,
        rational_product((s2 + b) as u128, FIXED_DIV, (s2 + FIXED_DIV) as u128) is Some,
    ensures
        rational_product((s1 + b) as u128, FIXED_DIV, (s1 + FIXED_DIV) as u128)->Some_0
            <= rational_product((s2 + b) as u128, FIXED_DIV, (s2 + FIXED_DIV) as u128)->Some_0,
{
    let n1 = s1 + b;
    let n2 = s2 + b;
    let d1 = s1 + FIXED_DIV;
    let d2 = s2 + FIXED_DIV;
    if n1 != 0 {
        let p1 = n1 * FIXED_DIV;
        let p2 = n2 * FIXED_DIV;
        assert(p1 * d2 <= p2 * d1 && p1 <= p2) by (nonlinear_arith)
            requires
                p1 == n1 * FIXED_DIV,
                p2 == n2 * FIXED_DIV,
                n1 == s1 + b,
                n2 == s2 + b,
                d1 == s1 + FIXED_DIV,
                d2 == s2 + FIXED_DIV,
                0 <= s1 <= s2,
                0 <= b <= FIXED_DIV,
        ;
        lemma_floor_ordered(p1, d1, p2, d2);
        lemma_fundamental_div_mod(p1, d1);
        lemma_fundamental_div_mod(p2, d2);
        let f1 = p1 / d1;
        let f2 = p2 / d2;
        let r1 = p1 % d1;
        let r2 = p2 % d2;
        lemma_half_test(r1, d1);
        lemma_half_test(r2, d2);
        if f1 == f2 && 2 * r1 > d1 {
            assert(2 * r2 > d2) by (nonlinear_arith)
                requires
                    p1 == d1 * f1 + r1,
                    p2 == d2 * f2 + r2,
                    f1 == f2,
                    2 * r1 > d1,
                    p1 * d2 <= p2 * d1,
                    d1 > 0,
                    d2 > 0,
            ;
        }
    }
}

/// With `b` at most one, the loyalty multiplier never falls as the number
/// of periods grows.
pub proof fn lemma_loyalty_multiplier_grows(
    periods1: BlockNumber,
    periods2: BlockNumber,
    b: u128,
    scale_coef: u32,
)
    requires
        periods1 <= periods2,
        b <= FIXED_DIV,
        loyalty_multiplier(periods1, b, scale_coef) is Ok,
        loyalty_multiplier(periods2, b, scale_coef) is Ok,
    ensures
        loyalty_multiplier(periods1, b, scale_coef)->Ok_0.inner <= loyalty_multiplier(
            periods2,
            b,
            scale_coef,
        )->Ok_0.inner,
{
    assert(fixed_from_integer(1) == FIXED_DIV);
    if b != 1 {
        let b_plus_one = (b + FIXED_DIV) as u128;
        let denom = rational_product(
            b_plus_one,
            fixed_from_integer(scale_coef as u128),
            FIXED_DIV,
        )->Some_0;
        let big1 = fixed_from_integer(periods1 as u128);
        let big2 = fixed_from_integer(periods2 as u128);
        assert(periods2 as u128 * FIXED_DIV <= u128::MAX) by (nonlinear_arith)
            requires
                periods2 <= u32::MAX,
                FIXED_DIV == 1_000_000_000_000_000_000u128,
        ;
        assert(periods1 as u128 * FIXED_DIV <= periods2 as u128 * FIXED_DIV) by (nonlinear_arith)
            requires
                periods1 <= periods2,
        ;
        assert(big1 <= big2);
        lemma_rational_product_monotone(big1, big2, FIXED_DIV, denom);
        let theta1 = rational_product(big1, FIXED_DIV, denom)->Some_0;
        let theta2 = rational_product(big2, FIXED_DIV, denom)->Some_0;
        lemma_rational_product_monotone(theta1, theta2, b, FIXED_DIV);
        let tb1 = rational_product(theta1, b, FIXED_DIV)->Some_0;
        let tb2 = rational_product(theta2, b, FIXED_DIV)->Some_0;
        let s1: int = theta1 + tb1;
        let s2: int = theta2 + tb2;
        lemma_last_step_monotone(s1, s2, b as int);
    }
}

} // verus!
