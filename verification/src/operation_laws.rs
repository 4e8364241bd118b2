//! What each reward operation computes, stated directly over its inputs.

use vstd::prelude::*;
use crate::fixed_point::{rational_product, Permill, FIXED_DIV};
use crate::liquidity_mining::{
    accumulated_rps, farm_creation, farm_data_check, find_pool, pool_id_check, global_pool_claim, global_pool_update, new_global_pool,
    period_number, pool_update, reward_per_period, user_reward, AccountId, AssetId, Balance,
    BlockNumber, Error, GlobalPool, Pool, PoolId, RewardTransfer,
};

verus! {

/// Bringing a farm that holds shares forward from `updated_at` to a later
/// period: it succeeds exactly when the amounts fit and the id is valid, and
/// then the farm gains `min((now - updated_at) * reward_per_period, balance)`
/// rewards (however small next to its shares), its reward per share grows by
/// that reward divided by the shares (rounded down), and it stands at the new
/// period; nothing else changes.
pub proof fn lemma_global_pool_update_brings_forward(
    pool_id: PoolId,
    pool: GlobalPool,
    now_period: BlockNumber,
    reward_per_period: Balance,
    pool_account_balance: Balance,
)
    requires
        pool.total_shares != 0,
        pool.updated_at < now_period,
    ensures
        ({
            let (after, r) = global_pool_update(
                pool_id,
                pool,
                now_period,
                reward_per_period,
                pool_account_balance,
            );
            let due: int = (now_period - pool.updated_at) * reward_per_period;
            let reward: int = if due <= pool_account_balance { due } else { pool_account_balance as int };
            &&& r is Ok <==> (due <= u128::MAX && 0 < pool_id < u32::MAX && pool.accumulated_rps
                + reward / (pool.total_shares as int) <= u128::MAX && pool.accumulated_rewards + reward
                <= u128::MAX)
            &&& r is Ok ==> {
                &&& after.accumulated_rewards == pool.accumulated_rewards + reward
                &&& after.accumulated_rps == pool.accumulated_rps + reward / (pool.total_shares as int)
                &&& after.updated_at == now_period
                &&& after.total_shares == pool.total_shares
                &&& after.accumulated_rps_start == pool.accumulated_rps_start
                &&& after.paid_accumulated_rewards == pool.paid_accumulated_rewards
                &&& after.id == pool.id
                &&& after.owner == pool.owner
                &&& after.reward_currency == pool.reward_currency
                &&& after.yield_per_period == pool.yield_per_period
                &&& after.planned_yielding_periods == pool.planned_yielding_periods
                &&& after.blocks_per_period == pool.blocks_per_period
                &&& after.incentivized_token == pool.incentivized_token
            }
        }),
{
    let due: int = (now_period - pool.updated_at) * reward_per_period;
    assert(due >= 0) by (nonlinear_arith)
        requires
            due == (now_period - pool.updated_at) * reward_per_period,
            now_period > pool.updated_at,
            reward_per_period >= 0,
    ;
    let reward: int = if due <= pool_account_balance { due } else { pool_account_balance as int };
    if reward == 0 {
        assert(reward / (pool.total_shares as int) == 0);
    }
}

/// A farm already at the period, or without shares, is left as it is.
pub proof fn lemma_global_pool_update_idle(
    pool_id: PoolId,
    pool: GlobalPool,
    now_period: BlockNumber,
    reward_per_period: Balance,
    pool_account_balance: Balance,
)
    requires
        pool.updated_at == now_period || pool.total_shares == 0,
    ensures
        global_pool_update(pool_id, pool, now_period, reward_per_period, pool_account_balance)
            == (pool, Ok::<(), Error>(())),
{
}

/// Bringing a pool that holds shares forward to a new period with `rewards`
/// from its farm: when both ids are valid, the farm's account holds the
/// rewards and the reward per share fits, the pool's reward per share grows
/// by `rewards / total_shares`, it stands at the new period, and exactly
/// `rewards` of the reward currency are to move from the farm to the pool;
/// each unmet condition is an error.
pub proof fn lemma_pool_update_brings_forward(
    pool_id: PoolId,
    pool: Pool,
    rewards: Balance,
    period_now: BlockNumber,
    global_pool_id: PoolId,
    reward_currency: AssetId,
    global_pool_balance: Balance,
)
    requires
        pool.updated_at != period_now,
        pool.total_shares != 0,
    ensures
        ({
            let (after, r) = pool_update(
                pool_id,
                pool,
                rewards,
                period_now,
                global_pool_id,
                reward_currency,
                global_pool_balance,
            );
            &&& r is Ok <==> (pool.accumulated_rps + rewards / pool.total_shares <= u128::MAX && 0
                < global_pool_id < u32::MAX && global_pool_balance >= rewards && 0 < pool_id
                < u32::MAX)
            &&& r is Ok ==> {
                &&& r == Ok::<Option<RewardTransfer>, Error>(
                    Some(
                        RewardTransfer {
                            currency: reward_currency,
                            from_pool: global_pool_id,
                            to_pool: pool_id,
                            amount: rewards,
                        },
                    ),
                )
                &&& after.accumulated_rps == pool.accumulated_rps + rewards / pool.total_shares
                &&& after.updated_at == period_now
                &&& after.total_shares == pool.total_shares
            }
        }),
{
}

/// A pool already at the period, or without shares, is left as it is and
/// nothing moves.
pub proof fn lemma_pool_update_idle(
    pool_id: PoolId,
    pool: Pool,
    rewards: Balance,
    period_now: BlockNumber,
    global_pool_id: PoolId,
    reward_currency: AssetId,
    global_pool_balance: Balance,
)
    requires
        pool.updated_at == period_now || pool.total_shares == 0,
    ensures
        pool_update(
            pool_id,
            pool,
            rewards,
            period_now,
            global_pool_id,
            reward_currency,
            global_pool_balance,
        ) == (pool, Ok::<Option<RewardTransfer>, Error>(None)),
{
}

/// A new farm carries each parameter in its own field, starts at the period
/// of its creation block and has every counter at zero.
pub proof fn lemma_new_global_pool_fields(
    id: PoolId,
    updated_at: BlockNumber,
    reward_currency: AssetId,
    yield_per_period: Permill,
    planned_yielding_periods: BlockNumber,
    blocks_per_period: BlockNumber,
    owner: AccountId,
    incentivized_token: AssetId,
)
    ensures
        ({
            let p = new_global_pool(
                id,
                updated_at,
                reward_currency,
                yield_per_period,
                planned_yielding_periods,
                blocks_per_period,
                owner,
                incentivized_token,
            );
            &&& p.id == id
            &&& p.updated_at == updated_at
            &&& p.reward_currency == reward_currency
            &&& p.yield_per_period == yield_per_period
            &&& p.planned_yielding_periods == planned_yielding_periods
            &&& p.blocks_per_period == blocks_per_period
            &&& p.owner == owner
            &&& p.incentivized_token == incentivized_token
            &&& p.total_shares == 0
            &&& p.accumulated_rps == 0
            &&& p.accumulated_rps_start == 0
            &&& p.accumulated_rewards == 0
            &&& p.paid_accumulated_rewards == 0
        }),
{
}

/// Farm creation succeeds exactly when the parameters meet the minimums, the
/// owner holds the rewards and the next id is valid; the farm it makes takes
/// the next id, each parameter as given, the period of the current block, and
/// starts with no shares or rewards.
pub proof fn lemma_farm_creation(
    id_seq: PoolId,
    min_total_farm_rewards: Balance,
    min_planned_yielding_periods: BlockNumber,
    total_rewards: Balance,
    planned_yielding_periods: BlockNumber,
    blocks_per_period: BlockNumber,
    incentivized_token: AssetId,
    reward_currency: AssetId,
    owner: AccountId,
    yield_per_period: Permill,
    owner_reward_balance: Balance,
    current_block_number: BlockNumber,
)
    ensures
        ({
            let r = farm_creation(
                id_seq,
                min_total_farm_rewards,
                min_planned_yielding_periods,
                total_rewards,
                planned_yielding_periods,
                blocks_per_period,
                incentivized_token,
                reward_currency,
                owner,
                yield_per_period,
                owner_reward_balance,
                current_block_number,
            );
            &&& r is Ok <==> (total_rewards >= min_total_farm_rewards && planned_yielding_periods
                >= min_planned_yielding_periods && blocks_per_period != 0
                && yield_per_period.parts != 0 && owner_reward_balance >= total_rewards && id_seq
                + 1 < u32::MAX)
            &&& r is Ok ==> {
                let (id, p) = r->Ok_0;
                &&& id == id_seq + 1
                &&& p.id == id
                &&& p.planned_yielding_periods == planned_yielding_periods
                &&& p.blocks_per_period == blocks_per_period
                &&& p.reward_currency == reward_currency
                &&& p.incentivized_token == incentivized_token
                &&& p.owner == owner
                &&& p.yield_per_period == yield_per_period
                &&& p.updated_at == current_block_number / blocks_per_period
                &&& p.total_shares == 0
                &&& p.accumulated_rps == 0
                &&& p.accumulated_rps_start == 0
                &&& p.accumulated_rewards == 0
                &&& p.paid_accumulated_rewards == 0
            }
        }),
{
    if blocks_per_period == 1 {
        assert(current_block_number / 1 == current_block_number);
    }
}

/// A user's rewards: of everything earned since the user's reward per share,
/// `(accumulated_rps_now - user_accumulated_rps) * user_shares`, the loyalty
/// multiplier applied to that whole amount is claimable; what was claimed
/// before is deducted from it, and the rest of the earned amount is withheld.
pub proof fn lemma_user_reward_amounts(
    user_accumulated_rps: Balance,
    user_shares: Balance,
    accumulated_rps_now: Balance,
    user_accumulated_claimed_rewards: Balance,
    loyalty_multiplier: u128,
)
    ensures
        ({
            let r = user_reward(
                user_accumulated_rps,
                user_shares,
                accumulated_rps_now,
                user_accumulated_claimed_rewards,
                loyalty_multiplier,
            );
            let earned: int = (accumulated_rps_now - user_accumulated_rps) * user_shares;
            let claimable = rational_product(loyalty_multiplier, earned as u128, FIXED_DIV);
            &&& r is Ok <==> (accumulated_rps_now >= user_accumulated_rps && earned <= u128::MAX
                && claimable is Some && user_accumulated_claimed_rewards <= claimable->Some_0
                <= earned)
            &&& r is Ok ==> {
                let (paid, withheld) = r->Ok_0;
                &&& paid + user_accumulated_claimed_rewards == claimable->Some_0
                &&& withheld == earned - claimable->Some_0
            }
        }),
{
}

/// A claim pays `min((accumulated_rps - accumulated_rps_start) * shares,
/// accumulated_rewards)`, moving it from the accumulated to the paid rewards
/// and restarting from the current reward per share; it fails only when the
/// reward per share is behind its start or an amount does not fit.
pub proof fn lemma_claim_amount(pool: GlobalPool, shares: Balance)
    ensures
        ({
            let (after, r) = global_pool_claim(pool, shares);
            let earned: int = (pool.accumulated_rps - pool.accumulated_rps_start) * shares;
            let reward: int = if earned <= pool.accumulated_rewards {
                earned
            } else {
                pool.accumulated_rewards as int
            };
            &&& r is Ok <==> (pool.accumulated_rps >= pool.accumulated_rps_start && earned
                <= u128::MAX && pool.paid_accumulated_rewards + reward <= u128::MAX)
            &&& r is Ok ==> {
                &&& r->Ok_0 == reward
                &&& after.paid_accumulated_rewards == pool.paid_accumulated_rewards + reward
                &&& after.accumulated_rewards == pool.accumulated_rewards - reward
                &&& after.accumulated_rps_start == pool.accumulated_rps
                &&& after.accumulated_rps == pool.accumulated_rps
                &&& after.total_shares == pool.total_shares
                &&& after.updated_at == pool.updated_at
            }
        }),
{
    let earned: int = (pool.accumulated_rps - pool.accumulated_rps_start) * shares;
    if pool.accumulated_rps >= pool.accumulated_rps_start {
        assert(earned >= 0) by (nonlinear_arith)
            requires
                earned == (pool.accumulated_rps - pool.accumulated_rps_start) * shares,
                pool.accumulated_rps >= pool.accumulated_rps_start,
                shares >= 0,
        ;
    }
}

/// The reward per share grows by the reward divided by the shares (rounded
/// down); it fails for zero shares or when the sum does not fit.
pub proof fn lemma_accumulated_rps_amount(now: Balance, total_shares: Balance, reward: Balance)
    ensures
        accumulated_rps(now, total_shares, reward) is Ok <==> (total_shares != 0 && now + reward
            / total_shares <= u128::MAX),
        accumulated_rps(now, total_shares, reward) is Ok ==> accumulated_rps(
            now,
            total_shares,
            reward,
        )->Ok_0 == now + reward / total_shares,
{
}

/// The reward of a period is the yield applied to all the farm's shares,
/// capped at the maximum.
pub proof fn lemma_reward_per_period_amount(
    yield_per_period: u128,
    total_global_farm_shares: Balance,
    max_reward_per_period: Balance,
)
    ensures
        ({
            let r = reward_per_period(
                yield_per_period,
                total_global_farm_shares,
                max_reward_per_period,
            );
            let full = rational_product(yield_per_period, total_global_farm_shares, FIXED_DIV);
            &&& r is Ok <==> full is Some
            &&& r is Ok ==> r->Ok_0 == if full->Some_0 <= max_reward_per_period {
                full->Some_0
            } else {
                max_reward_per_period
            }
        }),
{
}

/// The period of block `now` is `now` divided by the period length, rounded
/// down; a zero length is refused.
pub proof fn lemma_period_number_amount(now: BlockNumber, blocks_per_period: BlockNumber)
    ensures
        blocks_per_period != 0 ==> period_number(now, blocks_per_period) == Ok::<BlockNumber, Error>(
            (now / blocks_per_period) as BlockNumber,
        ),
        blocks_per_period == 0 ==> period_number(now, blocks_per_period) == Err::<BlockNumber, Error>(
            Error::Overflow,
        ),
{
}

/// Looking a farm up: nothing is found in empty storage; the farm stored
/// last is found under its id; storing a farm hides no other id.
pub proof fn lemma_find_pool_after_store(pools: Seq<GlobalPool>, pool: GlobalPool, id: PoolId)
    ensures
        find_pool(Seq::<GlobalPool>::empty(), id) is None,
        find_pool(pools.push(pool), pool.id) == Some(pool),
        id != pool.id ==> find_pool(pools.push(pool), id) == find_pool(pools, id),
{
    assert(pools.push(pool).drop_last() =~= pools);
}

/// Pool ids are valid exactly in `[1, u32::MAX)`.
pub proof fn lemma_pool_id_range(pool_id: PoolId)
    ensures
        pool_id_check(pool_id) is Ok <==> 0 < pool_id < u32::MAX,
        pool_id_check(pool_id) is Err ==> pool_id_check(pool_id) == Err::<(), Error>(
            Error::InvalidPoolId,
        ),
{
}

/// The parameters of a new farm are checked in order, and the first that
/// fails names the error: total rewards below the minimum, then planned
/// periods below the minimum, then a zero period length, then a zero yield.
pub proof fn lemma_farm_data_errors(
    total_rewards: Balance,
    planned_yielding_periods: BlockNumber,
    blocks_per_period: BlockNumber,
    yield_per_period: Permill,
    min_total_farm_rewards: Balance,
    min_planned_yielding_periods: BlockNumber,
)
    ensures
        ({
            let r = farm_data_check(
                total_rewards,
                planned_yielding_periods,
                blocks_per_period,
                yield_per_period,
                min_total_farm_rewards,
                min_planned_yielding_periods,
            );
            &&& total_rewards < min_total_farm_rewards ==> r == Err::<(), Error>(
                Error::InvalidTotalRewards,
            )
            &&& total_rewards >= min_total_farm_rewards && planned_yielding_periods
                < min_planned_yielding_periods ==> r == Err::<(), Error>(
                Error::InvalidPlannedYieldingPeriods,
            )
            &&& total_rewards >= min_total_farm_rewards && planned_yielding_periods
                >= min_planned_yielding_periods && blocks_per_period == 0 ==> r == Err::<(), Error>(
                Error::InvalidBlocksPerPeriod,
            )
            &&& total_rewards >= min_total_farm_rewards && planned_yielding_periods
                >= min_planned_yielding_periods && blocks_per_period != 0 && yield_per_period.parts
                == 0 ==> r == Err::<(), Error>(Error::InvalidYieldPerPeriod)
            &&& r is Ok <==> (total_rewards >= min_total_farm_rewards && planned_yielding_periods
                >= min_planned_yielding_periods && blocks_per_period != 0
                && yield_per_period.parts != 0)
        }),
{
}

} // verus!
