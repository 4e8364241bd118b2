//! Reward accounting of liquidity-mining farms: global pools that hand out a
//! reward currency per period, the pools that draw from them, and the
//! storage that creates farms and numbers them.

use vstd::prelude::*;
use crate::fixed_point::{
    checked_add, checked_div, checked_mul, checked_mul_int, fixed_add, fixed_div,
    fixed_from_integer, fixed_mul, fixed_mul_int, from_integer, is_one, FixedU128, Permill,
};

verus! {

/// Identifier of a global pool or of a pool; 0 is never valid.
pub type PoolId = u32;

/// Amount of a currency.
pub type Balance = u128;

/// Block number, also used for period numbers.
pub type BlockNumber = u32;

/// Identifier of a currency.
pub type AssetId = u32;

/// A 32-byte account identifier.
pub type AccountId = [u8; 32];

/// Errors of the liquidity-mining logic.
#[derive(Clone, Copy, Debug, PartialEq, Eq, Structural)]
pub enum Error {
    /// Math computation overflow
    Overflow,
    /// Insufficient balance in global pool to transfer rewards to pool
    InsufficientBalancdInGlobalPool,
    /// Provided id is not valid. Valid range is [1, u32::MAX)
    InvalidPoolId,
    /// Provided planned_yielding_periods is below limit
    InvalidPlannedYieldingPeriods,
    /// Provided blocks_per_period can't be 0
    InvalidBlocksPerPeriod,
    /// Yield per period can't be 0
    InvalidYieldPerPeriod,
    /// Provided total_rewards for farming is below min limit
    InvalidTotalRewards,
    /// Reward currency balance too low
    InsufficientRewardCurrencyBalance,
    /// Feature is not implemented yet
    NotImplemented,
}

/// A farm: the source of rewards for the pools that join it.
#[derive(Clone, Copy, Debug, PartialEq, Eq)]
pub struct GlobalPool {
    pub id: PoolId,
    pub owner: AccountId,
    pub updated_at: BlockNumber,
    pub total_shares: Balance,
    pub accumulated_rps: Balance,
    pub accumulated_rps_start: Balance,
    pub reward_currency: AssetId,
    pub accumulated_rewards: Balance,
    pub paid_accumulated_rewards: Balance,
    pub yield_per_period: Permill,
    pub planned_yielding_periods: BlockNumber,
    pub blocks_per_period: BlockNumber,
    pub incentivized_token: AssetId,
}

/// A pool that receives rewards from a global pool.
#[derive(Clone, Copy, Debug, PartialEq, Eq, Structural)]
pub struct Pool {
    pub updated_at: BlockNumber,
    pub total_shares: Balance,
    pub accumulated_rps: Balance,
}

/// Parameters of the loyalty curve.
#[derive(Clone, Copy, Debug, PartialEq, Eq, Structural)]
pub struct LoyaltyCurve {
    pub b: FixedU128,
    pub scale_coef: u32,
}

impl Default for LoyaltyCurve {
    /// `b = 0.5`, `scale_coef = 100`.
    fn default() -> (r: LoyaltyCurve)
        ensures
            r.b.inner == 500_000_000_000_000_000,
            r.scale_coef == 100,
    {
        LoyaltyCurve { b: FixedU128::from_inner(500_000_000_000_000_000), scale_coef: 100 }
    }
}

/// The global pool that `GlobalPool::new` builds: every counter at zero.
pub open spec fn new_global_pool(
    id: PoolId,
    updated_at: BlockNumber,
    reward_currency: AssetId,
    yield_per_period: Permill,
    planned_yielding_periods: BlockNumber,
    blocks_per_period: BlockNumber,
    owner: AccountId,
    incentivized_token: AssetId,
) -> GlobalPool {
    GlobalPool {
        id,
        owner,
        updated_at,
        total_shares: 0,
        accumulated_rps: 0,
        accumulated_rps_start: 0,
        reward_currency,
        accumulated_rewards: 0,
        paid_accumulated_rewards: 0,
        yield_per_period,
        planned_yielding_periods,
        blocks_per_period,
        incentivized_token,
    }
}

impl GlobalPool {
    /// A global pool with the given parameters and no shares or rewards yet.
    pub fn new(
        id: PoolId,
        updated_at: BlockNumber,
        reward_currency: AssetId,
        yield_per_period: Permill,
        planned_yielding_periods: BlockNumber,
        blocks_per_period: BlockNumber,
        owner: AccountId,
        incentivized_token: AssetId,
    ) -> (r: GlobalPool)
        ensures
            r == new_global_pool(
                id,
                updated_at,
                reward_currency,
                yield_per_period,
                planned_yielding_periods,
                blocks_per_period,
                owner,
                incentivized_token,
            ),
    {
        GlobalPool {
            accumulated_rewards: 0,
            accumulated_rps: 0,
            accumulated_rps_start: 0,
            paid_accumulated_rewards: 0,
            total_shares: 0,
            id,
            updated_at,
            reward_currency,
            yield_per_period,
            planned_yielding_periods,
            blocks_per_period,
            owner,
            incentivized_token,
        }
    }
}

/// Whether `pool_id` is outside the valid range `[1, u32::MAX)`.
pub open spec fn pool_check_fails(pool_id: PoolId) -> bool {
    pool_id_check(pool_id) is Err
}

/// The smaller of two balances.
pub open spec fn min_balance(a: Balance, b: Balance) -> Balance {
    if a <= b { a } else { b }
}

fn min_of(a: Balance, b: Balance) -> (r: Balance)
    ensures
        r == min_balance(a, b),
{
    if a <= b { a } else { b }
}

/// `Ok` exactly for a pool id in the valid range `[1, u32::MAX)`.
pub open spec fn pool_id_check(pool_id: PoolId) -> Result<(), Error> {
    if pool_id == 0 || pool_id == u32::MAX {
        Err(Error::InvalidPoolId)
    } else {
        Ok(())
    }
}

/// Period number of block `now` with `blocks_per_period` blocks per period.
pub open spec fn period_number(now: BlockNumber, blocks_per_period: BlockNumber) -> Result<
    BlockNumber,
    Error,
> {
    if blocks_per_period == 1 {
        Ok(now)
    } else if blocks_per_period == 0 {
        Err(Error::Overflow)
    } else {
        Ok((now / blocks_per_period) as BlockNumber)
    }
}

/// Loyalty multiplier after `periods` periods on the curve with raw
/// parameter `b` and `scale_coef`, as the fixed-point operations compute it:
/// `theta = periods / ((b + 1) * scale_coef)` and
/// `(theta + theta * b + b) / (theta + theta * b + 1)`.
pub open spec fn loyalty_multiplier(periods: BlockNumber, b: u128, scale_coef: u32) -> Result<
    FixedU128,
    Error,
> {
    let one = fixed_from_integer(1);
    if b == 1 {
        Ok(FixedU128 { inner: one })
    } else {
        match fixed_add(b, one) {
            None => Err(Error::Overflow),
            Some(b_plus_one) => match fixed_mul(b_plus_one, fixed_from_integer(scale_coef as u128)) {
                None => Err(Error::Overflow),
                Some(denom) => match fixed_div(fixed_from_integer(periods as u128), denom) {
                    None => Err(Error::Overflow),
                    Some(theta) => match fixed_mul(theta, b) {
                        None => Err(Error::Overflow),
                        Some(theta_mul_b) => match fixed_add(theta, theta_mul_b) {
                            None => Err(Error::Overflow),
                            Some(s) => match fixed_add(s, b) {
                                None => Err(Error::Overflow),
                                Some(num) => match fixed_add(s, one) {
                                    None => Err(Error::Overflow),
                                    Some(den) => match fixed_div(num, den) {
                                        None => Err(Error::Overflow),
                                        Some(m) => Ok(FixedU128 { inner: m }),
                                    },
                                },
                            },
                        },
                    },
                },
            },
        }
    }
}

/// Reward of one period: `yield_per_period * total_global_farm_shares`,
/// capped at `max_reward_per_period`.
pub open spec fn reward_per_period(
    yield_per_period: u128,
    total_global_farm_shares: Balance,
    max_reward_per_period: Balance,
) -> Result<Balance, Error> {
    match fixed_mul_int(yield_per_period, total_global_farm_shares) {
        None => Err(Error::Overflow),
        Some(r) => Ok(min_balance(r, max_reward_per_period)),
    }
}

/// `accumulated_rps_now + reward / total_shares`.
pub open spec fn accumulated_rps(
    accumulated_rps_now: Balance,
    total_shares: Balance,
    reward: Balance,
) -> Result<Balance, Error> {
    if total_shares == 0 {
        Err(Error::Overflow)
    } else if reward / total_shares + accumulated_rps_now > u128::MAX {
        Err(Error::Overflow)
    } else {
        Ok((reward / total_shares + accumulated_rps_now) as Balance)
    }
}

/// `(user_rewards, unclaimable_rewards)` of a user: of the rewards
/// `(accumulated_rps_now - user_accumulated_rps) * user_shares`, the part
/// the loyalty multiplier makes claimable less what was claimed already, and
/// the part it does not.
pub open spec fn user_reward(
    user_accumulated_rps: Balance,
    user_shares: Balance,
    accumulated_rps_now: Balance,
    user_accumulated_claimed_rewards: Balance,
    loyalty_multiplier: u128,
) -> Result<(Balance, Balance), Error> {
    if accumulated_rps_now < user_accumulated_rps {
        Err(Error::Overflow)
    } else if (accumulated_rps_now - user_accumulated_rps) * user_shares > u128::MAX {
        Err(Error::Overflow)
    } else {
        let max_rewards = ((accumulated_rps_now - user_accumulated_rps) * user_shares) as u128;
        match fixed_mul_int(loyalty_multiplier, max_rewards) {
            None => Err(Error::Overflow),
            Some(claimable) => if max_rewards < claimable {
                Err(Error::Overflow)
            } else if claimable < user_accumulated_claimed_rewards {
                Err(Error::Overflow)
            } else {
                Ok(
                    (
                        (claimable - user_accumulated_claimed_rewards) as Balance,
                        (max_rewards - claimable) as Balance,
                    ),
                )
            },
        }
    }
}

/// What `update_global_pool` leaves in the pool and returns, given the free
/// balance of the reward currency on the pool's account.
pub open spec fn global_pool_update(
    pool_id: PoolId,
    pool: GlobalPool,
    now_period: BlockNumber,
    reward_per_period: Balance,
    pool_account_balance: Balance,
) -> (GlobalPool, Result<(), Error>) {
    if pool.updated_at == now_period || pool.total_shares == 0 {
        (pool, Ok(()))
    } else if now_period < pool.updated_at {
        (pool, Err(Error::Overflow))
    } else if (now_period - pool.updated_at) * reward_per_period > u128::MAX {
        (pool, Err(Error::Overflow))
    } else if pool_check_fails(pool_id) {
        (pool, Err(Error::InvalidPoolId))
    } else {
        let reward = min_balance(
            ((now_period - pool.updated_at) * reward_per_period) as u128,
            pool_account_balance,
        );
        if reward == 0 {
            (GlobalPool { updated_at: now_period, ..pool }, Ok(()))
        } else {
            match accumulated_rps(pool.accumulated_rps, pool.total_shares, reward) {
                Err(e) => (pool, Err(e)),
                Ok(rps) => if pool.accumulated_rewards + reward > u128::MAX {
                    (GlobalPool { accumulated_rps: rps, ..pool }, Err(Error::Overflow))
                } else {
                    (
                        GlobalPool {
                            accumulated_rps: rps,
                            accumulated_rewards: (pool.accumulated_rewards + reward) as u128,
                            updated_at: now_period,
                            ..pool
                        },
                        Ok(()),
                    )
                },
            }
        }
    }
}

/// What `claim_from_global_pool` leaves in the pool and returns.
pub open spec fn global_pool_claim(pool: GlobalPool, shares: Balance) -> (GlobalPool, Result<
    Balance,
    Error,
>) {
    if pool.accumulated_rps < pool.accumulated_rps_start {
        (pool, Err(Error::Overflow))
    } else if (pool.accumulated_rps - pool.accumulated_rps_start) * shares > u128::MAX {
        (pool, Err(Error::Overflow))
    } else {
        let reward = min_balance(
            ((pool.accumulated_rps - pool.accumulated_rps_start) * shares) as u128,
            pool.accumulated_rewards,
        );
        let started = GlobalPool { accumulated_rps_start: pool.accumulated_rps, ..pool };
        if pool.paid_accumulated_rewards + reward > u128::MAX {
            (started, Err(Error::Overflow))
        } else {
            (
                GlobalPool {
                    paid_accumulated_rewards: (pool.paid_accumulated_rewards + reward) as u128,
                    accumulated_rewards: (pool.accumulated_rewards - reward) as u128,
                    ..started
                },
                Ok(reward),
            )
        }
    }
}

/// A transfer of `amount` of `currency` from the account of pool `from_pool`
/// to the account of pool `to_pool`.
#[derive(Clone, Copy, Debug, PartialEq, Eq, Structural)]
pub struct RewardTransfer {
    pub currency: AssetId,
    pub from_pool: PoolId,
    pub to_pool: PoolId,
    pub amount: Balance,
}

/// What `update_pool` leaves in the pool and returns, given the free balance
/// of the reward currency on the global pool's account: the transfer that
/// completes the update, or none when the pool was up to date or empty.
pub open spec fn pool_update(
    pool_id: PoolId,
    pool: Pool,
    rewards: Balance,
    period_now: BlockNumber,
    global_pool_id: PoolId,
    reward_currency: AssetId,
    global_pool_balance: Balance,
) -> (Pool, Result<Option<RewardTransfer>, Error>) {
    if pool.updated_at == period_now || pool.total_shares == 0 {
        (pool, Ok(None))
    } else {
        match accumulated_rps(pool.accumulated_rps, pool.total_shares, rewards) {
            Err(e) => (pool, Err(e)),
            Ok(rps) => {
                let updated = Pool { accumulated_rps: rps, updated_at: period_now, ..pool };
                if pool_check_fails(global_pool_id) {
                    (updated, Err(Error::InvalidPoolId))
                } else if global_pool_balance < rewards {
                    (updated, Err(Error::InsufficientBalancdInGlobalPool))
                } else if pool_check_fails(pool_id) {
                    (updated, Err(Error::InvalidPoolId))
                } else {
                    (
                        updated,
                        Ok(
                            Some(
                                RewardTransfer {
                                    currency: reward_currency,
                                    from_pool: global_pool_id,
                                    to_pool: pool_id,
                                    amount: rewards,
                                },
                            ),
                        ),
                    )
                }
            },
        }
    }
}

/// Checks of the parameters of a new farm, in the order they are made.
pub open spec fn farm_data_check(
    total_rewards: Balance,
    planned_yielding_periods: BlockNumber,
    blocks_per_period: BlockNumber,
    yield_per_period: Permill,
    min_total_farm_rewards: Balance,
    min_planned_yielding_periods: BlockNumber,
) -> Result<(), Error> {
    if total_rewards < min_total_farm_rewards {
        Err(Error::InvalidTotalRewards)
    } else if planned_yielding_periods < min_planned_yielding_periods {
        Err(Error::InvalidPlannedYieldingPeriods)
    } else if blocks_per_period == 0 {
        Err(Error::InvalidBlocksPerPeriod)
    } else if yield_per_period.parts == 0 {
        Err(Error::InvalidYieldPerPeriod)
    } else {
        Ok(())
    }
}

/// The global pool with id `id` in `pools`: the last one stored under it.
pub open spec fn find_pool(pools: Seq<GlobalPool>, id: PoolId) -> Option<GlobalPool>
    decreases pools.len(),
{
    if pools.len() == 0 {
        None
    } else if pools.last().id == id {
        Some(pools.last())
    } else {
        find_pool(pools.drop_last(), id)
    }
}

/// Period number of block `now` when `blocks_per_period` is not zero.
pub open spec fn period_of(now: BlockNumber, blocks_per_period: BlockNumber) -> BlockNumber {
    if blocks_per_period == 1 {
        now
    } else {
        (now / blocks_per_period) as BlockNumber
    }
}

/// The farm that `create_farm` creates, with its id, or the error it
/// refuses with: the parameter checks, then the owner's balance of the reward
/// currency, then the pool id sequence, then the validity of the new id.
pub open spec fn farm_creation(
    id_seq: PoolId,
    min_total_farm_rewards: Balance,
    min_planned_yielding_periods: BlockNumber,
    total_rewards: Balance,
    planned_yielding_periods: BlockNumber,
    blocks_per_period: BlockNumber,
    incentivized_token: AssetId,
    reward_currency: AssetId,
    owner: AccountId,
    yield_per_period: Permill,
    owner_reward_balance: Balance,
    current_block_number: BlockNumber,
) -> Result<(PoolId, GlobalPool), Error> {
    match farm_data_check(
        total_rewards,
        planned_yielding_periods,
        blocks_per_period,
        yield_per_period,
        min_total_farm_rewards,
        min_planned_yielding_periods,
    ) {
        Err(e) => Err(e),
        Ok(_) => if owner_reward_balance < total_rewards {
            Err(Error::InsufficientRewardCurrencyBalance)
        } else if id_seq == u32::MAX {
            Err(Error::Overflow)
        } else if pool_check_fails((id_seq + 1) as PoolId) {
            Err(Error::InvalidPoolId)
        } else {
            let id = (id_seq + 1) as PoolId;
            Ok(
                (
                    id,
                    new_global_pool(
                        id,
                        period_of(current_block_number, blocks_per_period),
                        reward_currency,
                        yield_per_period,
                        planned_yielding_periods,
                        blocks_per_period,
                        owner,
                        incentivized_token,
                    ),
                ),
            )
        },
    }
}

/// Event of the pallet.
#[derive(Clone, Copy, Debug, PartialEq, Eq)]
pub enum Event {
    /// New farm was created. [pool_id, global_pool]
    FarmCreated(PoolId, GlobalPool),
}

/// Storage and configuration of the liquidity-mining pallet.
#[derive(Clone)]
pub struct Pallet {
    pool_id_seq: PoolId,
    global_pool_data: Vec<GlobalPool>,
    min_total_farm_rewards: Balance,
    min_planned_yielding_periods: BlockNumber,
}

impl Pallet {
    /// The last pool id handed out (0 before the first).
    pub closed spec fn id_seq(&self) -> PoolId {
        self.pool_id_seq
    }

    /// The stored global pool with id `id`, if any.
    pub closed spec fn stored_pool(&self, id: PoolId) -> Option<GlobalPool> {
        find_pool(self.global_pool_data@, id)
    }

    /// The stored global pools, in the order they were stored.
    pub closed spec fn stored_pools(&self) -> Seq<GlobalPool> {
        self.global_pool_data@
    }

    /// Minimum total rewards of a new farm.
    pub closed spec fn min_total_rewards(&self) -> Balance {
        self.min_total_farm_rewards
    }

    /// Minimum number of planned yielding periods of a new farm.
    pub closed spec fn min_planned_periods(&self) -> BlockNumber {
        self.min_planned_yielding_periods
    }

    /// Every stored pool has an id in `1..=id_seq()`.
    pub closed spec fn wf(&self) -> bool {
        forall|i: int|
            0 <= i < self.global_pool_data@.len() ==> 0 < #[trigger] self.global_pool_data@[i].id
                <= self.pool_id_seq
    }

    /// Empty storage with the given configuration.
    pub fn new(min_total_farm_rewards: Balance, min_planned_yielding_periods: BlockNumber) -> (r:
        Pallet)
        ensures
            r.wf(),
            r.id_seq() == 0,
            forall|id: PoolId| r.stored_pool(id) is None,
            r.min_total_rewards() == min_total_farm_rewards,
            r.min_planned_periods() == min_planned_yielding_periods,
    {
        let r = Pallet {
            pool_id_seq: 0,
            global_pool_data: Vec::new(),
            min_total_farm_rewards,
            min_planned_yielding_periods,
        };
        assert forall|id: PoolId| r.stored_pool(id) is None by {
            assert(r.global_pool_data@.len() == 0);
        }
        r
    }

    /// The last pool id handed out.
    pub fn pool_id(&self) -> (r: PoolId)
        ensures
            r == self.id_seq(),
    {
        self.pool_id_seq
    }

    /// The stored global pool with id `id`, if any.
    pub fn global_pool(&self, id: PoolId) -> (r: Option<GlobalPool>)
        ensures
            r == self.stored_pool(id),
    {
        let ghost s = self.global_pool_data@;
        let mut i = self.global_pool_data.len();
        assert(s.subrange(0, i as int) =~= s);
        while i > 0
            invariant
                i <= s.len(),
                s == self.global_pool_data@,
                find_pool(s, id) == find_pool(s.subrange(0, i as int), id),
            decreases i,
        {
            let p = self.global_pool_data[i - 1];
            assert(s.subrange(0, i as int).drop_last() =~= s.subrange(0, i - 1));
            if p.id == id {
                return Some(p);
            }
            i = i - 1;
        }
        None
    }

    /// Hands out the next pool id.
    pub fn get_next_id(&mut self) -> (r: Result<PoolId, Error>)
        requires
            old(self).wf(),
        ensures
            final(self).wf(),
            final(self).min_total_rewards() == old(self).min_total_rewards(),
            final(self).min_planned_periods() == old(self).min_planned_periods(),
            final(self).stored_pools() == old(self).stored_pools(),
            forall|id: PoolId| final(self).stored_pool(id) == old(self).stored_pool(id),
            old(self).id_seq() == u32::MAX ==> r == Err::<PoolId, Error>(Error::Overflow)
                && final(self).id_seq() == old(self).id_seq(),
            old(self).id_seq() < u32::MAX ==> r == Ok::<PoolId, Error>(
                (old(self).id_seq() + 1) as PoolId,
            ) && final(self).id_seq() == old(self).id_seq() + 1,
    {
        match self.pool_id_seq.checked_add(1) {
            Some(next) => {
                self.pool_id_seq = next;
                Ok(next)
            },
            None => Err(Error::Overflow),
        }
    }

    /// Creates a farm: checks the parameters and that the owner holds
    /// `total_rewards` of the reward currency (`owner_reward_balance`), numbers
    /// the farm and stores it as of the period of `current_block_number`.
    /// Nothing is stored when it fails. The caller moves `total_rewards` from
    /// the owner to the farm's account and undoes the creation if that fails.
    pub fn create_farm(
        &mut self,
        total_rewards: Balance,
        planned_yielding_periods: BlockNumber,
        blocks_per_period: BlockNumber,
        incentivized_token: AssetId,
        reward_currency: AssetId,
        owner: AccountId,
        yield_per_period: Permill,
        owner_reward_balance: Balance,
        current_block_number: BlockNumber,
    ) -> (r: Result<Event, Error>)
        requires
            old(self).wf(),
        ensures
            final(self).wf(),
            final(self).min_total_rewards() == old(self).min_total_rewards(),
            final(self).min_planned_periods() == old(self).min_planned_periods(),
            match farm_creation(
                old(self).id_seq(),
                old(self).min_total_rewards(),
                old(self).min_planned_periods(),
                total_rewards,
                planned_yielding_periods,
                blocks_per_period,
                incentivized_token,
                reward_currency,
                owner,
                yield_per_period,
                owner_reward_balance,
                current_block_number,
            ) {
                Err(e) => {
                    &&& r == Err::<Event, Error>(e)
                    &&& final(self).id_seq() == old(self).id_seq()
                    &&& forall|id: PoolId| final(self).stored_pool(id) == old(self).stored_pool(id)
                },
                Ok((pool_id, pool)) => {
                    &&& r == Ok::<Event, Error>(Event::FarmCreated(pool_id, pool))
                    &&& final(self).id_seq() == pool_id
                    &&& final(self).stored_pool(pool_id) == Some(pool)
                    &&& forall|id: PoolId|
                        id != pool_id ==> final(self).stored_pool(id) == old(self).stored_pool(id)
                },
            },
    {
        match self.validate_create_new_farm_data(
            total_rewards,
            planned_yielding_periods,
            blocks_per_period,
            yield_per_period,
        ) {
            Ok(()) => {},
            Err(e) => return Err(e),
        }
        if owner_reward_balance < total_rewards {
            return Err(Error::InsufficientRewardCurrencyBalance);
        }
        let now_period = match Self::get_period_number(current_block_number, blocks_per_period) {
            Ok(p) => p,
            Err(e) => return Err(e),
        };
        let pool_id = match self.get_next_id() {
            Ok(id) => id,
            Err(e) => return Err(e),
        };
        match Self::validate_pool_id(pool_id) {
            Ok(()) => {},
            Err(e) => {
                // the farm's account cannot be derived: undo the numbering
                self.pool_id_seq = pool_id - 1;
                return Err(e);
            },
        }
        let pool = GlobalPool::new(
            pool_id,
            now_period,
            reward_currency,
            yield_per_period,
            planned_yielding_periods,
            blocks_per_period,
            owner,
            incentivized_token,
        );
        let ghost before = self.global_pool_data@;
        self.global_pool_data.push(pool);
        assert(self.global_pool_data@.drop_last() =~= before);
        Ok(Event::FarmCreated(pool_id, pool))
    }

    /// Checks the parameters of a new farm against the configured minimums.
    pub fn validate_create_new_farm_data(
        &self,
        total_rewads: Balance,
        planned_yielding_periods: BlockNumber,
        blocks_per_period: BlockNumber,
        yield_per_period: Permill,
    ) -> (r: Result<(), Error>)
        ensures
            r == farm_data_check(
                total_rewads,
                planned_yielding_periods,
                blocks_per_period,
                yield_per_period,
                self.min_total_rewards(),
                self.min_planned_periods(),
            ),
    {
        if total_rewads < self.min_total_farm_rewards {
            return Err(Error::InvalidTotalRewards);
        }
        if planned_yielding_periods < self.min_planned_yielding_periods {
            return Err(Error::InvalidPlannedYieldingPeriods);
        }
        if blocks_per_period == 0 {
            return Err(Error::InvalidBlocksPerPeriod);
        }
        if yield_per_period.is_zero() {
            return Err(Error::InvalidYieldPerPeriod);
        }
        Ok(())
    }

    /// `Ok` exactly for a pool id in the valid range `[1, u32::MAX)`.
    pub fn validate_pool_id(pool_id: PoolId) -> (r: Result<(), Error>)
        ensures
            r == pool_id_check(pool_id),
    {
        if pool_id <= 0 || pool_id == u32::MAX {
            return Err(Error::InvalidPoolId);
        }
        Ok(())
    }

    /// Period number of block `now` with `blocks_per_period` blocks per period.
    pub fn get_period_number(now: BlockNumber, blocks_per_period: BlockNumber) -> (r: Result<
        BlockNumber,
        Error,
    >)
        ensures
            r == period_number(now, blocks_per_period),
    {
        if blocks_per_period == 1 {
            return Ok(now);
        }
        match now.checked_div(blocks_per_period) {
            Some(p) => Ok(p),
            None => Err(Error::Overflow),
        }
    }

    /// Loyalty multiplier after `periods` periods:
    /// `theta = periods / ((b + 1) * scale_coef)`,
    /// `(theta + theta * b + b) / (theta + theta * b + 1)`.
    pub fn get_loyalty_multiplier(periods: BlockNumber, curve: &LoyaltyCurve) -> (r: Result<
        FixedU128,
        Error,
    >)
        ensures
            r == loyalty_multiplier(periods, curve.b.inner, curve.scale_coef),
    {
        let b = curve.b.inner;
        if is_one(b) {
            return Ok(FixedU128::from_inner(from_integer(1)));
        }
        let one = from_integer(1);
        let b_plus_one = match checked_add(b, one) {
            Some(v) => v,
            None => return Err(Error::Overflow),
        };
        let denom = match checked_mul(b_plus_one, from_integer(curve.scale_coef as u128)) {
            Some(v) => v,
            None => return Err(Error::Overflow),
        };
        let p = from_integer(periods as u128);
        let theta = match checked_div(p, denom) {
            Some(v) => v,
            None => return Err(Error::Overflow),
        };
        let theta_mul_b = match checked_mul(theta, b) {
            Some(v) => v,
            None => return Err(Error::Overflow),
        };
        let theta_add_theta_mul_b = match checked_add(theta, theta_mul_b) {
            Some(v) => v,
            None => return Err(Error::Overflow),
        };
        let num = match checked_add(theta_add_theta_mul_b, b) {
            Some(v) => v,
            None => return Err(Error::Overflow),
        };
        let den = match checked_add(theta_add_theta_mul_b, one) {
            Some(v) => v,
            None => return Err(Error::Overflow),
        };
        match checked_div(num, den) {
            Some(m) => Ok(FixedU128::from_inner(m)),
            None => Err(Error::Overflow),
        }
    }

    /// Reward of one period: `yield_per_period * total_global_farm_shares`,
    /// at most `max_reward_per_period`.
    pub fn get_reward_per_period(
        yield_per_period: FixedU128,
        total_global_farm_shares: Balance,
        max_reward_per_period: Balance,
    ) -> (r: Result<Balance, Error>)
        ensures
            r == reward_per_period(
                yield_per_period.inner,
                total_global_farm_shares,
                max_reward_per_period,
            ),
    {
        match checked_mul_int(yield_per_period.inner, total_global_farm_shares) {
            Some(v) => Ok(min_of(v, max_reward_per_period)),
            None => Err(Error::Overflow),
        }
    }

    /// `accumulated_rps_now + reward / total_shares`.
    pub fn get_accumulated_rps(
        accumulated_rps_now: Balance,
        total_shares: Balance,
        reward: Balance,
    ) -> (r: Result<Balance, Error>)
        ensures
            r == accumulated_rps(accumulated_rps_now, total_shares, reward),
    {
        let per_share = match reward.checked_div(total_shares) {
            Some(v) => v,
            None => return Err(Error::Overflow),
        };
        match per_share.checked_add(accumulated_rps_now) {
            Some(v) => Ok(v),
            None => Err(Error::Overflow),
        }
    }

    /// `(user_rewards, unclaimable_rewards)`.
    /// NOTE: claimable_reward and user_rewards is not the same !!!
    pub fn get_user_reward(
        user_accumulated_rps: Balance,
        user_shares: Balance,
        accumulated_rps_now: Balance,
        user_accumulated_claimed_rewards: Balance,
        loyalty_multiplier: FixedU128,
    ) -> (r: Result<(Balance, Balance), Error>)
        ensures
            r == user_reward(
                user_accumulated_rps,
                user_shares,
                accumulated_rps_now,
                user_accumulated_claimed_rewards,
                loyalty_multiplier.inner,
            ),
    {
        let rps_diff = match accumulated_rps_now.checked_sub(user_accumulated_rps) {
            Some(v) => v,
            None => return Err(Error::Overflow),
        };
        let max_rewards = match rps_diff.checked_mul(user_shares) {
            Some(v) => v,
            None => return Err(Error::Overflow),
        };
        let claimable_rewards = match checked_mul_int(loyalty_multiplier.inner, max_rewards) {
            Some(v) => v,
            None => return Err(Error::Overflow),
        };
        let unclaimable_rewards = match max_rewards.checked_sub(claimable_rewards) {
            Some(v) => v,
            None => return Err(Error::Overflow),
        };
        let user_rewards = match claimable_rewards.checked_sub(user_accumulated_claimed_rewards) {
            Some(v) => v,
            None => return Err(Error::Overflow),
        };
        Ok((user_rewards, unclaimable_rewards))
    }

    /// Brings a global pool up to period `now_period`, given the free balance
    /// of its reward currency on the pool's account.
    pub fn update_global_pool(
        pool_id: PoolId,
        pool: &mut GlobalPool,
        now_period: BlockNumber,
        reward_per_period: Balance,
        pool_account_balance: Balance,
    ) -> (r: Result<(), Error>)
        ensures
            (*final(pool), r) == global_pool_update(
                pool_id,
                *old(pool),
                now_period,
                reward_per_period,
                pool_account_balance,
            ),
    {
        if pool.updated_at == now_period {
            return Ok(());
        }
        if pool.total_shares == 0 {
            return Ok(());
        }
        let periods = match now_period.checked_sub(pool.updated_at) {
            Some(v) => v,
            None => return Err(Error::Overflow),
        };
        let periods_since_last_update = periods as u128;
        let total = match periods_since_last_update.checked_mul(reward_per_period) {
            Some(v) => v,
            None => return Err(Error::Overflow),
        };
        match Self::validate_pool_id(pool_id) {
            Ok(()) => {},
            Err(e) => return Err(e),
        }
        let reward = min_of(total, pool_account_balance);
        if reward != 0 {
            pool.accumulated_rps = match Self::get_accumulated_rps(
                pool.accumulated_rps,
                pool.total_shares,
                reward,
            ) {
                Ok(v) => v,
                Err(e) => return Err(e),
            };
            pool.accumulated_rewards = match pool.accumulated_rewards.checked_add(reward) {
                Some(v) => v,
                None => return Err(Error::Overflow),
            };
        }
        pool.updated_at = now_period;
        Ok(())
    }

    /// Pays the rewards of `shares` out of a global pool.
    pub fn claim_from_global_pool(pool: &mut GlobalPool, shares: Balance) -> (r: Result<
        Balance,
        Error,
    >)
        ensures
            (*final(pool), r) == global_pool_claim(*old(pool), shares),
    {
        let rps_diff = match pool.accumulated_rps.checked_sub(pool.accumulated_rps_start) {
            Some(v) => v,
            None => return Err(Error::Overflow),
        };
        let all = match rps_diff.checked_mul(shares) {
            Some(v) => v,
            None => return Err(Error::Overflow),
        };
        let reward = min_of(all, pool.accumulated_rewards);
        pool.accumulated_rps_start = pool.accumulated_rps;
        pool.paid_accumulated_rewards = match pool.paid_accumulated_rewards.checked_add(reward) {
            Some(v) => v,
            None => return Err(Error::Overflow),
        };
        pool.accumulated_rewards = match pool.accumulated_rewards.checked_sub(reward) {
            Some(v) => v,
            None => return Err(Error::Overflow),
        };
        Ok(reward)
    }

    /// Brings a pool up to period `period_now` with `rewards` from its global
    /// pool, given the free balance of the reward currency on the global
    /// pool's account; returns the transfer that moves the rewards.
    pub fn update_pool(
        pool_id: PoolId,
        pool: &mut Pool,
        rewards: Balance,
        period_now: BlockNumber,
        global_pool_id: PoolId,
        reward_currency: AssetId,
        global_pool_balance: Balance,
    ) -> (r: Result<Option<RewardTransfer>, Error>)
        ensures
            (*final(pool), r) == pool_update(
                pool_id,
                *old(pool),
                rewards,
                period_now,
                global_pool_id,
                reward_currency,
                global_pool_balance,
            ),
    {
        if pool.updated_at == period_now {
            return Ok(None);
        }
        if pool.total_shares == 0 {
            return Ok(None);
        }
        pool.accumulated_rps = match Self::get_accumulated_rps(
            pool.accumulated_rps,
            pool.total_shares,
            rewards,
        ) {
            Ok(v) => v,
            Err(e) => return Err(e),
        };
        pool.updated_at = period_now;
        match Self::validate_pool_id(global_pool_id) {
            Ok(()) => {},
            Err(e) => return Err(e),
        }
        if global_pool_balance < rewards {
            return Err(Error::InsufficientBalancdInGlobalPool);
        }
        match Self::validate_pool_id(pool_id) {
            Ok(()) => {},
            Err(e) => return Err(e),
        }
        Ok(
            Some(
                RewardTransfer {
                    currency: reward_currency,
                    from_pool: global_pool_id,
                    to_pool: pool_id,
                    amount: rewards,
                },
            ),
        )
    }
}

/// No global pool is stored under an id above the last id handed out, so
/// every id that `get_next_id` or `create_farm` hands out is unused.
pub proof fn lemma_issued_ids_are_fresh(pallet: &Pallet, id: PoolId)
    requires
        pallet.wf(),
        id > pallet.id_seq(),
    ensures
        pallet.stored_pool(id) is None,
{
    lemma_find_pool_above(pallet.global_pool_data@, pallet.pool_id_seq, id);
}

proof fn lemma_find_pool_above(pools: Seq<GlobalPool>, bound: PoolId, id: PoolId)
    requires
        forall|i: int| 0 <= i < pools.len() ==> #[trigger] pools[i].id <= bound,
        id > bound,
    ensures
        find_pool(pools, id) is None,
    decreases pools.len(),
{
    if pools.len() > 0 {
        assert(pools.last() == pools[pools.len() - 1]);
        let rest = pools.drop_last();
        assert forall|i: int| 0 <= i < rest.len() implies #[trigger] rest[i].id <= bound by {
            assert(rest[i] == pools[i]);
        }
        lemma_find_pool_above(rest, bound, id);
    }
}

} // verus!
