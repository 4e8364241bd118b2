use basilisk::fixed_point::{FixedU128, Permill, FIXED_DIV};
use basilisk::liquidity_mining::{Error, Event, GlobalPool, LoyaltyCurve, Pallet, Pool, RewardTransfer};

const ALICE: [u8; 32] = [4u8; 32];

fn pool_with(total_shares: u128, accumulated_rps: u128, accumulated_rewards: u128) -> GlobalPool {
    let mut p = GlobalPool::new(1, 10, 7, Permill::from_parts(20), 500, 100, ALICE, 3);
    p.total_shares = total_shares;
    p.accumulated_rps = accumulated_rps;
    p.accumulated_rewards = accumulated_rewards;
    p
}

#[test]
fn default_loyalty_curve() {
    let c = LoyaltyCurve::default();
    assert_eq!(c.b.into_inner(), 500_000_000_000_000_000);
    assert_eq!(c.scale_coef, 100);
}

#[test]
fn new_global_pool_starts_empty() {
    let p = GlobalPool::new(5, 12, 7, Permill::from_parts(20), 500, 100, ALICE, 3);
    assert_eq!(p.id, 5);
    assert_eq!(p.updated_at, 12);
    assert_eq!(p.total_shares, 0);
    assert_eq!(p.accumulated_rps, 0);
    assert_eq!(p.accumulated_rps_start, 0);
    assert_eq!(p.accumulated_rewards, 0);
    assert_eq!(p.paid_accumulated_rewards, 0);
    assert_eq!(p.reward_currency, 7);
    assert_eq!(p.incentivized_token, 3);
    assert_eq!(p.owner, ALICE);
}

#[test]
fn permill_clamps_and_detects_zero() {
    assert_eq!(Permill::from_parts(2_000_000).parts, 1_000_000);
    assert_eq!(Permill::from_parts(20).parts, 20);
    assert!(Permill::from_parts(0).is_zero());
    assert!(!Permill::from_parts(1).is_zero());
}

#[test]
fn period_number() {
    assert_eq!(Pallet::get_period_number(1_000, 1), Ok(1_000));
    assert_eq!(Pallet::get_period_number(1_000, 10), Ok(100));
    assert_eq!(Pallet::get_period_number(23, 10), Ok(2));
    assert_eq!(Pallet::get_period_number(9, 10), Ok(0));
    assert_eq!(Pallet::get_period_number(1_000, 0), Err(Error::Overflow));
}

#[test]
fn pool_id_validation() {
    assert_eq!(Pallet::validate_pool_id(0), Err(Error::InvalidPoolId));
    assert_eq!(Pallet::validate_pool_id(1), Ok(()));
    assert_eq!(Pallet::validate_pool_id(u32::MAX - 1), Ok(()));
    assert_eq!(Pallet::validate_pool_id(u32::MAX), Err(Error::InvalidPoolId));
}

#[test]
fn loyalty_multiplier_on_default_curve() {
    let c = LoyaltyCurve::default();
    let m = |p: u32| Pallet::get_loyalty_multiplier(p, &c).unwrap().into_inner();
    assert_eq!(m(0), 500_000_000_000_000_000);
    assert_eq!(m(1), 504_950_495_049_504_950);
    assert_eq!(m(10), 545_454_545_454_545_454);
    assert_eq!(m(100), 749_999_999_999_999_999);
    assert_eq!(m(1_000), 954_545_454_545_454_545);
    assert_eq!(m(1_000_000), 999_950_004_999_500_050);
    assert_eq!(m(u32::MAX), 999_999_988_358_468_086);
}

#[test]
fn loyalty_multiplier_special_curves() {
    // b = 1.0: always one
    let one = LoyaltyCurve { b: FixedU128::from_inner(FIXED_DIV), scale_coef: 100 };
    assert_eq!(Pallet::get_loyalty_multiplier(5, &one).unwrap().into_inner(), FIXED_DIV);
    // the raw value 1 counts as one
    let raw_one = LoyaltyCurve { b: FixedU128::from_inner(1), scale_coef: 100 };
    assert_eq!(Pallet::get_loyalty_multiplier(5, &raw_one).unwrap().into_inner(), FIXED_DIV);
    // b = 0
    let zero = LoyaltyCurve { b: FixedU128::from_inner(0), scale_coef: 100 };
    assert_eq!(Pallet::get_loyalty_multiplier(5, &zero).unwrap().into_inner(), 47_619_047_619_047_619);
    // b = 0.2 on a large scale
    let c = LoyaltyCurve { b: FixedU128::from_inner(200_000_000_000_000_000), scale_coef: u32::MAX };
    assert_eq!(
        Pallet::get_loyalty_multiplier(1_000_000_000, &c).unwrap().into_inner(),
        351_086_863_323_109_533
    );
}

#[test]
fn loyalty_multiplier_errors() {
    // scale_coef 0 divides by zero
    let c = LoyaltyCurve { b: FixedU128::from_inner(500_000_000_000_000_000), scale_coef: 0 };
    assert_eq!(Pallet::get_loyalty_multiplier(5, &c), Err(Error::Overflow));
    // b + 1 overflows
    let c = LoyaltyCurve { b: FixedU128::from_inner(u128::MAX), scale_coef: 1 };
    assert_eq!(Pallet::get_loyalty_multiplier(5, &c), Err(Error::Overflow));
}

#[test]
fn loyalty_multiplier_at_start_is_b() {
    for b in [0u128, 2, 123_456_789, 300_000_000_000_000_000, 900_000_000_000_000_000] {
        let c = LoyaltyCurve { b: FixedU128::from_inner(b), scale_coef: 7 };
        assert_eq!(Pallet::get_loyalty_multiplier(0, &c).unwrap().into_inner(), b);
    }
}

#[test]
fn loyalty_multiplier_between_b_and_one() {
    for b in [0u128, 100_000_000_000_000_000, 500_000_000_000_000_000, 999_999_999_999_999_999] {
        let c = LoyaltyCurve { b: FixedU128::from_inner(b), scale_coef: 50 };
        for p in [0u32, 1, 7, 50, 1_000, 100_000, u32::MAX] {
            let m = Pallet::get_loyalty_multiplier(p, &c).unwrap().into_inner();
            assert!(b <= m && m <= FIXED_DIV);
        }
    }
}

#[test]
fn loyalty_multiplier_never_falls() {
    for b in [0u128, 3, 250_000_000_000_000_000, 999_999_999_999_999_999, FIXED_DIV] {
        let c = LoyaltyCurve { b: FixedU128::from_inner(b), scale_coef: 3 };
        let mut prev = 0;
        for p in (0..2_000u32).chain([100_000, 10_000_000, u32::MAX]) {
            let m = Pallet::get_loyalty_multiplier(p, &c).unwrap().into_inner();
            assert!(m >= prev);
            prev = m;
        }
    }
}

#[test]
fn reward_per_period() {
    let half = FixedU128::from_inner(500_000_000_000_000_000);
    assert_eq!(Pallet::get_reward_per_period(half, 1_000, 10_000), Ok(500));
    assert_eq!(Pallet::get_reward_per_period(half, 1_000, 300), Ok(300));
    assert_eq!(Pallet::get_reward_per_period(half, 3, 10), Ok(1));
    let big = FixedU128::from_inner(u128::MAX);
    assert_eq!(Pallet::get_reward_per_period(big, u128::MAX, 10), Err(Error::Overflow));
}

#[test]
fn wide_products_round_to_nearest() {
    // the product does not fit in 128 bits: the quotient is rounded half up
    let r = Pallet::get_reward_per_period(FixedU128::from_inner(FIXED_DIV + 1), 1u128 << 127, u128::MAX);
    assert_eq!(r, Ok(170_141_183_460_469_231_901_828_487_176_353_337_460));
    let r = Pallet::get_reward_per_period(FixedU128::from_inner(FIXED_DIV + 3), (1u128 << 126) + 999, u128::MAX);
    assert_eq!(r, Ok(85_070_591_730_234_616_121_055_427_048_645_901_461));
    // remainder below one half: rounded down
    let r = Pallet::get_reward_per_period(
        FixedU128::from_inner(1_500_000_000_000_000_007),
        (1u128 << 127) + 12_345,
        u128::MAX,
    );
    assert_eq!(r, Ok(255_211_775_190_703_848_788_519_239_797_110_799_231));
    // narrow products are rounded down
    let r = Pallet::get_reward_per_period(FixedU128::from_inner(999_999_999_999_999_999), 10, u128::MAX);
    assert_eq!(r, Ok(9));
}

#[test]
fn accumulated_rps() {
    assert_eq!(Pallet::get_accumulated_rps(10, 100, 1_000), Ok(20));
    assert_eq!(Pallet::get_accumulated_rps(10, 100, 99), Ok(10));
    assert_eq!(Pallet::get_accumulated_rps(10, 0, 1_000), Err(Error::Overflow));
    assert_eq!(Pallet::get_accumulated_rps(u128::MAX, 1, 1), Err(Error::Overflow));
}

#[test]
fn user_reward() {
    let half = FixedU128::from_inner(500_000_000_000_000_000);
    assert_eq!(Pallet::get_user_reward(10, 100, 30, 100, half), Ok((900, 1_000)));
    let one = FixedU128::from_inner(FIXED_DIV);
    assert_eq!(Pallet::get_user_reward(0, 5, 4, 0, one), Ok((20, 0)));
    // the split adds up
    let (paid, withheld) = Pallet::get_user_reward(3, 77, 1_003, 5, half).unwrap();
    assert_eq!(paid + 5 + withheld, 1_000 * 77);
}

#[test]
fn user_reward_errors() {
    let half = FixedU128::from_inner(500_000_000_000_000_000);
    // rps below the user's
    assert_eq!(Pallet::get_user_reward(30, 100, 10, 0, half), Err(Error::Overflow));
    // rewards overflow
    assert_eq!(Pallet::get_user_reward(0, u128::MAX, 2, 0, half), Err(Error::Overflow));
    // claimed more than claimable
    assert_eq!(Pallet::get_user_reward(10, 100, 30, 1_001, half), Err(Error::Overflow));
    // multiplier above one makes more claimable than earned
    let two = FixedU128::from_inner(2 * FIXED_DIV);
    assert_eq!(Pallet::get_user_reward(10, 100, 30, 0, two), Err(Error::Overflow));
}

#[test]
fn update_global_pool_accumulates() {
    let mut p = pool_with(1_000, 5, 100);
    assert_eq!(Pallet::update_global_pool(1, &mut p, 20, 500, 1_000_000), Ok(()));
    // 10 periods * 500 = 5_000 rewards over 1_000 shares
    assert_eq!(p.accumulated_rps, 10);
    assert_eq!(p.accumulated_rewards, 5_100);
    assert_eq!(p.updated_at, 20);
}

#[test]
fn update_global_pool_capped_by_balance() {
    let mut p = pool_with(1_000, 5, 100);
    assert_eq!(Pallet::update_global_pool(1, &mut p, 20, 500, 2_000), Ok(()));
    assert_eq!(p.accumulated_rps, 7);
    assert_eq!(p.accumulated_rewards, 2_100);
    assert_eq!(p.updated_at, 20);
}

#[test]
fn update_global_pool_noops() {
    // same period
    let mut p = pool_with(1_000, 5, 100);
    let before = p;
    assert_eq!(Pallet::update_global_pool(1, &mut p, 10, 500, 2_000), Ok(()));
    assert_eq!(p, before);
    // no shares
    let mut p = pool_with(0, 5, 100);
    let before = p;
    assert_eq!(Pallet::update_global_pool(1, &mut p, 20, 500, 2_000), Ok(()));
    assert_eq!(p, before);
    // nothing to pay: only the period moves
    let mut p = pool_with(1_000, 5, 100);
    assert_eq!(Pallet::update_global_pool(1, &mut p, 20, 500, 0), Ok(()));
    assert_eq!(p.accumulated_rps, 5);
    assert_eq!(p.accumulated_rewards, 100);
    assert_eq!(p.updated_at, 20);
}

#[test]
fn update_global_pool_errors() {
    // period before the last update
    let mut p = pool_with(1_000, 5, 100);
    assert_eq!(Pallet::update_global_pool(1, &mut p, 5, 500, 2_000), Err(Error::Overflow));
    // rewards overflow
    let mut p = pool_with(1_000, 5, 100);
    assert_eq!(Pallet::update_global_pool(1, &mut p, 20, u128::MAX, 2_000), Err(Error::Overflow));
    // invalid pool id
    let mut p = pool_with(1_000, 5, 100);
    assert_eq!(Pallet::update_global_pool(0, &mut p, 20, 500, 2_000), Err(Error::InvalidPoolId));
    assert_eq!(p, pool_with(1_000, 5, 100));
    let mut p = pool_with(1_000, 5, 100);
    assert_eq!(Pallet::update_global_pool(u32::MAX, &mut p, 20, 500, 2_000), Err(Error::InvalidPoolId));
    // accumulated rewards overflow after the rps moved
    let mut p = pool_with(1_000, 5, u128::MAX);
    assert_eq!(Pallet::update_global_pool(1, &mut p, 20, 500, 2_000), Err(Error::Overflow));
    assert_eq!(p.accumulated_rps, 7);
    assert_eq!(p.updated_at, 10);
}

#[test]
fn update_global_pool_twice_changes_nothing() {
    let mut p = pool_with(1_000, 5, 100);
    assert_eq!(Pallet::update_global_pool(1, &mut p, 20, 500, 1_000_000), Ok(()));
    let after = p;
    assert_eq!(Pallet::update_global_pool(1, &mut p, 20, 9_999, 7), Ok(()));
    assert_eq!(p, after);
}

#[test]
fn claim_from_global_pool() {
    let mut p = pool_with(1_000, 10, 5_000);
    p.accumulated_rps_start = 4;
    p.paid_accumulated_rewards = 70;
    assert_eq!(Pallet::claim_from_global_pool(&mut p, 100), Ok(600));
    assert_eq!(p.accumulated_rps_start, 10);
    assert_eq!(p.paid_accumulated_rewards, 670);
    assert_eq!(p.accumulated_rewards, 4_400);
    // conservation
    assert_eq!(p.paid_accumulated_rewards + p.accumulated_rewards, 70 + 5_000);
    // a second claim pays nothing
    let after = p;
    assert_eq!(Pallet::claim_from_global_pool(&mut p, 12_345), Ok(0));
    assert_eq!(p, after);
}

#[test]
fn claim_capped_by_accumulated_rewards() {
    let mut p = pool_with(1_000, 10, 50);
    assert_eq!(Pallet::claim_from_global_pool(&mut p, 100), Ok(50));
    assert_eq!(p.accumulated_rewards, 0);
    assert_eq!(p.paid_accumulated_rewards, 50);
}

#[test]
fn claim_errors() {
    let mut p = pool_with(1_000, 10, 50);
    p.accumulated_rps_start = 11;
    assert_eq!(Pallet::claim_from_global_pool(&mut p, 100), Err(Error::Overflow));
    let mut p = pool_with(1_000, 10, 50);
    assert_eq!(Pallet::claim_from_global_pool(&mut p, u128::MAX), Err(Error::Overflow));
    let mut p = pool_with(1_000, 10, 50);
    p.paid_accumulated_rewards = u128::MAX;
    assert_eq!(Pallet::claim_from_global_pool(&mut p, 100), Err(Error::Overflow));
    assert_eq!(p.accumulated_rps_start, 10);
}

#[test]
fn update_pool() {
    let mut p = Pool { updated_at: 3, total_shares: 100, accumulated_rps: 2 };
    let r = Pallet::update_pool(4, &mut p, 1_000, 5, 1, 7, 5_000);
    assert_eq!(r, Ok(Some(RewardTransfer { currency: 7, from_pool: 1, to_pool: 4, amount: 1_000 })));
    assert_eq!(p, Pool { updated_at: 5, total_shares: 100, accumulated_rps: 12 });
}

#[test]
fn update_pool_noops() {
    let mut p = Pool { updated_at: 5, total_shares: 100, accumulated_rps: 2 };
    assert_eq!(Pallet::update_pool(4, &mut p, 1_000, 5, 1, 7, 5_000), Ok(None));
    assert_eq!(p, Pool { updated_at: 5, total_shares: 100, accumulated_rps: 2 });
    let mut p = Pool { updated_at: 3, total_shares: 0, accumulated_rps: 2 };
    assert_eq!(Pallet::update_pool(4, &mut p, 1_000, 5, 1, 7, 5_000), Ok(None));
    assert_eq!(p, Pool { updated_at: 3, total_shares: 0, accumulated_rps: 2 });
}

#[test]
fn update_pool_errors() {
    let fresh = || Pool { updated_at: 3, total_shares: 100, accumulated_rps: 2 };
    let moved = Pool { updated_at: 5, total_shares: 100, accumulated_rps: 12 };
    let mut p = fresh();
    assert_eq!(Pallet::update_pool(4, &mut p, 1_000, 5, 1, 7, 999), Err(Error::InsufficientBalancdInGlobalPool));
    assert_eq!(p, moved);
    let mut p = fresh();
    assert_eq!(Pallet::update_pool(4, &mut p, 1_000, 5, 0, 7, 5_000), Err(Error::InvalidPoolId));
    assert_eq!(p, moved);
    let mut p = fresh();
    assert_eq!(Pallet::update_pool(0, &mut p, 1_000, 5, 1, 7, 5_000), Err(Error::InvalidPoolId));
    let mut p = Pool { updated_at: 3, total_shares: 1, accumulated_rps: u128::MAX };
    assert_eq!(Pallet::update_pool(4, &mut p, 1, 5, 1, 7, 5_000), Err(Error::Overflow));
    assert_eq!(p, Pool { updated_at: 3, total_shares: 1, accumulated_rps: u128::MAX });
}

#[test]
fn validate_farm_data() {
    let pallet = Pallet::new(1_000, 100);
    let y = Permill::from_parts(20);
    assert_eq!(pallet.validate_create_new_farm_data(1_000, 100, 1, y), Ok(()));
    assert_eq!(pallet.validate_create_new_farm_data(999, 100, 1, y), Err(Error::InvalidTotalRewards));
    assert_eq!(pallet.validate_create_new_farm_data(1_000, 99, 1, y), Err(Error::InvalidPlannedYieldingPeriods));
    assert_eq!(pallet.validate_create_new_farm_data(1_000, 100, 0, y), Err(Error::InvalidBlocksPerPeriod));
    assert_eq!(
        pallet.validate_create_new_farm_data(1_000, 100, 1, Permill::from_parts(0)),
        Err(Error::InvalidYieldPerPeriod)
    );
    // the first failing check decides
    assert_eq!(pallet.validate_create_new_farm_data(0, 0, 0, Permill::from_parts(0)), Err(Error::InvalidTotalRewards));
}

#[test]
fn next_ids_follow_each_other() {
    let mut pallet = Pallet::new(1_000, 100);
    assert_eq!(pallet.pool_id(), 0);
    assert_eq!(pallet.get_next_id(), Ok(1));
    assert_eq!(pallet.get_next_id(), Ok(2));
    assert_eq!(pallet.pool_id(), 2);
    assert_eq!(pallet.global_pool(1), None);
}

#[test]
fn create_farm_stores_the_farm() {
    let mut pallet = Pallet::new(1_000, 100);
    let y = Permill::from_parts(20);
    let r = pallet.create_farm(1_000_000, 500, 10, 3, 7, ALICE, y, 1_000_000, 1_234);
    let expected = GlobalPool::new(1, 123, 7, y, 500, 10, ALICE, 3);
    assert_eq!(r, Ok(Event::FarmCreated(1, expected)));
    assert_eq!(pallet.pool_id(), 1);
    assert_eq!(pallet.global_pool(1), Some(expected));
    let r = pallet.create_farm(2_000, 100, 1, 4, 8, ALICE, y, 5_000, 77);
    let second = GlobalPool::new(2, 77, 8, y, 100, 1, ALICE, 4);
    assert_eq!(r, Ok(Event::FarmCreated(2, second)));
    assert_eq!(pallet.global_pool(1), Some(expected));
    assert_eq!(pallet.global_pool(2), Some(second));
    assert_eq!(pallet.global_pool(3), None);
}

#[test]
fn create_farm_refusals_store_nothing() {
    let mut pallet = Pallet::new(1_000, 100);
    let y = Permill::from_parts(20);
    assert_eq!(pallet.create_farm(999, 500, 10, 3, 7, ALICE, y, 1_000_000, 1), Err(Error::InvalidTotalRewards));
    assert_eq!(pallet.create_farm(1_000, 99, 10, 3, 7, ALICE, y, 1_000_000, 1), Err(Error::InvalidPlannedYieldingPeriods));
    assert_eq!(pallet.create_farm(1_000, 500, 0, 3, 7, ALICE, y, 1_000_000, 1), Err(Error::InvalidBlocksPerPeriod));
    assert_eq!(
        pallet.create_farm(1_000, 500, 10, 3, 7, ALICE, Permill::from_parts(0), 1_000_000, 1),
        Err(Error::InvalidYieldPerPeriod)
    );
    assert_eq!(
        pallet.create_farm(1_000, 500, 10, 3, 7, ALICE, y, 999, 1),
        Err(Error::InsufficientRewardCurrencyBalance)
    );
    assert_eq!(pallet.pool_id(), 0);
    assert_eq!(pallet.global_pool(1), None);
}

#[test]
fn farm_takes_the_id_after_skipped_ones() {
    let mut pallet = Pallet::new(0, 0);
    let y = Permill::from_parts(1);
    // walk the sequence to its end without storing farms
    let mut last = 0;
    for _ in 0..3 {
        last = pallet.get_next_id().unwrap();
    }
    assert_eq!(last, 3);
    assert_eq!(pallet.create_farm(0, 0, 1, 0, 0, ALICE, y, 0, 0).map(|_| ()), Ok(()));
    assert_eq!(pallet.global_pool(4).map(|p| p.id), Some(4));
}
