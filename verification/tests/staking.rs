use staking_ledger::machine;
use staking_ledger::pool::StakingPool;
use staking_ledger::records::{AccountId, PoolRecord, StakingError, UserRecord};

fn id(n: u64) -> AccountId {
    AccountId { w0: n, w1: 0, w2: 0, w3: 0 }
}

fn admin() -> AccountId {
    id(1)
}

fn token() -> AccountId {
    id(2)
}

fn alice() -> AccountId {
    id(10)
}

fn bob() -> AccountId {
    id(11)
}

#[test]
fn initialize_creates_empty_pool() {
    let p = StakingPool::initialize(admin(), token());
    assert_eq!(p.pool.admin, admin());
    assert_eq!(p.pool.token, token());
    assert_eq!(p.pool.total_staked, 0);
    assert_eq!(p.get_poolinfo(), 0);
    assert_eq!(p.get_userinfo(alice()), None);
}

#[test]
fn scenario_stake_locked_then_unstake() {
    // initialize -> stake 500 for 20 at time 100 -> reward 500*20/10 = 1000;
    // unstake at 110 is refused while locked; at 121 it succeeds and resets.
    let mut p = StakingPool::initialize(admin(), token());
    assert_eq!(p.stake(alice(), 100, 500, 20, true), Ok(()));
    assert_eq!(
        p.get_userinfo(alice()),
        Some(UserRecord { amount: 500, deposit_time: 100, lock_duration: 20, reward: 1000 })
    );
    assert_eq!(p.get_poolinfo(), 500);

    assert_eq!(p.unstake(alice(), 110, 500, true), Err(StakingError::LockNotExpired));
    assert_eq!(
        p.get_userinfo(alice()),
        Some(UserRecord { amount: 500, deposit_time: 100, lock_duration: 20, reward: 1000 })
    );
    assert_eq!(p.get_poolinfo(), 500);

    assert_eq!(p.unstake(alice(), 121, 500, true), Ok(()));
    assert_eq!(
        p.get_userinfo(alice()),
        Some(UserRecord { amount: 0, deposit_time: 0, lock_duration: 0, reward: 0 })
    );
    assert_eq!(p.get_poolinfo(), 0);
}

#[test]
fn round_trip_restores_zeroed_record() {
    // stake(1000, 10) then, once the lock expires, unstake(1000).
    let mut p = StakingPool::initialize(admin(), token());
    assert_eq!(p.stake(alice(), 50, 1000, 10, true), Ok(()));
    assert_eq!(p.get_poolinfo(), 1000);
    assert_eq!(p.unstake(alice(), 60, 1000, true), Ok(()));
    assert_eq!(
        p.get_userinfo(alice()),
        Some(UserRecord { amount: 0, deposit_time: 0, lock_duration: 0, reward: 0 })
    );
    assert_eq!(p.get_poolinfo(), 0);
}

#[test]
fn reward_uses_truncating_division() {
    // 5 * 3 / 10 truncates to 1.
    let mut p = StakingPool::initialize(admin(), token());
    assert_eq!(p.stake(alice(), 0, 5, 3, true), Ok(()));
    assert_eq!(p.get_userinfo(alice()).unwrap().reward, 1);
}

#[test]
fn lock_expiry_boundary_is_inclusive() {
    // The lock expires exactly at deposit_time + lock_duration.
    let mut p = StakingPool::initialize(admin(), token());
    assert_eq!(p.stake(alice(), 100, 40, 20, true), Ok(()));
    assert_eq!(p.claim_reward(alice(), 119, true), Err(StakingError::LockNotExpired));
    assert_eq!(p.claim_reward(alice(), 120, true), Ok(()));
}

#[test]
fn lock_gating_refuses_all_operations_unchanged() {
    let mut p = StakingPool::initialize(admin(), token());
    assert_eq!(p.stake(alice(), 100, 500, 20, true), Ok(()));
    let before_user = p.get_userinfo(alice());
    let before_total = p.get_poolinfo();

    assert_eq!(p.stake(alice(), 110, 1, 5, true), Err(StakingError::LockNotExpired));
    assert_eq!(p.unstake(alice(), 110, 1, true), Err(StakingError::LockNotExpired));
    assert_eq!(p.claim_reward(alice(), 110, true), Err(StakingError::LockNotExpired));

    assert_eq!(p.get_userinfo(alice()), before_user);
    assert_eq!(p.get_poolinfo(), before_total);
}

#[test]
fn claim_reward_pays_exactly_once() {
    let mut p = StakingPool::initialize(admin(), token());
    assert_eq!(p.stake(alice(), 100, 500, 20, true), Ok(()));
    assert_eq!(p.claim_reward(alice(), 120, true), Ok(()));
    let after_first = p.get_userinfo(alice());
    assert_eq!(
        after_first,
        Some(UserRecord { amount: 500, deposit_time: 100, lock_duration: 20, reward: 0 })
    );
    assert_eq!(p.claim_reward(alice(), 120, true), Err(StakingError::NoRewardAvailable));
    assert_eq!(p.get_userinfo(alice()), after_first);
    assert_eq!(p.get_poolinfo(), 500);
}

#[test]
fn claim_reward_without_stake_reports_no_reward() {
    let mut p = StakingPool::initialize(admin(), token());
    assert_eq!(p.claim_reward(alice(), 5, true), Err(StakingError::NoRewardAvailable));
}

#[test]
fn unstake_boundary_exact_amount_succeeds() {
    let mut p = StakingPool::initialize(admin(), token());
    assert_eq!(p.stake(alice(), 0, 700, 10, true), Ok(()));
    assert_eq!(p.unstake(alice(), 10, 700, true), Ok(()));
    assert_eq!(p.get_poolinfo(), 0);
}

#[test]
fn unstake_beyond_balance_reports_insufficient_stake() {
    let mut p = StakingPool::initialize(admin(), token());
    assert_eq!(p.stake(alice(), 0, 700, 10, true), Ok(()));
    assert_eq!(p.unstake(alice(), 10, 701, true), Err(StakingError::InsufficientStake));
    assert_eq!(p.get_userinfo(alice()).unwrap().amount, 700);
    assert_eq!(p.get_poolinfo(), 700);
}

#[test]
fn partial_unstake_keeps_lock_and_zeroes_reward() {
    let mut p = StakingPool::initialize(admin(), token());
    assert_eq!(p.stake(alice(), 100, 600, 10, true), Ok(()));
    assert_eq!(p.unstake(alice(), 115, 200, true), Ok(()));
    assert_eq!(
        p.get_userinfo(alice()),
        Some(UserRecord { amount: 400, deposit_time: 100, lock_duration: 10, reward: 0 })
    );
    assert_eq!(p.get_poolinfo(), 400);
}

#[test]
fn restake_after_expiry_reaccrues_on_whole_principal() {
    let mut p = StakingPool::initialize(admin(), token());
    assert_eq!(p.stake(alice(), 100, 500, 20, true), Ok(()));
    // The lock has expired; the pending 1000 is minted and 300 more staked.
    assert_eq!(p.stake(alice(), 130, 300, 10, true), Ok(()));
    assert_eq!(
        p.get_userinfo(alice()),
        Some(UserRecord { amount: 800, deposit_time: 130, lock_duration: 10, reward: 800 })
    );
    assert_eq!(p.get_poolinfo(), 800);
}

#[test]
fn total_staked_sums_over_participants() {
    let mut p = StakingPool::initialize(admin(), token());
    assert_eq!(p.stake(alice(), 0, 300, 10, true), Ok(()));
    assert_eq!(p.stake(bob(), 0, 450, 5, true), Ok(()));
    assert_eq!(p.get_poolinfo(), 750);
    assert_eq!(p.unstake(bob(), 20, 450, true), Ok(()));
    assert_eq!(p.get_poolinfo(), 300);
    assert_eq!(p.get_userinfo(alice()).unwrap().amount, 300);
}

#[test]
fn reward_product_overflow_is_reported() {
    let mut p = StakingPool::initialize(admin(), token());
    assert_eq!(p.stake(alice(), 0, u64::MAX, 2, true), Err(StakingError::ArithmeticOverflow));
    assert_eq!(p.get_userinfo(alice()), None);
    assert_eq!(p.get_poolinfo(), 0);
}

#[test]
fn principal_overflow_is_reported() {
    let mut p = StakingPool::initialize(admin(), token());
    assert_eq!(p.stake(alice(), 0, u64::MAX - 5, 0, true), Ok(()));
    assert_eq!(p.stake(alice(), 1, 10, 0, true), Err(StakingError::ArithmeticOverflow));
    assert_eq!(p.get_userinfo(alice()).unwrap().amount, u64::MAX - 5);
}

#[test]
fn pool_total_overflow_is_reported() {
    let mut p = StakingPool::initialize(admin(), token());
    assert_eq!(p.stake(alice(), 0, u64::MAX - 5, 0, true), Ok(()));
    assert_eq!(p.stake(bob(), 0, 10, 0, true), Err(StakingError::ArithmeticOverflow));
    assert_eq!(p.get_userinfo(bob()), None);
    assert_eq!(p.get_poolinfo(), u64::MAX - 5);
}

#[test]
fn ledger_failure_aborts_without_mutation() {
    let mut p = StakingPool::initialize(admin(), token());
    assert_eq!(p.stake(alice(), 0, 500, 20, false), Err(StakingError::LedgerError));
    assert_eq!(p.get_userinfo(alice()), None);
    assert_eq!(p.get_poolinfo(), 0);

    assert_eq!(p.stake(alice(), 0, 500, 20, true), Ok(()));
    assert_eq!(p.unstake(alice(), 25, 500, false), Err(StakingError::LedgerError));
    assert_eq!(p.claim_reward(alice(), 25, false), Err(StakingError::LedgerError));
    assert_eq!(
        p.get_userinfo(alice()),
        Some(UserRecord { amount: 500, deposit_time: 0, lock_duration: 20, reward: 1000 })
    );
    assert_eq!(p.get_poolinfo(), 500);
}

#[test]
fn record_level_initialize_matches_inputs() {
    let pool_rec = machine::initialize(admin(), token());
    assert_eq!(pool_rec, PoolRecord { admin: admin(), token: token(), total_staked: 0 });
}

#[test]
fn record_level_stake_plan_reports_pending_mint() {
    let user_rec = UserRecord { amount: 500, deposit_time: 100, lock_duration: 20, reward: 1000 };
    let pool_rec = PoolRecord { admin: admin(), token: token(), total_staked: 500 };
    // Re-staking after expiry first mints the pending 1000.
    assert_eq!(machine::stake_plan(&user_rec, &pool_rec, 130, 300, 10), Ok(1000));
    // While locked the plan is refused.
    assert_eq!(
        machine::stake_plan(&user_rec, &pool_rec, 110, 300, 10),
        Err(StakingError::LockNotExpired)
    );
}

#[test]
fn record_level_stake_commits_both_records() {
    let mut user_rec = UserRecord { amount: 0, deposit_time: 0, lock_duration: 0, reward: 0 };
    let mut pool_rec = PoolRecord { admin: admin(), token: token(), total_staked: 0 };
    assert_eq!(machine::stake(&mut user_rec, &mut pool_rec, 100, 500, 20, true), Ok(()));
    assert_eq!(
        user_rec,
        UserRecord { amount: 500, deposit_time: 100, lock_duration: 20, reward: 1000 }
    );
    assert_eq!(pool_rec.total_staked, 500);
    assert_eq!(machine::get_userinfo(&user_rec), user_rec);
    assert_eq!(machine::get_poolinfo(&pool_rec), 500);
}

#[test]
fn record_level_unstake_plan_orders_errors() {
    let user_rec = UserRecord { amount: 500, deposit_time: 100, lock_duration: 20, reward: 1000 };
    let pool_rec = PoolRecord { admin: admin(), token: token(), total_staked: 500 };
    assert_eq!(
        machine::unstake_plan(&user_rec, &pool_rec, 110, 600),
        Err(StakingError::LockNotExpired)
    );
    assert_eq!(
        machine::unstake_plan(&user_rec, &pool_rec, 120, 600),
        Err(StakingError::InsufficientStake)
    );
    assert_eq!(machine::unstake_plan(&user_rec, &pool_rec, 120, 500), Ok(1000));
}

#[test]
fn record_level_unstake_reports_corrupted_pool_total() {
    // A pool total below the participant's principal cannot arise while the
    // conservation invariant holds; a corrupted record is reported, not
    // wrapped under.
    let user_rec = UserRecord { amount: 500, deposit_time: 100, lock_duration: 20, reward: 1000 };
    let pool_rec = PoolRecord { admin: admin(), token: token(), total_staked: 300 };
    assert_eq!(
        machine::unstake_plan(&user_rec, &pool_rec, 120, 400),
        Err(StakingError::ArithmeticOverflow)
    );
}

#[test]
fn record_level_claim_mints_pending_reward_once() {
    let mut user_rec = UserRecord { amount: 500, deposit_time: 100, lock_duration: 20, reward: 1000 };
    assert_eq!(machine::claim_plan(&user_rec, 120), Ok(1000));
    assert_eq!(machine::claim_reward(&mut user_rec, 120, true), Ok(()));
    assert_eq!(
        user_rec,
        UserRecord { amount: 500, deposit_time: 100, lock_duration: 20, reward: 0 }
    );
    assert_eq!(machine::claim_reward(&mut user_rec, 120, true), Err(StakingError::NoRewardAvailable));
}
