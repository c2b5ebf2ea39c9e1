//! The laws of the staking ledger, each stated over the spec functions that
//! the operations' own contracts use and proved once for all inputs.

use vstd::prelude::*;

use crate::machine::{
    claim_check, claimed_record, stake_check, staked_record, unstake_check, unstaked_record,
};
use crate::pool::{
    StakingPool, UserEntry, distinct_ids, has_user, lemma_sum_bounds, record_of, sum_staked,
    user_index, users_after_claim,
};
use crate::records::{AccountId, StakingError, UserRecord, reward_formula};

verus! {

/// Conservation: in every well-formed pool state the recorded total equals
/// the staked principal summed over all participants. Every operation
/// requires and re-establishes well-formedness, so this holds of every
/// reachable state.
pub proof fn lemma_conservation(pool: StakingPool)
    requires
        pool.wf(),
    ensures
        pool.pool.total_staked == sum_staked(pool.users@),
{
}

/// Accrual: immediately after any successful stake the record carries
/// exactly the truncating linear reward on its whole new principal, locked
/// from `now` for `lock_duration`.
pub proof fn lemma_reward_accrual_after_stake(
    u: UserRecord,
    total_staked: u64,
    now: u64,
    amount: u64,
    lock_duration: u64,
)
    requires
        stake_check(u, total_staked, now, amount, lock_duration) is Ok,
    ensures
        ({
            let s = staked_record(u, now, amount, lock_duration);
            &&& s.amount == u.amount + amount
            &&& s.deposit_time == now
            &&& s.lock_duration == lock_duration
            &&& s.reward == reward_formula(s.amount, s.lock_duration)
        }),
{
}

/// Lock gating: while a record with live principal is still within its lock
/// window, every principal- or reward-changing operation is refused with
/// `LockNotExpired`.
pub proof fn lemma_lock_gating(
    u: UserRecord,
    total_staked: u64,
    now: u64,
    amount: u64,
    lock_duration: u64,
)
    requires
        u.amount > 0,
        now < u.deposit_time + u.lock_duration,
    ensures
        stake_check(u, total_staked, now, amount, lock_duration) == Err::<u64, StakingError>(
            StakingError::LockNotExpired,
        ),
        unstake_check(u, total_staked, now, amount) == Err::<u64, StakingError>(
            StakingError::LockNotExpired,
        ),
        claim_check(u, now) == Err::<u64, StakingError>(StakingError::LockNotExpired),
{
}

/// Exactly-once payout: right after a successful claim a second claim at the
/// same time is refused with `NoRewardAvailable` — and a refused operation
/// never changes a record.
pub proof fn lemma_claim_exactly_once(u: UserRecord, now: u64)
    requires
        claim_check(u, now) is Ok,
    ensures
        claim_check(claimed_record(u), now) == Err::<u64, StakingError>(
            StakingError::NoRewardAvailable,
        ),
{
}

/// Updating the entry `id` owns leaves the identities distinct and makes the
/// new record the one looked up for `id`.
pub proof fn lemma_record_of_after_update(users: Seq<UserEntry>, id: AccountId, rec: UserRecord)
    requires
        distinct_ids(users),
        has_user(users, id),
    ensures
        ({
            let upd = users.update(user_index(users, id), UserEntry { id, record: rec });
            &&& distinct_ids(upd)
            &&& has_user(upd, id)
            &&& record_of(upd, id) == rec
        }),
{
    let i = user_index(users, id);
    assert(0 <= i < users.len() && users[i].id == id);
    let upd = users.update(i, UserEntry { id, record: rec });
    assert(distinct_ids(upd)) by {
        assert(forall|k: int| 0 <= k < upd.len() ==> (#[trigger] upd[k]).id == users[k].id);
    }
    crate::pool::lemma_user_index(upd, id, i);
}

/// Exactly-once payout across the whole pool: after `id`'s successful claim,
/// the pool refuses `id`'s next claim with `NoRewardAvailable`.
pub proof fn lemma_claim_exactly_once_pool(users: Seq<UserEntry>, id: AccountId, now: u64)
    requires
        distinct_ids(users),
        claim_check(record_of(users, id), now) is Ok,
    ensures
        claim_check(record_of(users_after_claim(users, id), id), now) == Err::<u64, StakingError>(
            StakingError::NoRewardAvailable,
        ),
{
    let u = record_of(users, id);
    assert(has_user(users, id)) by {
        assert(UserRecord::zeroed().reward == 0);
    }
    lemma_record_of_after_update(users, id, claimed_record(u));
    lemma_claim_exactly_once(u, now);
}

/// Round trip: withdrawing the whole principal returns the record to its
/// inactive state — no principal, no lock, no pending reward.
pub proof fn lemma_full_unstake_resets(u: UserRecord, total_staked: u64, now: u64)
    requires
        unstake_check(u, total_staked, now, u.amount) is Ok,
    ensures
        unstaked_record(u, u.amount) == UserRecord::zeroed(),
{
}

/// Under conservation the pool total covers every participant's principal,
/// so the pool-total underflow report of an unstake is unreachable in any
/// well-formed state.
pub proof fn lemma_total_covers_principal(pool: StakingPool, id: AccountId)
    requires
        pool.wf(),
    ensures
        record_of(pool.users@, id).amount <= pool.pool.total_staked,
{
    lemma_sum_bounds(pool.users@);
    if has_user(pool.users@, id) {
        let i = user_index(pool.users@, id);
        assert(0 <= i < pool.users@.len() && pool.users@[i].id == id);
    }
}

} // verus!
