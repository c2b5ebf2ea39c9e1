//! The staking state machine on a single participant record and the pool
//! record, exactly as the host runtime invokes it: one user record and one
//! pool record per call.
//!
//! Each mutating operation is split for its caller into a *plan* and the
//! operation itself. The plan validates the request without touching any
//! record and answers how much reward the external ledger must mint before
//! the operation may commit; the caller performs the planned mint and
//! transfer, then reports their combined outcome through `ledger_ok`. On any
//! failure — validation or ledger — both records are left byte-for-byte
//! unchanged.

use vstd::prelude::*;

use crate::records::{
    AccountId, PoolRecord, StakingError, UserRecord, checked_reward, lock_is_expired,
    reward_formula,
};

verus! {

/// Validation of a `stake(amount, lock_duration)` request at time `now`
/// against user record `u` and pool total `total_staked`.
///
/// `Ok(m)` carries the pending reward `m` that must be minted to the
/// participant before the deposit is committed (a re-stake rolls the old
/// reward into a mint; `m == 0` means nothing is owed). Errors, in order:
/// a live lock on existing principal, then 64-bit overflow of the new
/// principal, of the reward product, or of the pool total.
pub open spec fn stake_check(
    u: UserRecord,
    total_staked: u64,
    now: u64,
    amount: u64,
    lock_duration: u64,
) -> Result<u64, StakingError> {
    if u.amount > 0 && !u.lock_expired(now) {
        Err(StakingError::LockNotExpired)
    } else if u.amount + amount > u64::MAX || (u.amount + amount) * lock_duration > u64::MAX
        || total_staked + amount > u64::MAX {
        Err(StakingError::ArithmeticOverflow)
    } else {
        Ok(u.reward)
    }
}

/// The user record after a successful `stake(amount, lock_duration)` at time
/// `now`: principal grows by `amount`, the lock restarts at `now` for
/// `lock_duration`, and the reward is re-accrued on the whole new principal.
pub open spec fn staked_record(
    u: UserRecord,
    now: u64,
    amount: u64,
    lock_duration: u64,
) -> UserRecord {
    UserRecord {
        amount: (u.amount + amount) as u64,
        deposit_time: now,
        lock_duration: lock_duration,
        reward: (reward_formula((u.amount + amount) as u64, lock_duration)) as u64,
    }
}

/// Validation of an `unstake(amount)` request at time `now` against user
/// record `u` and pool total `total_staked`. `Ok(m)` carries the pending
/// reward `m`, all of which is minted on withdrawal (a mint of zero is a
/// permitted no-op). Errors, in order: a live lock, a withdrawal beyond the
/// recorded principal, then 64-bit underflow of the pool total — the last is
/// unreachable while the conservation invariant holds, but a corrupted total
/// is reported rather than wrapped under.
pub open spec fn unstake_check(u: UserRecord, total_staked: u64, now: u64, amount: u64) -> Result<
    u64,
    StakingError,
> {
    if !u.lock_expired(now) {
        Err(StakingError::LockNotExpired)
    } else if amount > u.amount {
        Err(StakingError::InsufficientStake)
    } else if amount > total_staked {
        Err(StakingError::ArithmeticOverflow)
    } else {
        Ok(u.reward)
    }
}

/// The user record after a successful `unstake(amount)`: the principal
/// shrinks by `amount`, the paid-out reward is zeroed, and a full withdrawal
/// returns the record to its inactive state.
pub open spec fn unstaked_record(u: UserRecord, amount: u64) -> UserRecord {
    let new_amount = (u.amount - amount) as u64;
    UserRecord {
        amount: new_amount,
        deposit_time: if new_amount == 0 { 0 } else { u.deposit_time },
        lock_duration: if new_amount == 0 { 0 } else { u.lock_duration },
        reward: 0,
    }
}

/// Validation of a `claim_reward()` request at time `now` against user record
/// `u`. `Ok(m)` carries the reward `m > 0` to mint. Errors, in order: a live
/// lock, then an empty reward balance.
pub open spec fn claim_check(u: UserRecord, now: u64) -> Result<u64, StakingError> {
    if !u.lock_expired(now) {
        Err(StakingError::LockNotExpired)
    } else if u.reward == 0 {
        Err(StakingError::NoRewardAvailable)
    } else {
        Ok(u.reward)
    }
}

/// The user record after a successful `claim_reward()`: only the reward is
/// zeroed; principal and lock are untouched.
pub open spec fn claimed_record(u: UserRecord) -> UserRecord {
    UserRecord { reward: 0, ..u }
}

/// Creates the pool record for an (admin, token) pair with nothing staked.
/// No ledger interaction.
pub fn initialize(admin: AccountId, token: AccountId) -> (pool_rec: PoolRecord)
    ensures
        pool_rec == (PoolRecord { admin, token, total_staked: 0 }),
{
    PoolRecord { admin, token, total_staked: 0 }
}

/// Plans a stake: validates without mutating and returns the reward the
/// ledger must mint to the participant before the deposit transfer.
pub fn stake_plan(
    user_rec: &UserRecord,
    pool_rec: &PoolRecord,
    now: u64,
    amount: u64,
    lock_duration: u64,
) -> (r: Result<u64, StakingError>)
    requires
        amount > 0,
    ensures
        r == stake_check(*user_rec, pool_rec.total_staked, now, amount, lock_duration),
{
    if user_rec.amount > 0 && !lock_is_expired(user_rec, now) {
        return Err(StakingError::LockNotExpired);
    }
    let new_amount: u64 = match user_rec.amount.checked_add(amount) {
        Some(n) => n,
        None => { return Err(StakingError::ArithmeticOverflow); },
    };
    if checked_reward(new_amount, lock_duration).is_none() {
        return Err(StakingError::ArithmeticOverflow);
    }
    if pool_rec.total_staked.checked_add(amount).is_none() {
        return Err(StakingError::ArithmeticOverflow);
    }
    Ok(user_rec.reward)
}

/// Stakes `amount` for `lock_duration` timestamp units at time `now`.
///
/// The caller has already performed the ledger calls that `stake_plan`
/// answered — minting the pending reward (when positive) and transferring
/// `amount` into custody — and reports their combined outcome in `ledger_ok`.
/// On validation failure the planned error is returned, on a failed ledger
/// `LedgerError`; in both cases neither record changes. On success both
/// records are committed.
pub fn stake(
    user_rec: &mut UserRecord,
    pool_rec: &mut PoolRecord,
    now: u64,
    amount: u64,
    lock_duration: u64,
    ledger_ok: bool,
) -> (r: Result<(), StakingError>)
    requires
        amount > 0,
    ensures
        match stake_check(*old(user_rec), old(pool_rec).total_staked, now, amount, lock_duration) {
            Err(e) => r == Err::<(), StakingError>(e) && *final(user_rec) == *old(user_rec)
                && *final(pool_rec) == *old(pool_rec),
            Ok(_) => if ledger_ok {
                r == Ok::<(), StakingError>(()) && *final(user_rec) == staked_record(
                    *old(user_rec),
                    now,
                    amount,
                    lock_duration,
                ) && *final(pool_rec) == (PoolRecord {
                    total_staked: (old(pool_rec).total_staked + amount) as u64,
                    ..*old(pool_rec)
                })
            } else {
                r == Err::<(), StakingError>(StakingError::LedgerError) && *final(user_rec) == *old(
                    user_rec,
                ) && *final(pool_rec) == *old(pool_rec)
            },
        },
{
    match stake_plan(user_rec, pool_rec, now, amount, lock_duration) {
        Ok(_) => (),
        Err(e) => { return Err(e); },
    };
    if !ledger_ok {
        return Err(StakingError::LedgerError);
    }
    let new_amount: u64 = user_rec.amount + amount;
    let reward: u64 = match checked_reward(new_amount, lock_duration) {
        Some(w) => w,
        None => { return Err(StakingError::ArithmeticOverflow); },
    };
    user_rec.amount = new_amount;
    user_rec.deposit_time = now;
    user_rec.lock_duration = lock_duration;
    user_rec.reward = reward;
    pool_rec.total_staked = pool_rec.total_staked + amount;
    Ok(())
}

/// Plans an unstake: validates without mutating and returns the pending
/// reward the ledger must mint alongside the principal transfer back.
pub fn unstake_plan(user_rec: &UserRecord, pool_rec: &PoolRecord, now: u64, amount: u64) -> (r:
    Result<u64, StakingError>)
    requires
        amount > 0,
    ensures
        r == unstake_check(*user_rec, pool_rec.total_staked, now, amount),
{
    if !lock_is_expired(user_rec, now) {
        return Err(StakingError::LockNotExpired);
    }
    if amount > user_rec.amount {
        return Err(StakingError::InsufficientStake);
    }
    if amount > pool_rec.total_staked {
        return Err(StakingError::ArithmeticOverflow);
    }
    Ok(user_rec.reward)
}

/// Withdraws `amount` of principal at time `now`.
///
/// The caller has already performed the planned ledger calls — minting the
/// pending reward and transferring `amount` out of custody — and reports
/// their combined outcome in `ledger_ok`. Any failure leaves both records
/// unchanged.
pub fn unstake(
    user_rec: &mut UserRecord,
    pool_rec: &mut PoolRecord,
    now: u64,
    amount: u64,
    ledger_ok: bool,
) -> (r: Result<(), StakingError>)
    requires
        amount > 0,
    ensures
        match unstake_check(*old(user_rec), old(pool_rec).total_staked, now, amount) {
            Err(e) => r == Err::<(), StakingError>(e) && *final(user_rec) == *old(user_rec)
                && *final(pool_rec) == *old(pool_rec),
            Ok(_) => if ledger_ok {
                r == Ok::<(), StakingError>(()) && *final(user_rec) == unstaked_record(
                    *old(user_rec),
                    amount,
                ) && *final(pool_rec) == (PoolRecord {
                    total_staked: (old(pool_rec).total_staked - amount) as u64,
                    ..*old(pool_rec)
                })
            } else {
                r == Err::<(), StakingError>(StakingError::LedgerError) && *final(user_rec) == *old(
                    user_rec,
                ) && *final(pool_rec) == *old(pool_rec)
            },
        },
{
    match unstake_plan(user_rec, pool_rec, now, amount) {
        Ok(_) => (),
        Err(e) => { return Err(e); },
    };
    if !ledger_ok {
        return Err(StakingError::LedgerError);
    }
    let new_amount: u64 = user_rec.amount - amount;
    user_rec.amount = new_amount;
    if new_amount == 0 {
        user_rec.deposit_time = 0;
        user_rec.lock_duration = 0;
    }
    user_rec.reward = 0;
    pool_rec.total_staked = pool_rec.total_staked - amount;
    Ok(())
}

/// Plans a reward claim: validates without mutating and returns the positive
/// reward the ledger must mint.
pub fn claim_plan(user_rec: &UserRecord, now: u64) -> (r: Result<u64, StakingError>)
    ensures
        r == claim_check(*user_rec, now),
{
    if !lock_is_expired(user_rec, now) {
        return Err(StakingError::LockNotExpired);
    }
    if user_rec.reward == 0 {
        return Err(StakingError::NoRewardAvailable);
    }
    Ok(user_rec.reward)
}

/// Settles the accrued reward at time `now`.
///
/// The caller has already performed the planned mint and reports its outcome
/// in `ledger_ok`. A second claim in succession finds the reward zeroed and
/// fails with `NoRewardAvailable`, so the reward is paid exactly once. Any
/// failure leaves the record unchanged.
pub fn claim_reward(user_rec: &mut UserRecord, now: u64, ledger_ok: bool) -> (r: Result<
    (),
    StakingError,
>)
    ensures
        match claim_check(*old(user_rec), now) {
            Err(e) => r == Err::<(), StakingError>(e) && *final(user_rec) == *old(user_rec),
            Ok(_) => if ledger_ok {
                r == Ok::<(), StakingError>(()) && *final(user_rec) == claimed_record(
                    *old(user_rec),
                )
            } else {
                r == Err::<(), StakingError>(StakingError::LedgerError) && *final(user_rec) == *old(
                    user_rec,
                )
            },
        },
{
    match claim_plan(user_rec, now) {
        Ok(_) => (),
        Err(e) => { return Err(e); },
    };
    if !ledger_ok {
        return Err(StakingError::LedgerError);
    }
    user_rec.reward = 0;
    Ok(())
}

/// Snapshot of a participant record; no mutation, no ledger calls.
pub fn get_userinfo(user_rec: &UserRecord) -> (r: UserRecord)
    ensures
        r == *user_rec,
{
    *user_rec
}

/// Snapshot of the staked total; no mutation, no ledger calls.
pub fn get_poolinfo(pool_rec: &PoolRecord) -> (r: u64)
    ensures
        r == pool_rec.total_staked,
{
    pool_rec.total_staked
}

} // verus!
