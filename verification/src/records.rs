//! The persisted record types of the staking ledger and the spec-level
//! notions that every operation's contract is stated over: the zeroed
//! (inactive) user record, lock expiry, and the linear reward formula.

use vstd::prelude::*;

verus! {

/// A 32-byte identity on the hosting ledger (an admin, a participant or a
/// token type), held as four 64-bit words.
#[derive(Clone, Copy, PartialEq, Eq, Structural, Debug)]
pub struct AccountId {
    pub w0: u64,
    pub w1: u64,
    pub w2: u64,
    pub w3: u64,
}

/// Per-participant bookkeeping: staked principal, the timestamp of the last
/// deposit, the chosen lock length, and the accrued but unpaid reward.
#[derive(Clone, Copy, PartialEq, Eq, Structural, Debug)]
pub struct UserRecord {
    pub amount: u64,
    pub deposit_time: u64,
    pub lock_duration: u64,
    pub reward: u64,
}

/// Pool-wide bookkeeping: the admin authorized to mint rewards, the staked
/// token type, and the sum of all currently staked principal.
#[derive(Clone, Copy, PartialEq, Eq, Structural, Debug)]
pub struct PoolRecord {
    pub admin: AccountId,
    pub token: AccountId,
    pub total_staked: u64,
}

/// Every way an operation can be refused. All are recoverable and reported to
/// the caller; no operation commits a partial record mutation.
#[derive(Clone, Copy, PartialEq, Eq, Structural, Debug)]
pub enum StakingError {
    /// A principal- or reward-changing operation was attempted before
    /// `now - deposit_time >= lock_duration`.
    LockNotExpired,
    /// An unstake amount exceeds the recorded principal.
    InsufficientStake,
    /// A claim was attempted with zero accrued reward.
    NoRewardAvailable,
    /// An addition or the reward computation would overflow 64 bits.
    ArithmeticOverflow,
    /// The external mint or transfer capability failed; records are untouched.
    LedgerError,
}

impl UserRecord {
    /// The inactive record: no principal, no lock, no pending reward.
    pub open spec fn zeroed() -> UserRecord {
        UserRecord { amount: 0, deposit_time: 0, lock_duration: 0, reward: 0 }
    }

    /// The lock is expired exactly when `now - deposit_time >= lock_duration`,
    /// stated without subtraction so that it is meaningful for every record.
    pub open spec fn lock_expired(self, now: u64) -> bool {
        now >= self.deposit_time + self.lock_duration
    }
}

/// The reward owed for `amount` staked over `lock_duration` timestamp units:
/// linear in both, truncated toward zero.
pub open spec fn reward_formula(amount: u64, lock_duration: u64) -> int {
    (amount * lock_duration) / 10
}

/// Builds the inactive record.
pub fn zeroed_record() -> (r: UserRecord)
    ensures
        r == UserRecord::zeroed(),
{
    UserRecord { amount: 0, deposit_time: 0, lock_duration: 0, reward: 0 }
}

/// Decides lock expiry; the 128-bit sum cannot overflow.
pub fn lock_is_expired(user_rec: &UserRecord, now: u64) -> (r: bool)
    ensures
        r == user_rec.lock_expired(now),
{
    (now as u128) >= (user_rec.deposit_time as u128) + (user_rec.lock_duration as u128)
}

/// Computes the reward formula, reporting overflow of the 64-bit product
/// instead of wrapping.
pub fn checked_reward(amount: u64, lock_duration: u64) -> (r: Option<u64>)
    ensures
        r is Some <==> amount * lock_duration <= u64::MAX,
        r is Some ==> r->0 == reward_formula(amount, lock_duration),
{
    match amount.checked_mul(lock_duration) {
        Some(product) => Some(product / 10),
        None => None,
    }
}

} // verus!
