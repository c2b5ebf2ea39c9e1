//! The pool-wide view of the ledger: every participant record of one pool
//! beside its pool record, with the conservation invariant that the recorded
//! total equals the sum of all staked principal. Each operation looks the
//! participant up by identity, runs the single-record state machine, and
//! commits the result only on success, so the invariant holds in every
//! reachable state.

use vstd::prelude::*;

use crate::machine;
use crate::machine::{
    claim_check, claimed_record, stake_check, staked_record, unstake_check, unstaked_record,
};
use crate::records::{AccountId, PoolRecord, StakingError, UserRecord, zeroed_record};

verus! {

/// One participant's entry in the pool: their identity and their record.
#[derive(Clone, Copy, PartialEq, Eq, Structural, Debug)]
pub struct UserEntry {
    pub id: AccountId,
    pub record: UserRecord,
}

/// The staked principal summed over all entries.
pub open spec fn sum_staked(users: Seq<UserEntry>) -> int
    decreases users.len(),
{
    if users.len() == 0 {
        0
    } else {
        sum_staked(users.drop_last()) + users.last().record.amount
    }
}

/// No identity owns two entries.
pub open spec fn distinct_ids(users: Seq<UserEntry>) -> bool {
    forall|i: int, j: int|
        0 <= i < j < users.len() ==> (#[trigger] users[i]).id != (#[trigger] users[j]).id
}

/// Some entry belongs to `id`.
pub open spec fn has_user(users: Seq<UserEntry>, id: AccountId) -> bool {
    exists|i: int| 0 <= i < users.len() && (#[trigger] users[i]).id == id
}

/// The index of `id`'s entry; meaningful when `has_user` holds and the
/// identities are distinct.
pub open spec fn user_index(users: Seq<UserEntry>, id: AccountId) -> int {
    choose|i: int| 0 <= i < users.len() && (#[trigger] users[i]).id == id
}

/// The record `id` owns; a participant who never staked owns the zeroed one.
pub open spec fn record_of(users: Seq<UserEntry>, id: AccountId) -> UserRecord {
    if has_user(users, id) {
        users[user_index(users, id)].record
    } else {
        UserRecord::zeroed()
    }
}

/// With distinct identities, any index holding `id` is the looked-up one.
pub proof fn lemma_user_index(users: Seq<UserEntry>, id: AccountId, i: int)
    requires
        distinct_ids(users),
        0 <= i < users.len(),
        users[i].id == id,
    ensures
        has_user(users, id),
        user_index(users, id) == i,
        record_of(users, id) == users[i].record,
{
    assert(has_user(users, id));
    let j = user_index(users, id);
    if i != j {
        assert(users[i].id != users[j].id);
    }
}

/// Replacing one entry moves the sum by the difference of the two amounts.
pub proof fn lemma_sum_update(users: Seq<UserEntry>, i: int, e: UserEntry)
    requires
        0 <= i < users.len(),
    ensures
        sum_staked(users.update(i, e)) == sum_staked(users) - users[i].record.amount
            + e.record.amount,
    decreases users.len(),
{
    let upd = users.update(i, e);
    if i == users.len() - 1 {
        assert(upd.drop_last() =~= users.drop_last());
    } else {
        lemma_sum_update(users.drop_last(), i, e);
        assert(upd.drop_last() =~= users.drop_last().update(i, e));
        assert(upd.last() == users.last());
    }
}

/// Appending an entry adds its amount to the sum.
pub proof fn lemma_sum_push(users: Seq<UserEntry>, e: UserEntry)
    ensures
        sum_staked(users.push(e)) == sum_staked(users) + e.record.amount,
{
    assert(users.push(e).drop_last() =~= users);
    assert(users.push(e).last() == e);
}

/// The sum is nonnegative and bounds every single entry's amount.
pub proof fn lemma_sum_bounds(users: Seq<UserEntry>)
    ensures
        sum_staked(users) >= 0,
        forall|i: int| 0 <= i < users.len() ==> (#[trigger] users[i]).record.amount <= sum_staked(
            users,
        ),
    decreases users.len(),
{
    if users.len() > 0 {
        lemma_sum_bounds(users.drop_last());
        assert forall|i: int| 0 <= i < users.len() implies (#[trigger] users[i]).record.amount
            <= sum_staked(users) by {
            if i < users.len() - 1 {
                assert(users.drop_last()[i] == users[i]);
            }
        }
    }
}

/// All entries of one pool after a successful `stake` by `id`: their entry is
/// re-accrued in place, or appended on a first stake.
pub open spec fn users_after_stake(
    users: Seq<UserEntry>,
    id: AccountId,
    now: u64,
    amount: u64,
    lock_duration: u64,
) -> Seq<UserEntry> {
    let new_rec = staked_record(record_of(users, id), now, amount, lock_duration);
    if has_user(users, id) {
        users.update(user_index(users, id), UserEntry { id, record: new_rec })
    } else {
        users.push(UserEntry { id, record: new_rec })
    }
}

/// All entries after a successful `unstake` by `id`.
pub open spec fn users_after_unstake(users: Seq<UserEntry>, id: AccountId, amount: u64) -> Seq<
    UserEntry,
> {
    if has_user(users, id) {
        users.update(
            user_index(users, id),
            UserEntry { id, record: unstaked_record(record_of(users, id), amount) },
        )
    } else {
        users
    }
}

/// All entries after a successful `claim_reward` by `id`.
pub open spec fn users_after_claim(users: Seq<UserEntry>, id: AccountId) -> Seq<UserEntry> {
    if has_user(users, id) {
        users.update(
            user_index(users, id),
            UserEntry { id, record: claimed_record(record_of(users, id)) },
        )
    } else {
        users
    }
}

/// One pool and all of its participants.
pub struct StakingPool {
    pub pool: PoolRecord,
    pub users: Vec<UserEntry>,
}

impl StakingPool {
    /// Well-formedness, which every operation preserves: identities are
    /// distinct, and the recorded total is exactly the staked principal
    /// summed over all participants.
    pub open spec fn wf(self) -> bool {
        &&& distinct_ids(self.users@)
        &&& self.pool.total_staked == sum_staked(self.users@)
    }

    /// Creates the pool for an (admin, token) pair with no participants and
    /// nothing staked.
    pub fn initialize(admin: AccountId, token: AccountId) -> (pool: StakingPool)
        ensures
            pool.wf(),
            pool.pool == (PoolRecord { admin, token, total_staked: 0 }),
            pool.users@.len() == 0,
    {
        StakingPool { pool: machine::initialize(admin, token), users: Vec::new() }
    }

    /// Finds the entry owned by `id`.
    fn find_user(&self, id: AccountId) -> (r: Option<usize>)
        ensures
            match r {
                Some(i) => i < self.users@.len() && self.users@[i as int].id == id,
                None => !has_user(self.users@, id),
            },
    {
        let mut i: usize = 0;
        while i < self.users.len()
            invariant
                i <= self.users@.len(),
                forall|j: int| 0 <= j < i ==> (#[trigger] self.users@[j]).id != id,
            decreases self.users@.len() - i,
        {
            if self.users[i].id == id {
                return Some(i);
            }
            i = i + 1;
        }
        None
    }

    /// Stakes `amount` for `lock_duration` units at time `now` on behalf of
    /// `user`; `ledger_ok` reports the outcome of the planned ledger calls,
    /// exactly as in [`machine::stake`]. Validation is decided by
    /// [`stake_check`] on the record `user` owns; any failure leaves the pool
    /// untouched.
    pub fn stake(
        &mut self,
        user: AccountId,
        now: u64,
        amount: u64,
        lock_duration: u64,
        ledger_ok: bool,
    ) -> (r: Result<(), StakingError>)
        requires
            old(self).wf(),
            amount > 0,
        ensures
            final(self).wf(),
            final(self).pool.admin == old(self).pool.admin,
            final(self).pool.token == old(self).pool.token,
            match stake_check(
                record_of(old(self).users@, user),
                old(self).pool.total_staked,
                now,
                amount,
                lock_duration,
            ) {
                Err(e) => r == Err::<(), StakingError>(e) && *final(self) == *old(self),
                Ok(_) => if ledger_ok {
                    r == Ok::<(), StakingError>(()) && final(self).users@ == users_after_stake(
                        old(self).users@,
                        user,
                        now,
                        amount,
                        lock_duration,
                    ) && final(self).pool.total_staked == old(self).pool.total_staked + amount
                } else {
                    r == Err::<(), StakingError>(StakingError::LedgerError) && *final(self)
                        == *old(self)
                },
            },
    {
        let ghost old_users = self.users@;
        let opt_i = self.find_user(user);
        let mut u: UserRecord = match opt_i {
            Some(i) => self.users[i].record,
            None => zeroed_record(),
        };
        proof {
            match opt_i {
                Some(i) => lemma_user_index(old_users, user, i as int),
                None => (),
            }
            assert(record_of(old_users, user) == u);
        }
        let r = machine::stake(&mut u, &mut self.pool, now, amount, lock_duration, ledger_ok);
        match r {
            Ok(_) => {
                match opt_i {
                    Some(i) => {
                        proof {
                            lemma_sum_update(
                                old_users,
                                i as int,
                                UserEntry { id: user, record: u },
                            );
                        }
                        self.users[i] = UserEntry { id: user, record: u };
                    },
                    None => {
                        proof {
                            lemma_sum_push(old_users, UserEntry { id: user, record: u });
                        }
                        self.users.push(UserEntry { id: user, record: u });
                        assert(distinct_ids(self.users@));
                    },
                }
                Ok(())
            },
            Err(e) => Err(e),
        }
    }

    /// Withdraws `amount` of principal at time `now` on behalf of `user`;
    /// `ledger_ok` as in [`machine::unstake`]. Validation is decided by
    /// [`unstake_check`]; any failure leaves the pool untouched.
    pub fn unstake(&mut self, user: AccountId, now: u64, amount: u64, ledger_ok: bool) -> (r:
        Result<(), StakingError>)
        requires
            old(self).wf(),
            amount > 0,
        ensures
            final(self).wf(),
            final(self).pool.admin == old(self).pool.admin,
            final(self).pool.token == old(self).pool.token,
            match unstake_check(
                record_of(old(self).users@, user),
                old(self).pool.total_staked,
                now,
                amount,
            ) {
                Err(e) => r == Err::<(), StakingError>(e) && *final(self) == *old(self),
                Ok(_) => if ledger_ok {
                    r == Ok::<(), StakingError>(()) && final(self).users@ == users_after_unstake(
                        old(self).users@,
                        user,
                        amount,
                    ) && final(self).pool.total_staked == old(self).pool.total_staked - amount
                } else {
                    r == Err::<(), StakingError>(StakingError::LedgerError) && *final(self)
                        == *old(self)
                },
            },
    {
        let ghost old_users = self.users@;
        let opt_i = self.find_user(user);
        let mut u: UserRecord = match opt_i {
            Some(i) => self.users[i].record,
            None => zeroed_record(),
        };
        proof {
            match opt_i {
                Some(i) => lemma_user_index(old_users, user, i as int),
                None => (),
            }
            assert(record_of(old_users, user) == u);
        }
        let r = machine::unstake(&mut u, &mut self.pool, now, amount, ledger_ok);
        match r {
            Ok(_) => {
                match opt_i {
                    Some(i) => {
                        proof {
                            lemma_sum_update(
                                old_users,
                                i as int,
                                UserEntry { id: user, record: u },
                            );
                        }
                        self.users[i] = UserEntry { id: user, record: u };
                    },
                    None => {
                        // An unstake can only succeed against an existing
                        // entry: the withdrawn amount is positive and bounded
                        // by the recorded principal.
                        proof {
                            assert(false);
                        }
                    },
                }
                Ok(())
            },
            Err(e) => Err(e),
        }
    }

    /// Settles `user`'s accrued reward at time `now`; `ledger_ok` as in
    /// [`machine::claim_reward`]. Validation is decided by [`claim_check`];
    /// any failure leaves the pool untouched, and a repeated claim fails with
    /// `NoRewardAvailable`.
    pub fn claim_reward(&mut self, user: AccountId, now: u64, ledger_ok: bool) -> (r: Result<
        (),
        StakingError,
    >)
        requires
            old(self).wf(),
        ensures
            final(self).wf(),
            final(self).pool == old(self).pool,
            match claim_check(record_of(old(self).users@, user), now) {
                Err(e) => r == Err::<(), StakingError>(e) && *final(self) == *old(self),
                Ok(_) => if ledger_ok {
                    r == Ok::<(), StakingError>(()) && final(self).users@ == users_after_claim(
                        old(self).users@,
                        user,
                    )
                } else {
                    r == Err::<(), StakingError>(StakingError::LedgerError) && *final(self)
                        == *old(self)
                },
            },
    {
        let ghost old_users = self.users@;
        let opt_i = self.find_user(user);
        let mut u: UserRecord = match opt_i {
            Some(i) => self.users[i].record,
            None => zeroed_record(),
        };
        proof {
            match opt_i {
                Some(i) => lemma_user_index(old_users, user, i as int),
                None => (),
            }
            assert(record_of(old_users, user) == u);
        }
        let r = machine::claim_reward(&mut u, now, ledger_ok);
        match r {
            Ok(_) => {
                match opt_i {
                    Some(i) => {
                        proof {
                            lemma_sum_update(
                                old_users,
                                i as int,
                                UserEntry { id: user, record: u },
                            );
                        }
                        self.users[i] = UserEntry { id: user, record: u };
                    },
                    None => {
                        // A claim can only succeed against an existing entry:
                        // the zeroed record has no reward.
                        proof {
                            assert(false);
                        }
                    },
                }
                Ok(())
            },
            Err(e) => Err(e),
        }
    }

    /// Snapshot of the record `user` owns, or `None` for an identity that
    /// never staked. No mutation, no ledger calls.
    pub fn get_userinfo(&self, user: AccountId) -> (r: Option<UserRecord>)
        requires
            self.wf(),
        ensures
            match r {
                Some(rec) => has_user(self.users@, user) && rec == record_of(self.users@, user),
                None => !has_user(self.users@, user),
            },
    {
        match self.find_user(user) {
            Some(i) => {
                proof {
                    lemma_user_index(self.users@, user, i as int);
                }
                Some(self.users[i].record)
            },
            None => None,
        }
    }

    /// Snapshot of the staked total. No mutation, no ledger calls.
    pub fn get_poolinfo(&self) -> (r: u64)
        ensures
            r == self.pool.total_staked,
    {
        self.pool.total_staked
    }
}

} // verus!
