//! The contract's state as a mathematical value.
//!
//! The contracts of the handlers relate the value before a transaction to the
//! value after it. The ledger is a sequence of addresses and a sequence of
//! positions of the same length; the sum that the pool's supply is held
//! against runs over the positions.

use crate::accrual::{lemma_entitlement_monotone, settled};
use crate::error::ContractError;
use crate::state::{ConfigView, RewardPool, UserInfo};
use vstd::prelude::*;

verus! {

/// The sum of what the positions have locked.
pub open spec fn sum_locked(positions: Seq<UserInfo>) -> int
    decreases positions.len(),
{
    if positions.len() == 0 {
        0
    } else {
        sum_locked(positions.drop_last()) + positions.last().locked
    }
}

/// A new position adds what it has locked to the sum.
pub proof fn lemma_sum_push(positions: Seq<UserInfo>, user: UserInfo)
    ensures
        sum_locked(positions.push(user)) == sum_locked(positions) + user.locked,
{
    assert(positions.push(user).drop_last() =~= positions);
}

/// A changed position changes the sum by the difference.
pub proof fn lemma_sum_update(positions: Seq<UserInfo>, i: int, user: UserInfo)
    requires
        0 <= i < positions.len(),
    ensures
        sum_locked(positions.update(i, user)) == sum_locked(positions) - positions[i].locked
            + user.locked,
    decreases positions.len(),
{
    let updated = positions.update(i, user);
    if i == positions.len() - 1 {
        assert(updated.drop_last() =~= positions.drop_last());
    } else {
        assert(updated.drop_last() =~= positions.drop_last().update(i, user));
        lemma_sum_update(positions.drop_last(), i, user);
    }
}

/// No position has more locked than the sum of all.
pub proof fn lemma_sum_bounds(positions: Seq<UserInfo>, i: int)
    requires
        0 <= i < positions.len(),
    ensures
        0 <= positions[i].locked <= sum_locked(positions),
    decreases positions.len(),
{
    lemma_sum_nonnegative(positions.drop_last());
    if i < positions.len() - 1 {
        lemma_sum_bounds(positions.drop_last(), i);
    }
}

/// The sum is never negative.
pub proof fn lemma_sum_nonnegative(positions: Seq<UserInfo>)
    ensures
        0 <= sum_locked(positions),
    decreases positions.len(),
{
    if positions.len() > 0 {
        lemma_sum_nonnegative(positions.drop_last());
    }
}

/// The state of the contract.
pub ghost struct StateView {
    pub config: ConfigView,
    pub pool: RewardPool,
    /// The accounts that have a position, in the order in which they first got one.
    pub accounts: Seq<Seq<char>>,
    /// The position of each account.
    pub positions: Seq<UserInfo>,
    /// The digest of each account's viewing key, for the accounts that set one.
    pub keys: Map<Seq<char>, Seq<u8>>,
}

impl StateView {
    /// Where `account` sits in the ledger, if it has a position.
    pub open spec fn slot(self, account: Seq<char>) -> int {
        choose|i: int| 0 <= i < self.accounts.len() && self.accounts[i] == account
    }

    /// The position of `account`; the empty position where it has none.
    pub open spec fn user(self, account: Seq<char>) -> UserInfo {
        if self.accounts.contains(account) {
            self.positions[self.slot(account)]
        } else {
            UserInfo::empty()
        }
    }

    /// The sum of what all accounts have locked.
    pub open spec fn total_locked(self) -> int {
        sum_locked(self.positions)
    }

    /// The stored digest of `account`'s viewing key, if it set one.
    pub open spec fn key_hash(self, account: Seq<char>) -> Option<Seq<u8>> {
        if self.keys.dom().contains(account) {
            Some(self.keys[account])
        } else {
            None
        }
    }

    /// The state with another configuration.
    pub open spec fn with_config(self, config: ConfigView) -> StateView {
        StateView { config, ..self }
    }

    /// The state with another pool.
    pub open spec fn with_pool(self, pool: RewardPool) -> StateView {
        StateView { pool, ..self }
    }

    /// The state with `user` as the position of `account`.
    pub open spec fn with_user(self, account: Seq<char>, user: UserInfo) -> StateView {
        if self.accounts.contains(account) {
            StateView { positions: self.positions.update(self.slot(account), user), ..self }
        } else {
            StateView {
                accounts: self.accounts.push(account),
                positions: self.positions.push(user),
                ..self
            }
        }
    }

    /// The state with `hash` as the digest of `account`'s viewing key.
    pub open spec fn with_key(self, account: Seq<char>, hash: Seq<u8>) -> StateView {
        StateView { keys: self.keys.insert(account, hash), ..self }
    }

    /// Every account has one position and occurs once.
    pub open spec fn ledger_wf(self) -> bool {
        &&& self.accounts.len() == self.positions.len()
        &&& self.accounts.no_duplicates()
    }

    /// No account was credited with more than it earned.
    pub open spec fn all_settled(self) -> bool {
        forall|i: int|
            0 <= i < self.positions.len() ==> settled(
                #[trigger] self.positions[i],
                self.pool.acc_reward_per_share,
            )
    }

    /// The books balance: the ledger is well formed, the pool's supply is the
    /// sum of what the accounts have locked, and every account is settled. A
    /// contract starts out so, and every transaction keeps it so.
    pub open spec fn sound(self) -> bool {
        &&& self.ledger_wf()
        &&& self.total_locked() == self.pool.inc_token_supply
        &&& self.all_settled()
    }

    /// The position that `user` names is the one at the account's slot.
    pub proof fn lemma_slot(self, account: Seq<char>, i: int)
        requires
            self.ledger_wf(),
            0 <= i < self.accounts.len(),
            self.accounts[i] == account,
        ensures
            self.accounts.contains(account),
            self.slot(account) == i,
            self.user(account) == self.positions[i],
    {
        let j = self.slot(account);
        assert(0 <= j < self.accounts.len() && self.accounts[j] == account);
    }

    /// After a position was stored, the account has it and all others have
    /// what they had.
    pub proof fn lemma_with_user(self, account: Seq<char>, user: UserInfo, other: Seq<char>)
        requires
            self.ledger_wf(),
        ensures
            self.with_user(account, user).ledger_wf(),
            self.with_user(account, user).user(other) == if other == account {
                user
            } else {
                self.user(other)
            },
            self.with_user(account, user).total_locked() == self.total_locked() - self.user(
                account,
            ).locked + user.locked,
    {
        let next = self.with_user(account, user);
        if self.accounts.contains(account) {
            let i = self.slot(account);
            self.lemma_slot(account, i);
            lemma_sum_update(self.positions, i, user);
            if other == account {
                next.lemma_slot(other, i);
            } else if self.accounts.contains(other) {
                let j = self.slot(other);
                self.lemma_slot(other, j);
                next.lemma_slot(other, j);
            }
        } else {
            let n = self.accounts.len() as int;
            lemma_sum_push(self.positions, user);
            assert(next.accounts.no_duplicates()) by {
                assert forall|i: int, j: int|
                    0 <= i < next.accounts.len() && 0 <= j < next.accounts.len() && i
                        != j implies next.accounts[i] != next.accounts[j] by {
                    if i < n {
                        assert(self.accounts[i] == next.accounts[i]);
                    }
                    if j < n {
                        assert(self.accounts[j] == next.accounts[j]);
                    }
                }
            }
            if other == account {
                next.lemma_slot(other, n);
            } else if self.accounts.contains(other) {
                let j = self.slot(other);
                self.lemma_slot(other, j);
                next.lemma_slot(other, j);
            } else if next.accounts.contains(other) {
                let j = next.slot(other);
                assert(0 <= j < next.accounts.len() && next.accounts[j] == other);
                assert(self.accounts[j] == other);
            }
        }
    }

    /// No account has more locked than all accounts together.
    pub proof fn lemma_user_bounds(self, account: Seq<char>)
        requires
            self.ledger_wf(),
        ensures
            0 <= self.user(account).locked <= self.total_locked(),
    {
        lemma_sum_nonnegative(self.positions);
        if self.accounts.contains(account) {
            let i = self.slot(account);
            self.lemma_slot(account, i);
            lemma_sum_bounds(self.positions, i);
        }
    }

    /// In a sound state every account is settled, whether it has a position or not.
    pub proof fn lemma_user_settled(self, account: Seq<char>)
        requires
            self.sound(),
        ensures
            settled(self.user(account), self.pool.acc_reward_per_share),
    {
        if self.accounts.contains(account) {
            let i = self.slot(account);
            self.lemma_slot(account, i);
        } else {
            lemma_entitlement_monotone(0, 0, self.pool.acc_reward_per_share);
        }
    }

    /// A pool whose accumulator did not fall and whose supply is what it was
    /// keeps the state sound.
    pub proof fn lemma_with_pool_sound(self, pool: RewardPool)
        requires
            self.sound(),
            self.pool.acc_reward_per_share <= pool.acc_reward_per_share,
            self.pool.inc_token_supply == pool.inc_token_supply,
        ensures
            self.with_pool(pool).sound(),
    {
        let next = self.with_pool(pool);
        assert forall|i: int| 0 <= i < next.positions.len() implies settled(
            #[trigger] next.positions[i],
            pool.acc_reward_per_share,
        ) by {
            assert(settled(self.positions[i], self.pool.acc_reward_per_share));
            lemma_entitlement_monotone(
                self.positions[i].locked,
                self.pool.acc_reward_per_share,
                pool.acc_reward_per_share,
            );
        }
    }

    /// A settlement keeps the state sound: the accumulator did not fall, the
    /// account is settled against it, and the supply changed by as much as
    /// the account's position did.
    pub proof fn lemma_settle_sound(self, account: Seq<char>, pool: RewardPool, user: UserInfo)
        requires
            self.sound(),
            self.pool.acc_reward_per_share <= pool.acc_reward_per_share,
            settled(user, pool.acc_reward_per_share),
            pool.inc_token_supply - self.pool.inc_token_supply == user.locked - self.user(
                account,
            ).locked,
        ensures
            self.with_pool(pool).with_user(account, user).sound(),
    {
        let mid = self.with_pool(pool);
        let next = mid.with_user(account, user);
        mid.lemma_with_user(account, user, account);
        assert forall|i: int| 0 <= i < next.positions.len() implies settled(
            #[trigger] next.positions[i],
            pool.acc_reward_per_share,
        ) by {
            let kept = if mid.accounts.contains(account) {
                let k = mid.slot(account);
                mid.lemma_slot(account, k);
                i != k
            } else {
                i < mid.positions.len()
            };
            if kept {
                assert(next.positions[i] == self.positions[i]);
                assert(settled(self.positions[i], self.pool.acc_reward_per_share));
                lemma_entitlement_monotone(
                    self.positions[i].locked,
                    self.pool.acc_reward_per_share,
                    pool.acc_reward_per_share,
                );
            }
        }
    }
}

} // verus!

verus! {

/// The state that a configuration, a pool and lists of stored records add up
/// to. Where an account occurs twice in a list, its later record stands.
pub open spec fn assembled(
    config: ConfigView,
    pool: RewardPool,
    accounts: Seq<(String, UserInfo)>,
    keys: Seq<(String, Vec<u8>)>,
) -> StateView
    decreases accounts.len() + keys.len(),
{
    if keys.len() > 0 {
        assembled(config, pool, accounts, keys.drop_last()).with_key(
            keys.last().0@,
            keys.last().1@,
        )
    } else if accounts.len() > 0 {
        assembled(config, pool, accounts.drop_last(), keys).with_user(
            accounts.last().0@,
            accounts.last().1,
        )
    } else {
        StateView { config, pool, accounts: Seq::empty(), positions: Seq::empty(), keys: Map::empty() }
    }
}

/// The transaction was refused with `error` and changed nothing.
pub open spec fn rejected<T>(
    pre: StateView,
    post: StateView,
    r: Result<T, ContractError>,
    error: ContractError,
) -> bool {
    post == pre && r == Err::<T, ContractError>(error)
}

} // verus!
