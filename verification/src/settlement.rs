//! What a deposit, a withdrawal, a top-up and a projection do to the pool and
//! to one account.
//!
//! Each operation first advances the pool to the current height, so that the
//! account is settled against an accumulator that is up to date. The
//! functions here take and return plain records; which account a record
//! belongs to, and who may ask, is decided elsewhere.

use crate::accrual::{
    advance, advance_feasible, advanced, checked_entitlement, entitlement, ledger_units,
    lemma_advanced_monotone, lemma_entitlement_bound, lemma_entitlement_monotone, owed,
    raw_amount, settled, to_ledger_units, to_raw_amount,
};
use crate::error::ContractError;
use crate::state::{RewardPool, UserInfo};
use vstd::arithmetic::mul::lemma_mul_inequality;
use vstd::prelude::*;

verus! {

/// The outcome of settling one account.
#[derive(Debug, Clone, Copy, PartialEq, Eq, Structural)]
pub struct Settlement {
    /// The pool after the operation.
    pub pool: RewardPool,
    /// The account after the operation.
    pub user: UserInfo,
    /// Reward units to pay to the account.
    pub reward: u128,
    /// Raw amount of the locked token to hand back to the account.
    pub released: u128,
}

/// The reward that a deposit pays out: what the account is owed, if it had
/// anything locked.
pub open spec fn lock_reward(user: UserInfo, acc: u128) -> int {
    if user.locked > 0 {
        owed(user, acc)
    } else {
        0
    }
}

/// A deposit of `amount` can be computed in 128 bits.
pub open spec fn lock_feasible(
    pool: RewardPool,
    user: UserInfo,
    deadline: u64,
    height: u64,
    amount: u128,
) -> bool {
    let p = advanced(pool, deadline, height);
    let units = ledger_units(amount);
    &&& advance_feasible(pool, deadline, height)
    &&& user.locked * p.acc_reward_per_share <= u128::MAX
    &&& lock_reward(user, p.acc_reward_per_share) >= 0
    &&& user.locked + units <= u128::MAX
    &&& (user.locked + units) * p.acc_reward_per_share <= u128::MAX
    &&& p.inc_token_supply + units <= u128::MAX
}

/// The outcome of a deposit of `amount`.
pub open spec fn lock_settlement(
    pool: RewardPool,
    user: UserInfo,
    deadline: u64,
    height: u64,
    amount: u128,
) -> Settlement {
    let p = advanced(pool, deadline, height);
    let units = ledger_units(amount);
    let locked = (user.locked + units) as u128;
    Settlement {
        pool: RewardPool { inc_token_supply: (p.inc_token_supply + units) as u128, ..p },
        user: UserInfo { locked, debt: entitlement(locked, p.acc_reward_per_share) as u128 },
        reward: lock_reward(user, p.acc_reward_per_share) as u128,
        released: 0,
    }
}

/// Ledger units that a withdrawal asks for: the scaled amount, or all that is
/// locked where no amount is given.
pub open spec fn redeem_units(user: UserInfo, amount: Option<u128>) -> u128 {
    match amount {
        Some(a) => ledger_units(a),
        None => user.locked,
    }
}

/// A withdrawal of `units` can be computed in 128 bits.
pub open spec fn redeem_feasible(
    pool: RewardPool,
    user: UserInfo,
    deadline: u64,
    height: u64,
    units: u128,
) -> bool {
    let p = advanced(pool, deadline, height);
    &&& advance_feasible(pool, deadline, height)
    &&& user.locked * p.acc_reward_per_share <= u128::MAX
    &&& settled(user, p.acc_reward_per_share)
    &&& units <= p.inc_token_supply
    &&& raw_amount(units) <= u128::MAX
}

/// The outcome of a withdrawal of `units`, which the account has.
pub open spec fn redeem_settlement(
    pool: RewardPool,
    user: UserInfo,
    deadline: u64,
    height: u64,
    units: u128,
) -> Settlement {
    let p = advanced(pool, deadline, height);
    let locked = (user.locked - units) as u128;
    Settlement {
        pool: RewardPool { inc_token_supply: (p.inc_token_supply - units) as u128, ..p },
        user: UserInfo { locked, debt: entitlement(locked, p.acc_reward_per_share) as u128 },
        reward: owed(user, p.acc_reward_per_share) as u128,
        released: raw_amount(units) as u128,
    }
}

/// An emergency withdrawal can be carried out: what is handed back fits in
/// 128 bits, and the supply holds what the account has locked.
pub open spec fn emergency_feasible(pool: RewardPool, user: UserInfo) -> bool {
    &&& raw_amount(user.locked) <= u128::MAX
    &&& user.locked <= pool.inc_token_supply
}

/// The outcome of an emergency withdrawal: the account's position is
/// emptied and all it had locked leaves the supply. The pool is not
/// advanced and no reward is paid.
pub open spec fn emergency_settlement(pool: RewardPool, user: UserInfo) -> Settlement {
    Settlement {
        pool: RewardPool {
            inc_token_supply: (pool.inc_token_supply - user.locked) as u128,
            ..pool
        },
        user: UserInfo::empty(),
        reward: 0,
        released: raw_amount(user.locked) as u128,
    }
}

/// A top-up of `amount` can be computed in 128 bits.
pub open spec fn top_up_feasible(pool: RewardPool, deadline: u64, height: u64, amount: u128) -> bool {
    &&& advance_feasible(pool, deadline, height)
    &&& advanced(pool, deadline, height).pending_rewards + amount <= u128::MAX
}

/// The pool after a top-up of `amount`: the new rewards join what is pending
/// once the pool has been advanced, so that they vest over the time to come.
pub open spec fn topped_up(pool: RewardPool, deadline: u64, height: u64, amount: u128) -> RewardPool {
    let p = advanced(pool, deadline, height);
    RewardPool { pending_rewards: (p.pending_rewards + amount) as u128, ..p }
}

/// The height up to which a projection vests: `height`, but not past the deadline.
pub open spec fn projection_height(deadline: u64, height: u64) -> u64 {
    if height < deadline {
        height
    } else {
        deadline
    }
}

/// A projection to `height` can be computed in 128 bits.
pub open spec fn projection_feasible(
    pool: RewardPool,
    user: UserInfo,
    deadline: u64,
    height: u64,
) -> bool {
    let reached = projection_height(deadline, height);
    let p = advanced(pool, deadline, reached);
    &&& advance_feasible(pool, deadline, reached)
    &&& user.locked * p.acc_reward_per_share <= u128::MAX
    &&& settled(user, p.acc_reward_per_share)
}

/// What the account would be owed if the pool were advanced to `height`, or to
/// the deadline where `height` lies past it.
pub open spec fn projected_rewards(pool: RewardPool, user: UserInfo, deadline: u64, height: u64) -> int {
    owed(user, advanced(pool, deadline, projection_height(deadline, height)).acc_reward_per_share)
}

/// A deposit raises what the account has locked and the supply by the same
/// amount, leaves the account settled and does not lower the accumulator.
pub proof fn lemma_lock_settlement(
    pool: RewardPool,
    user: UserInfo,
    deadline: u64,
    height: u64,
    amount: u128,
)
    requires
        lock_feasible(pool, user, deadline, height, amount),
    ensures
        ({
            let s = lock_settlement(pool, user, deadline, height, amount);
            &&& s.pool.acc_reward_per_share >= pool.acc_reward_per_share
            &&& settled(s.user, s.pool.acc_reward_per_share)
            &&& s.user.locked == user.locked + ledger_units(amount)
            &&& s.pool.inc_token_supply == pool.inc_token_supply + ledger_units(amount)
            &&& s.user.debt == entitlement(s.user.locked, s.pool.acc_reward_per_share)
            &&& s.reward == lock_reward(user, s.pool.acc_reward_per_share)
        }),
{
    lemma_advanced_monotone(pool, deadline, height);
    let p = advanced(pool, deadline, height);
    let locked = (user.locked + ledger_units(amount)) as u128;
    lemma_entitlement_monotone(locked, 0, p.acc_reward_per_share);
    lemma_entitlement_monotone(user.locked, 0, p.acc_reward_per_share);
    lemma_entitlement_bound(locked, p.acc_reward_per_share);
    lemma_entitlement_bound(user.locked, p.acc_reward_per_share);
}

/// A withdrawal lowers what the account has locked and the supply by the same
/// amount, leaves the account settled and does not lower the accumulator.
pub proof fn lemma_redeem_settlement(
    pool: RewardPool,
    user: UserInfo,
    deadline: u64,
    height: u64,
    units: u128,
)
    requires
        units <= user.locked,
        redeem_feasible(pool, user, deadline, height, units),
    ensures
        ({
            let s = redeem_settlement(pool, user, deadline, height, units);
            &&& s.pool.acc_reward_per_share >= pool.acc_reward_per_share
            &&& settled(s.user, s.pool.acc_reward_per_share)
            &&& s.user.locked == user.locked - units
            &&& s.pool.inc_token_supply == pool.inc_token_supply - units
            &&& s.user.debt == entitlement(s.user.locked, s.pool.acc_reward_per_share)
            &&& s.reward == owed(user, s.pool.acc_reward_per_share)
            &&& s.released == raw_amount(units)
        }),
{
    lemma_advanced_monotone(pool, deadline, height);
    let p = advanced(pool, deadline, height);
    let locked = (user.locked - units) as u128;
    lemma_mul_inequality(locked as int, user.locked as int, p.acc_reward_per_share as int);
    lemma_entitlement_monotone(locked, 0, p.acc_reward_per_share);
    lemma_entitlement_bound(locked, p.acc_reward_per_share);
    lemma_entitlement_bound(user.locked, p.acc_reward_per_share);
}

/// Settles an account and adds the deposit `amount`, a raw amount of the
/// locked token, to its position.
pub fn plan_lock(pool: RewardPool, user: UserInfo, deadline: u64, height: u64, amount: u128) -> (r:
    Result<Settlement, ContractError>)
    ensures
        lock_feasible(pool, user, deadline, height, amount) ==> r == Ok::<
            Settlement,
            ContractError,
        >(lock_settlement(pool, user, deadline, height, amount)),
        !lock_feasible(pool, user, deadline, height, amount) ==> r == Err::<
            Settlement,
            ContractError,
        >(ContractError::Arithmetic),
{
    let units: u128 = to_ledger_units(amount);
    let p = match advance(pool, deadline, height) {
        Ok(p) => p,
        Err(e) => {
            return Err(e);
        },
    };
    let mut reward: u128 = 0;
    if user.locked > 0 {
        let earned: u128 = match checked_entitlement(user.locked, p.acc_reward_per_share) {
            Some(v) => v,
            None => {
                return Err(ContractError::Arithmetic);
            },
        };
        if earned < user.debt {
            return Err(ContractError::Arithmetic);
        }
        reward = earned - user.debt;
    }
    let locked: u128 = match user.locked.checked_add(units) {
        Some(v) => v,
        None => {
            return Err(ContractError::Arithmetic);
        },
    };
    let debt: u128 = match checked_entitlement(locked, p.acc_reward_per_share) {
        Some(v) => v,
        None => {
            return Err(ContractError::Arithmetic);
        },
    };
    let supply: u128 = match p.inc_token_supply.checked_add(units) {
        Some(v) => v,
        None => {
            return Err(ContractError::Arithmetic);
        },
    };
    proof {
        lemma_mul_inequality(
            user.locked as int,
            locked as int,
            p.acc_reward_per_share as int,
        );
    }
    Ok(
        Settlement {
            pool: RewardPool {
                pending_rewards: p.pending_rewards,
                inc_token_supply: supply,
                last_reward_block: p.last_reward_block,
                acc_reward_per_share: p.acc_reward_per_share,
            },
            user: UserInfo { locked, debt },
            reward,
            released: 0,
        },
    )
}

/// Settles an account and takes `amount`, a raw amount of the locked token,
/// out of its position; without an amount, all of it.
pub fn plan_redeem(
    pool: RewardPool,
    user: UserInfo,
    deadline: u64,
    height: u64,
    amount: Option<u128>,
) -> (r: Result<Settlement, ContractError>)
    ensures
        redeem_units(user, amount) > user.locked ==> r == Err::<Settlement, ContractError>(
            ContractError::InsufficientFunds {
                balance: user.locked,
                required: redeem_units(user, amount),
            },
        ),
        redeem_units(user, amount) <= user.locked && !redeem_feasible(
            pool,
            user,
            deadline,
            height,
            redeem_units(user, amount),
        ) ==> r == Err::<Settlement, ContractError>(ContractError::Arithmetic),
        redeem_units(user, amount) <= user.locked && redeem_feasible(
            pool,
            user,
            deadline,
            height,
            redeem_units(user, amount),
        ) ==> r == Ok::<Settlement, ContractError>(
            redeem_settlement(pool, user, deadline, height, redeem_units(user, amount)),
        ),
{
    let units: u128 = match amount {
        Some(a) => to_ledger_units(a),
        None => user.locked,
    };
    if units > user.locked {
        return Err(ContractError::InsufficientFunds { balance: user.locked, required: units });
    }
    let p = match advance(pool, deadline, height) {
        Ok(p) => p,
        Err(e) => {
            return Err(e);
        },
    };
    let earned: u128 = match checked_entitlement(user.locked, p.acc_reward_per_share) {
        Some(v) => v,
        None => {
            return Err(ContractError::Arithmetic);
        },
    };
    if earned < user.debt {
        return Err(ContractError::Arithmetic);
    }
    if units > p.inc_token_supply {
        return Err(ContractError::Arithmetic);
    }
    let released: u128 = match to_raw_amount(units) {
        Some(v) => v,
        None => {
            return Err(ContractError::Arithmetic);
        },
    };
    let locked: u128 = user.locked - units;
    proof {
        lemma_mul_inequality(
            locked as int,
            user.locked as int,
            p.acc_reward_per_share as int,
        );
    }
    let debt: u128 = match checked_entitlement(locked, p.acc_reward_per_share) {
        Some(v) => v,
        None => {
            return Err(ContractError::Arithmetic);
        },
    };
    Ok(
        Settlement {
            pool: RewardPool {
                pending_rewards: p.pending_rewards,
                inc_token_supply: p.inc_token_supply - units,
                last_reward_block: p.last_reward_block,
                acc_reward_per_share: p.acc_reward_per_share,
            },
            user: UserInfo { locked, debt },
            reward: earned - user.debt,
            released,
        },
    )
}

/// Empties an account's position without settling it: all that is locked is
/// handed back and leaves the supply, and whatever reward was owed is forfeited.
pub fn plan_emergency(pool: RewardPool, user: UserInfo) -> (r: Result<Settlement, ContractError>)
    ensures
        emergency_feasible(pool, user) ==> r == Ok::<Settlement, ContractError>(
            emergency_settlement(pool, user),
        ),
        !emergency_feasible(pool, user) ==> r == Err::<Settlement, ContractError>(
            ContractError::Arithmetic,
        ),
{
    let released: u128 = match to_raw_amount(user.locked) {
        Some(v) => v,
        None => {
            return Err(ContractError::Arithmetic);
        },
    };
    if user.locked > pool.inc_token_supply {
        return Err(ContractError::Arithmetic);
    }
    Ok(
        Settlement {
            pool: RewardPool {
                pending_rewards: pool.pending_rewards,
                inc_token_supply: pool.inc_token_supply - user.locked,
                last_reward_block: pool.last_reward_block,
                acc_reward_per_share: pool.acc_reward_per_share,
            },
            user: UserInfo::empty(),
            reward: 0,
            released,
        },
    )
}

/// Advances the pool and adds `amount` reward units to what is pending.
pub fn plan_top_up(pool: RewardPool, deadline: u64, height: u64, amount: u128) -> (r: Result<
    RewardPool,
    ContractError,
>)
    ensures
        top_up_feasible(pool, deadline, height, amount) ==> r == Ok::<RewardPool, ContractError>(
            topped_up(pool, deadline, height, amount),
        ),
        !top_up_feasible(pool, deadline, height, amount) ==> r == Err::<RewardPool, ContractError>(
            ContractError::Arithmetic,
        ),
{
    let p = match advance(pool, deadline, height) {
        Ok(p) => p,
        Err(e) => {
            return Err(e);
        },
    };
    match p.pending_rewards.checked_add(amount) {
        Some(pending) => Ok(
            RewardPool {
                pending_rewards: pending,
                inc_token_supply: p.inc_token_supply,
                last_reward_block: p.last_reward_block,
                acc_reward_per_share: p.acc_reward_per_share,
            },
        ),
        None => Err(ContractError::Arithmetic),
    }
}

/// What an account would be owed at `height`, without changing anything.
pub fn project_rewards(pool: RewardPool, user: UserInfo, deadline: u64, height: u64) -> (r: Result<
    u128,
    ContractError,
>)
    ensures
        projection_feasible(pool, user, deadline, height) ==> r == Ok::<u128, ContractError>(
            projected_rewards(pool, user, deadline, height) as u128,
        ),
        !projection_feasible(pool, user, deadline, height) ==> r == Err::<u128, ContractError>(
            ContractError::Arithmetic,
        ),
        r matches Ok(v) ==> v == projected_rewards(pool, user, deadline, height),
{
    let reached: u64 = if height < deadline {
        height
    } else {
        deadline
    };
    let p = match advance(pool, deadline, reached) {
        Ok(p) => p,
        Err(e) => {
            return Err(e);
        },
    };
    let earned: u128 = match checked_entitlement(user.locked, p.acc_reward_per_share) {
        Some(v) => v,
        None => {
            return Err(ContractError::Arithmetic);
        },
    };
    if earned < user.debt {
        return Err(ContractError::Arithmetic);
    }
    Ok(earned - user.debt)
}

} // verus!
