//! The vesting schedule and the reward-per-share arithmetic.
//!
//! Everything here is a function of plain numbers. The specifications are
//! written over mathematical integers; the executable functions compute the
//! same values in 128 bits and report `ContractError::Arithmetic` exactly when
//! an intermediate value does not fit.

use crate::constants::{INC_TOKEN_SCALE, REWARD_SCALE};
use crate::error::ContractError;
use crate::state::{RewardPool, UserInfo};
use vstd::arithmetic::div_mod::{lemma_div_by_multiple, lemma_div_is_ordered, lemma_div_pos_is_pos};
use vstd::arithmetic::mul::{lemma_mul_inequality, lemma_mul_is_commutative, lemma_mul_nonnegative};
use vstd::prelude::*;

verus! {

/// Ledger units that a raw amount of the locked token is worth.
pub open spec fn ledger_units(amount: u128) -> u128 {
    amount / INC_TOKEN_SCALE
}

/// The raw amount of the locked token that `units` ledger units stand for.
pub open spec fn raw_amount(units: u128) -> int {
    units * INC_TOKEN_SCALE
}

/// Reward earned by `locked` ledger units over the whole life of an
/// accumulator that stands at `acc`.
pub open spec fn entitlement(locked: u128, acc: u128) -> int {
    (locked * acc) / (REWARD_SCALE as int)
}

/// Reward that an account could claim now: its entitlement less what it was
/// already credited with.
pub open spec fn owed(user: UserInfo, acc: u128) -> int {
    entitlement(user.locked, acc) - user.debt
}

/// The account was never credited with more than it earned.
pub open spec fn settled(user: UserInfo, acc: u128) -> bool {
    user.debt <= entitlement(user.locked, acc)
}

/// Time has passed since the last checkpoint and the window had not closed by then.
pub open spec fn vesting_open(pool: RewardPool, deadline: u64, height: u64) -> bool {
    height > pool.last_reward_block && pool.last_reward_block <= deadline
}

/// An advance to `height` vests rewards: the window is open, somebody has
/// locked tokens and there is something left to vest.
pub open spec fn accrues(pool: RewardPool, deadline: u64, height: u64) -> bool {
    vesting_open(pool, deadline, height) && pool.inc_token_supply != 0 && pool.pending_rewards
        != 0
}

/// Width of the window that was left at the last checkpoint.
pub open spec fn blocks_to_go(pool: RewardPool, deadline: u64) -> int {
    deadline - pool.last_reward_block
}

/// Blocks of the window that an advance to `height` consumes.
pub open spec fn blocks_elapsed(pool: RewardPool, deadline: u64, height: u64) -> int {
    if height < deadline {
        height - pool.last_reward_block
    } else {
        deadline - pool.last_reward_block
    }
}

/// Reward units that vest on an advance to `height`: the share of the pending
/// rewards that the consumed part of the window is of the whole.
pub open spec fn vested(pool: RewardPool, deadline: u64, height: u64) -> int {
    (blocks_elapsed(pool, deadline, height) * pool.pending_rewards) / blocks_to_go(pool, deadline)
}

/// What an advance to `height` adds to the accumulator.
pub open spec fn share_gain(pool: RewardPool, deadline: u64, height: u64) -> int {
    (vested(pool, deadline, height) * REWARD_SCALE) / (pool.inc_token_supply as int)
}

/// An advance to `height` can be computed in 128 bits.
pub open spec fn advance_feasible(pool: RewardPool, deadline: u64, height: u64) -> bool {
    accrues(pool, deadline, height) ==> {
        &&& blocks_to_go(pool, deadline) > 0
        &&& blocks_elapsed(pool, deadline, height) * pool.pending_rewards <= u128::MAX
        &&& vested(pool, deadline, height) * REWARD_SCALE <= u128::MAX
        &&& pool.acc_reward_per_share + share_gain(pool, deadline, height) <= u128::MAX
    }
}

/// The pool after an advance to `height`.
pub open spec fn advanced(pool: RewardPool, deadline: u64, height: u64) -> RewardPool {
    if !vesting_open(pool, deadline, height) {
        pool
    } else if !accrues(pool, deadline, height) {
        RewardPool { last_reward_block: height, ..pool }
    } else {
        RewardPool {
            pending_rewards: (pool.pending_rewards - vested(pool, deadline, height)) as u128,
            inc_token_supply: pool.inc_token_supply,
            last_reward_block: height,
            acc_reward_per_share: (pool.acc_reward_per_share + share_gain(
                pool,
                deadline,
                height,
            )) as u128,
        }
    }
}

/// No more vests than is pending.
pub proof fn lemma_vested_bounds(pool: RewardPool, deadline: u64, height: u64)
    requires
        vesting_open(pool, deadline, height),
        blocks_to_go(pool, deadline) > 0,
    ensures
        0 <= vested(pool, deadline, height) <= pool.pending_rewards,
{
    let e = blocks_elapsed(pool, deadline, height);
    let g = blocks_to_go(pool, deadline);
    let p = pool.pending_rewards as int;
    lemma_mul_nonnegative(e, p);
    lemma_mul_inequality(e, g, p);
    lemma_div_is_ordered(e * p, g * p, g);
    lemma_mul_is_commutative(g, p);
    lemma_div_by_multiple(p, g);
    lemma_div_pos_is_pos(e * p, g);
}

/// An advance that reaches the deadline vests all that is pending.
pub proof fn lemma_vested_at_deadline(pool: RewardPool, deadline: u64, height: u64)
    requires
        pool.last_reward_block < deadline <= height,
    ensures
        vested(pool, deadline, height) == pool.pending_rewards,
{
    let g = blocks_to_go(pool, deadline);
    let p = pool.pending_rewards as int;
    lemma_mul_is_commutative(g, p);
    lemma_div_by_multiple(p, g);
}

/// The accumulator never decreases.
pub proof fn lemma_share_gain_nonnegative(pool: RewardPool, deadline: u64, height: u64)
    requires
        accrues(pool, deadline, height),
        blocks_to_go(pool, deadline) > 0,
    ensures
        0 <= share_gain(pool, deadline, height),
{
    lemma_vested_bounds(pool, deadline, height);
    let v = vested(pool, deadline, height);
    lemma_mul_nonnegative(v, REWARD_SCALE as int);
    lemma_div_pos_is_pos(v * REWARD_SCALE, pool.inc_token_supply as int);
}

/// An advance leaves the supply alone and does not lower the accumulator.
pub proof fn lemma_advanced_monotone(pool: RewardPool, deadline: u64, height: u64)
    requires
        advance_feasible(pool, deadline, height),
    ensures
        advanced(pool, deadline, height).inc_token_supply == pool.inc_token_supply,
        advanced(pool, deadline, height).acc_reward_per_share >= pool.acc_reward_per_share,
        advanced(pool, deadline, height).pending_rewards <= pool.pending_rewards,
{
    if accrues(pool, deadline, height) {
        lemma_vested_bounds(pool, deadline, height);
        lemma_share_gain_nonnegative(pool, deadline, height);
    }
}

/// A later height gives no smaller accumulator: what an advance to `later`
/// adds is at least what an advance to `sooner` adds.
pub proof fn lemma_advanced_monotone_in_height(
    pool: RewardPool,
    deadline: u64,
    sooner: u64,
    later: u64,
)
    requires
        sooner <= later,
        advance_feasible(pool, deadline, sooner),
        advance_feasible(pool, deadline, later),
    ensures
        pool.acc_reward_per_share <= advanced(pool, deadline, sooner).acc_reward_per_share
            <= advanced(pool, deadline, later).acc_reward_per_share,
{
    lemma_advanced_monotone(pool, deadline, sooner);
    lemma_advanced_monotone(pool, deadline, later);
    if accrues(pool, deadline, sooner) {
        let g = blocks_to_go(pool, deadline);
        let p = pool.pending_rewards as int;
        let e1 = blocks_elapsed(pool, deadline, sooner);
        let e2 = blocks_elapsed(pool, deadline, later);
        let v1 = vested(pool, deadline, sooner);
        let v2 = vested(pool, deadline, later);
        lemma_mul_inequality(e1, e2, p);
        lemma_div_is_ordered(e1 * p, e2 * p, g);
        lemma_mul_inequality(v1, v2, REWARD_SCALE as int);
        lemma_div_is_ordered(
            v1 * REWARD_SCALE,
            v2 * REWARD_SCALE,
            pool.inc_token_supply as int,
        );
    }
}

/// A larger accumulator gives no smaller entitlement.
pub proof fn lemma_entitlement_monotone(locked: u128, acc1: u128, acc2: u128)
    requires
        acc1 <= acc2,
    ensures
        0 <= entitlement(locked, acc1) <= entitlement(locked, acc2),
{
    lemma_mul_nonnegative(locked as int, acc1 as int);
    lemma_mul_inequality(acc1 as int, acc2 as int, locked as int);
    lemma_mul_is_commutative(locked as int, acc1 as int);
    lemma_mul_is_commutative(locked as int, acc2 as int);
    lemma_div_is_ordered(locked * acc1, locked * acc2, REWARD_SCALE as int);
    lemma_div_pos_is_pos(locked * acc1, REWARD_SCALE as int);
}

/// An entitlement is no larger than the product it is taken from.
pub proof fn lemma_entitlement_bound(locked: u128, acc: u128)
    ensures
        0 <= entitlement(locked, acc) <= locked * acc,
{
    lemma_mul_nonnegative(locked as int, acc as int);
    lemma_div_pos_is_pos(locked * acc, REWARD_SCALE as int);
    lemma_div_is_ordered(0, locked * acc, REWARD_SCALE as int);
    vstd::arithmetic::div_mod::lemma_div_nonincreasing(locked * acc, REWARD_SCALE as int);
}

/// Converts a raw amount of the locked token to ledger units.
#[verifier::when_used_as_spec(ledger_units)]
pub fn to_ledger_units(amount: u128) -> (units: u128)
    ensures
        units == ledger_units(amount),
{
    amount / INC_TOKEN_SCALE
}

/// Converts ledger units back to a raw amount of the locked token, where that fits.
pub fn to_raw_amount(units: u128) -> (amount: Option<u128>)
    ensures
        raw_amount(units) <= u128::MAX ==> amount == Some(raw_amount(units) as u128),
        raw_amount(units) > u128::MAX ==> amount is None,
{
    units.checked_mul(INC_TOKEN_SCALE)
}

/// The entitlement of `locked` units at accumulator `acc`, where the product fits.
pub fn checked_entitlement(locked: u128, acc: u128) -> (r: Option<u128>)
    ensures
        locked * acc <= u128::MAX ==> r == Some(entitlement(locked, acc) as u128),
        locked * acc > u128::MAX ==> r is None,
        r matches Some(v) ==> v == entitlement(locked, acc),
{
    match locked.checked_mul(acc) {
        Some(product) => {
            proof {
                lemma_div_pos_is_pos(product as int, REWARD_SCALE as int);
                lemma_div_is_ordered(0, product as int, REWARD_SCALE as int);
            }
            Some(product / REWARD_SCALE)
        },
        None => None,
    }
}

/// Advances the pool to `height` under the given deadline.
///
/// Nothing changes when no time has passed or the window had closed at the
/// last checkpoint. With nothing locked or nothing pending only the checkpoint
/// moves. Otherwise the linear share of the pending rewards vests into the
/// accumulator.
pub fn advance(pool: RewardPool, deadline: u64, height: u64) -> (r: Result<RewardPool, ContractError>)
    ensures
        advance_feasible(pool, deadline, height) ==> r == Ok::<RewardPool, ContractError>(
            advanced(pool, deadline, height),
        ),
        !advance_feasible(pool, deadline, height) ==> r == Err::<RewardPool, ContractError>(
            ContractError::Arithmetic,
        ),
{
    if height <= pool.last_reward_block || pool.last_reward_block > deadline {
        return Ok(pool);
    }
    if pool.inc_token_supply == 0 || pool.pending_rewards == 0 {
        return Ok(
            RewardPool {
                pending_rewards: pool.pending_rewards,
                inc_token_supply: pool.inc_token_supply,
                last_reward_block: height,
                acc_reward_per_share: pool.acc_reward_per_share,
            },
        );
    }
    let to_go: u64 = deadline - pool.last_reward_block;
    if to_go == 0 {
        return Err(ContractError::Arithmetic);
    }
    let reached: u64 = if height < deadline {
        height
    } else {
        deadline
    };
    let elapsed: u64 = reached - pool.last_reward_block;
    let product: u128 = match (elapsed as u128).checked_mul(pool.pending_rewards) {
        Some(v) => v,
        None => {
            return Err(ContractError::Arithmetic);
        },
    };
    let rewards: u128 = product / (to_go as u128);
    let scaled: u128 = match rewards.checked_mul(REWARD_SCALE) {
        Some(v) => v,
        None => {
            return Err(ContractError::Arithmetic);
        },
    };
    let gain: u128 = scaled / pool.inc_token_supply;
    let acc: u128 = match pool.acc_reward_per_share.checked_add(gain) {
        Some(v) => v,
        None => {
            return Err(ContractError::Arithmetic);
        },
    };
    proof {
        lemma_vested_bounds(pool, deadline, height);
    }
    Ok(
        RewardPool {
            pending_rewards: pool.pending_rewards - rewards,
            inc_token_supply: pool.inc_token_supply,
            last_reward_block: height,
            acc_reward_per_share: acc,
        },
    )
}

} // verus!
