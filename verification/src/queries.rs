//! What can be read from the contract. Nothing here changes the state.

use crate::accrual::{raw_amount, to_raw_amount};
use crate::error::ContractError;
use crate::model::StateView;
use crate::msg::QueryAnswer;
use crate::settlement::{project_rewards, projected_rewards, projection_feasible};
use crate::state::Snip20;
use crate::store::State;
use vstd::prelude::*;

verus! {

/// What `query_pending_rewards` answers: the reward that `address` would be
/// owed if the pool were advanced to `height`, or to the deadline where
/// `height` lies past it. Nothing is changed, and nothing checks that the
/// chain has reached `height`.
pub open spec fn query_pending_rewards_post(
    pre: StateView,
    address: Seq<char>,
    height: u64,
    r: Result<QueryAnswer, ContractError>,
) -> bool {
    let user = pre.user(address);
    if projection_feasible(pre.pool, user, pre.config.deadline, height) {
        r == Ok::<QueryAnswer, ContractError>(
            QueryAnswer::QueryRewards {
                rewards: projected_rewards(pre.pool, user, pre.config.deadline, height) as u128,
            },
        )
    } else {
        r == Err::<QueryAnswer, ContractError>(ContractError::Arithmetic)
    }
}

/// Projects the reward that `address` is owed at `height`.
pub fn query_pending_rewards(state: &State, address: &String, height: u64) -> (r: Result<
    QueryAnswer,
    ContractError,
>)
    ensures
        query_pending_rewards_post(state@, address@, height, r),
{
    let user = state.user(address);
    match project_rewards(state.pool(), user, state.config().deadline, height) {
        Ok(rewards) => Ok(QueryAnswer::QueryRewards { rewards }),
        Err(e) => Err(e),
    }
}

/// What `query_deposit` answers: the raw amount of the locked token that
/// `address` has locked.
pub open spec fn query_deposit_post(
    pre: StateView,
    address: Seq<char>,
    r: Result<QueryAnswer, ContractError>,
) -> bool {
    let user = pre.user(address);
    if raw_amount(user.locked) <= u128::MAX {
        r == Ok::<QueryAnswer, ContractError>(
            QueryAnswer::QueryDeposit { deposit: raw_amount(user.locked) as u128 },
        )
    } else {
        r == Err::<QueryAnswer, ContractError>(ContractError::Arithmetic)
    }
}

/// Reports what `address` has locked.
pub fn query_deposit(state: &State, address: &String) -> (r: Result<QueryAnswer, ContractError>)
    ensures
        query_deposit_post(state@, address@, r),
{
    let user = state.user(address);
    match to_raw_amount(user.locked) {
        Some(deposit) => Ok(QueryAnswer::QueryDeposit { deposit }),
        None => Err(ContractError::Arithmetic),
    }
}

/// Reports the height from which the reward pool may be claimed.
pub fn query_claim_unlock_height(state: &State) -> (r: Result<QueryAnswer, ContractError>)
    ensures
        r == Ok::<QueryAnswer, ContractError>(
            QueryAnswer::QueryUnlockClaimHeight { height: state@.config.pool_claim_height as u128 },
        ),
{
    Ok(QueryAnswer::QueryUnlockClaimHeight { height: state.config().pool_claim_height as u128 })
}

/// Reports whether the contract is stopped.
pub fn query_contract_status(state: &State) -> (r: Result<QueryAnswer, ContractError>)
    ensures
        r == Ok::<QueryAnswer, ContractError>(
            QueryAnswer::QueryContractStatus { is_stopped: state@.config.is_stopped },
        ),
{
    Ok(QueryAnswer::QueryContractStatus { is_stopped: state.config().is_stopped })
}

/// A copy of a token descriptor.
fn copy_token(token: &Snip20) -> (copy: Snip20)
    ensures
        copy@ == token@,
{
    Snip20 { address: token.address.clone(), contract_hash: token.contract_hash.clone() }
}

/// Reports the reward token's contract.
pub fn query_reward_token(state: &State) -> (r: Result<QueryAnswer, ContractError>)
    ensures
        r matches Ok(QueryAnswer::QueryRewardToken { token }) && token@
            == state@.config.reward_token,
{
    Ok(QueryAnswer::QueryRewardToken { token: copy_token(&state.config().reward_token) })
}

/// Reports the locked token's contract.
pub fn query_incentivized_token(state: &State) -> (r: Result<QueryAnswer, ContractError>)
    ensures
        r matches Ok(QueryAnswer::QueryIncentivizedToken { token }) && token@
            == state@.config.inc_token,
{
    Ok(QueryAnswer::QueryIncentivizedToken { token: copy_token(&state.config().inc_token) })
}

/// Reports the deadline.
pub fn query_end_height(state: &State) -> (r: Result<QueryAnswer, ContractError>)
    ensures
        r == Ok::<QueryAnswer, ContractError>(
            QueryAnswer::QueryEndHeight { height: state@.config.deadline as u128 },
        ),
{
    Ok(QueryAnswer::QueryEndHeight { height: state.config().deadline as u128 })
}

/// Reports the height at which the pool was last advanced. The answer has
/// the shape of an end-height answer.
pub fn query_last_reward_block(state: &State) -> (r: Result<QueryAnswer, ContractError>)
    ensures
        r == Ok::<QueryAnswer, ContractError>(
            QueryAnswer::QueryEndHeight { height: state@.pool.last_reward_block as u128 },
        ),
{
    Ok(QueryAnswer::QueryEndHeight { height: state.pool().last_reward_block as u128 })
}

/// Reports the rewards that have not vested yet.
pub fn query_reward_pool_balance(state: &State) -> (r: Result<QueryAnswer, ContractError>)
    ensures
        r == Ok::<QueryAnswer, ContractError>(
            QueryAnswer::QueryRewardPoolBalance { balance: state@.pool.pending_rewards },
        ),
{
    Ok(QueryAnswer::QueryRewardPoolBalance { balance: state.pool().pending_rewards })
}

} // verus!
