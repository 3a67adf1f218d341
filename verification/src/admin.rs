//! What only the administrator may do: change the configuration, stop and
//! resume the contract, and claim the reward pool.

use crate::accrual::{advance_feasible, advanced};
use crate::error::ContractError;
use crate::host::{BalanceQuery, Env, HandleResponse};
use crate::model::{rejected, StateView};
use crate::msg::{HandleAnswer, ResponseStatus};
use crate::snip20::{
    calls_view, push_transfer, transfer_call, transfer_encodable, WasmCall, WasmCallView,
};
use crate::staking::update_rewards;
use crate::state::{Config, ConfigView, Snip20};
use crate::store::State;
use vstd::prelude::*;

verus! {

/// Refuses a sender that is not the administrator.
pub fn enforce_admin(config: &Config, env: &Env) -> (r: Result<(), ContractError>)
    ensures
        env.sender@ == config@.admin ==> r is Ok,
        env.sender@ != config@.admin ==> r == Err::<(), ContractError>(ContractError::Unauthorized),
{
    if config.admin != env.sender {
        return Err(ContractError::Unauthorized);
    }
    Ok(())
}

/// What an administrative change of the configuration does: the sender must
/// be the administrator, the configuration becomes `config`, no message is
/// sent and the answer is `answer`.
pub open spec fn reconfigured(
    pre: StateView,
    env: Env,
    config: ConfigView,
    answer: HandleAnswer,
    post: StateView,
    r: Result<HandleResponse, ContractError>,
) -> bool {
    if env.sender@ != pre.config.admin {
        rejected(pre, post, r, ContractError::Unauthorized)
    } else {
        &&& post == pre.with_config(config)
        &&& r is Ok
        &&& r->Ok_0.calls() == Seq::<WasmCallView>::empty()
        &&& r->Ok_0.data == Some(answer)
    }
}

/// Replaces the locked token's contract. Administrator only.
pub fn update_inc_token(state: &mut State, env: Env, new_token: Snip20) -> (r: Result<
    HandleResponse,
    ContractError,
>)
    ensures
        final(state).wf(),
        old(state)@.sound() ==> final(state)@.sound(),
        reconfigured(
            old(state)@,
            env,
            ConfigView { inc_token: new_token@, ..old(state)@.config },
            HandleAnswer::UpdateIncentivizedToken { status: ResponseStatus::Success },
            final(state)@,
            r,
        ),
{
    proof {
        use_type_invariant(&*state);
    }
    match enforce_admin(state.config(), &env) {
        Ok(()) => {},
        Err(e) => {
            return Err(e);
        },
    }
    state.set_inc_token(new_token);
    Ok(
        HandleResponse::answer(
            HandleAnswer::UpdateIncentivizedToken { status: ResponseStatus::Success },
        ),
    )
}

/// Replaces the reward token's contract. Administrator only.
pub fn update_reward_token(state: &mut State, env: Env, new_token: Snip20) -> (r: Result<
    HandleResponse,
    ContractError,
>)
    ensures
        final(state).wf(),
        old(state)@.sound() ==> final(state)@.sound(),
        reconfigured(
            old(state)@,
            env,
            ConfigView { reward_token: new_token@, ..old(state)@.config },
            HandleAnswer::UpdateRewardToken { status: ResponseStatus::Success },
            final(state)@,
            r,
        ),
{
    proof {
        use_type_invariant(&*state);
    }
    match enforce_admin(state.config(), &env) {
        Ok(()) => {},
        Err(e) => {
            return Err(e);
        },
    }
    state.set_reward_token(new_token);
    Ok(HandleResponse::answer(HandleAnswer::UpdateRewardToken { status: ResponseStatus::Success }))
}

/// Stops the contract. Administrator only.
pub fn stop_contract(state: &mut State, env: Env) -> (r: Result<HandleResponse, ContractError>)
    ensures
        final(state).wf(),
        old(state)@.sound() ==> final(state)@.sound(),
        reconfigured(
            old(state)@,
            env,
            ConfigView { is_stopped: true, ..old(state)@.config },
            HandleAnswer::StopContract { status: ResponseStatus::Success },
            final(state)@,
            r,
        ),
{
    proof {
        use_type_invariant(&*state);
    }
    match enforce_admin(state.config(), &env) {
        Ok(()) => {},
        Err(e) => {
            return Err(e);
        },
    }
    state.set_stopped(true);
    Ok(HandleResponse::answer(HandleAnswer::StopContract { status: ResponseStatus::Success }))
}

/// Resumes a stopped contract. Administrator only.
pub fn resume_contract(state: &mut State, env: Env) -> (r: Result<HandleResponse, ContractError>)
    ensures
        final(state).wf(),
        old(state)@.sound() ==> final(state)@.sound(),
        reconfigured(
            old(state)@,
            env,
            ConfigView { is_stopped: false, ..old(state)@.config },
            HandleAnswer::ResumeContract { status: ResponseStatus::Success },
            final(state)@,
            r,
        ),
{
    proof {
        use_type_invariant(&*state);
    }
    match enforce_admin(state.config(), &env) {
        Ok(()) => {},
        Err(e) => {
            return Err(e);
        },
    }
    state.set_stopped(false);
    Ok(HandleResponse::answer(HandleAnswer::ResumeContract { status: ResponseStatus::Success }))
}

/// Hands the administration to `address`. Administrator only.
pub fn change_admin(state: &mut State, env: Env, address: String) -> (r: Result<
    HandleResponse,
    ContractError,
>)
    ensures
        final(state).wf(),
        old(state)@.sound() ==> final(state)@.sound(),
        reconfigured(
            old(state)@,
            env,
            ConfigView { admin: address@, ..old(state)@.config },
            HandleAnswer::ChangeAdmin { status: ResponseStatus::Success },
            final(state)@,
            r,
        ),
{
    proof {
        use_type_invariant(&*state);
    }
    match enforce_admin(state.config(), &env) {
        Ok(()) => {},
        Err(e) => {
            return Err(e);
        },
    }
    state.set_admin(address);
    Ok(HandleResponse::answer(HandleAnswer::ChangeAdmin { status: ResponseStatus::Success }))
}

/// What `update_deadline` does: the pool is advanced under the old deadline,
/// then the deadline becomes `height`.
pub open spec fn update_deadline_post(
    pre: StateView,
    env: Env,
    height: u64,
    post: StateView,
    r: Result<HandleResponse, ContractError>,
) -> bool {
    if env.sender@ != pre.config.admin {
        rejected(pre, post, r, ContractError::Unauthorized)
    } else if !advance_feasible(pre.pool, pre.config.deadline, env.height) {
        rejected(pre, post, r, ContractError::Arithmetic)
    } else {
        &&& post == pre.with_pool(
            advanced(pre.pool, pre.config.deadline, env.height),
        ).with_config(ConfigView { deadline: height, ..pre.config })
        &&& r is Ok
        &&& r->Ok_0.calls() == Seq::<WasmCallView>::empty()
        &&& r->Ok_0.data == Some(HandleAnswer::UpdateDeadline { status: ResponseStatus::Success })
    }
}

/// Moves the deadline. Administrator only.
pub fn update_deadline(state: &mut State, env: Env, height: u64) -> (r: Result<
    HandleResponse,
    ContractError,
>)
    ensures
        final(state).wf(),
        old(state)@.sound() ==> final(state)@.sound(),
        update_deadline_post(old(state)@, env, height, final(state)@, r),
{
    proof {
        use_type_invariant(&*state);
    }
    match enforce_admin(state.config(), &env) {
        Ok(()) => {},
        Err(e) => {
            return Err(e);
        },
    }
    match update_rewards(state, &env) {
        Ok(_) => {},
        Err(e) => {
            return Err(e);
        },
    }
    state.set_deadline(height);
    Ok(HandleResponse::answer(HandleAnswer::UpdateDeadline { status: ResponseStatus::Success }))
}

/// Where a swept reward balance goes: to `recipient`, or to the sender where
/// none is named.
pub open spec fn claim_recipient(env: Env, recipient: Option<String>) -> Seq<char> {
    match recipient {
        Some(address) => address@,
        None => env.sender@,
    }
}

/// Why a claim of the reward pool is refused, if it is: the sender is not the
/// administrator, or the claim height has not come.
pub open spec fn claim_refusal(pre: StateView, env: Env) -> Option<ContractError> {
    if env.sender@ != pre.config.admin {
        Some(ContractError::Unauthorized)
    } else if env.height < pre.config.pool_claim_height {
        Some(ContractError::ClaimTooEarly { claim_height: pre.config.pool_claim_height })
    } else {
        None
    }
}

/// What `claim_reward_pool` does: it refuses, or names the balance to look up.
pub open spec fn claim_reward_pool_post(
    pre: StateView,
    env: Env,
    recipient: Option<String>,
    r: Result<BalanceQuery, ContractError>,
) -> bool {
    match claim_refusal(pre, env) {
        Some(error) => r == Err::<BalanceQuery, ContractError>(error),
        None => {
            &&& r is Ok
            &&& r->Ok_0.contract_addr@ == pre.config.reward_token.address
            &&& r->Ok_0.callback_code_hash@ == env.contract_code_hash@
            &&& r->Ok_0.address@ == env.contract_address@
            &&& r->Ok_0.key@ == pre.config.viewing_key
            &&& r->Ok_0.recipient@ == claim_recipient(env, recipient)
        },
    }
}

/// Checks a claim of the reward pool and names the balance that the host has
/// to look up: this contract's own balance of the reward token.
pub fn claim_reward_pool(state: &State, env: Env, recipient: Option<String>) -> (r: Result<
    BalanceQuery,
    ContractError,
>)
    ensures
        claim_reward_pool_post(state@, env, recipient, r),
{
    match enforce_admin(state.config(), &env) {
        Ok(()) => {},
        Err(e) => {
            return Err(e);
        },
    }
    if env.height < state.config().pool_claim_height {
        return Err(ContractError::ClaimTooEarly { claim_height: state.config().pool_claim_height });
    }
    let target = match recipient {
        Some(address) => address,
        None => env.sender,
    };
    Ok(
        BalanceQuery {
            contract_addr: state.config().reward_token.address.clone(),
            callback_code_hash: env.contract_code_hash,
            address: env.contract_address,
            key: state.config().viewing_key.clone(),
            recipient: target,
        },
    )
}

/// What `sweep_reward_pool` does: it refuses as a claim would, or sends the
/// whole balance that was found to the recipient.
pub open spec fn sweep_reward_pool_post(
    pre: StateView,
    env: Env,
    recipient: Option<String>,
    total_rewards: u128,
    r: Result<HandleResponse, ContractError>,
) -> bool {
    match claim_refusal(pre, env) {
        Some(error) => r == Err::<HandleResponse, ContractError>(error),
        None => if !transfer_encodable(claim_recipient(env, recipient), total_rewards) {
            r == Err::<HandleResponse, ContractError>(ContractError::Encoding)
        } else {
            &&& r is Ok
            &&& r->Ok_0.calls() == seq![
                transfer_call(
                    pre.config.reward_token,
                    claim_recipient(env, recipient),
                    total_rewards,
                ),
            ]
            &&& r->Ok_0.data is None
        },
    }
}

/// Sends `total_rewards`, the balance of the reward token that the host found
/// this contract to hold, to the recipient of a claim.
pub fn sweep_reward_pool(
    state: &State,
    env: Env,
    recipient: Option<String>,
    total_rewards: u128,
) -> (r: Result<HandleResponse, ContractError>)
    ensures
        sweep_reward_pool_post(state@, env, recipient, total_rewards, r),
{
    match enforce_admin(state.config(), &env) {
        Ok(()) => {},
        Err(e) => {
            return Err(e);
        },
    }
    if env.height < state.config().pool_claim_height {
        return Err(ContractError::ClaimTooEarly { claim_height: state.config().pool_claim_height });
    }
    let target = match recipient {
        Some(address) => address,
        None => env.sender,
    };
    let mut messages: Vec<WasmCall> = Vec::new();
    assert(calls_view(messages@) =~= Seq::<WasmCallView>::empty());
    match push_transfer(&mut messages, &target, total_rewards, &state.config().reward_token) {
        Ok(()) => {},
        Err(e) => {
            return Err(e);
        },
    }
    Ok(HandleResponse { messages, data: None })
}

} // verus!
