//! The contract's entry points: set-up, the dispatch of messages and the
//! dispatch of queries.

pub use crate::admin::{
    change_admin, claim_reward_pool, enforce_admin, resume_contract, stop_contract,
    sweep_reward_pool, update_deadline, update_inc_token, update_reward_token,
};
pub use crate::queries::{
    query_claim_unlock_height, query_contract_status, query_deposit, query_end_height,
    query_incentivized_token, query_last_reward_block, query_pending_rewards,
    query_reward_pool_balance, query_reward_token,
};
pub use crate::staking::{
    add_to_pool, emergency_redeem, lock_tokens, preview_emergency_redeem, preview_lock_tokens,
    preview_redeem, redeem, update_rewards,
};
pub use crate::store::State;

use crate::admin::{claim_reward_pool_post, reconfigured, update_deadline_post};
use crate::constants::RESPONSE_BLOCK_SIZE;
use crate::crypto::{sha_256, sha_256_digest};
use crate::error::ContractError;
use crate::host::{BalanceQuery, Env, HandleResponse, InitResponse, Step};
use crate::model::{rejected, StateView};
use crate::msg::{HandleAnswer, HandleMsg, InitMsg, QueryAnswer, QueryMsg, ResponseStatus};
use crate::queries::{query_deposit_post, query_pending_rewards_post};
use crate::snip20::{
    call_to, calls_view, register_receive_msg, register_receive_payload, set_viewing_key_msg,
    set_viewing_key_payload, WasmCall, WasmCallView,
};
use crate::staking::{add_to_pool_post, emergency_redeem_post, lock_tokens_post, redeem_post};
use crate::state::{Config, ConfigView, RewardPool};
use crate::viewing_key::{blank_hash, derived_key, key_hash, ViewingKey};
use vstd::pervasive::unreached;
use vstd::prelude::*;
use vstd::string::StringExecFns;
use vstd::utf8::encode_utf8;

verus! {

/// The low 64 bits of a height that arrived as a 128-bit number.
pub open spec fn low_64(x: u128) -> u64 {
    (x % 0x1_0000_0000_0000_0000) as u64
}

/// The low 64 bits of `x`.
#[verifier::when_used_as_spec(low_64)]
pub fn to_height(x: u128) -> (h: u64)
    ensures
        h == low_64(x),
{
    (x % 0x1_0000_0000_0000_0000) as u64
}

/// The configuration that a contract starts with.
pub open spec fn initial_config(env: Env, msg: InitMsg) -> ConfigView {
    ConfigView {
        admin: env.sender@,
        reward_token: msg.reward_token@,
        inc_token: msg.inc_token@,
        pool_claim_height: low_64(msg.pool_claim_block),
        deadline: low_64(msg.deadline),
        viewing_key: msg.viewing_key@,
        prng_seed: sha_256_digest(msg.prng_seed@),
        is_stopped: false,
    }
}

/// The state that a contract starts with: nothing locked, nothing pending,
/// no keys.
pub open spec fn initial_state(env: Env, msg: InitMsg) -> StateView {
    StateView {
        config: initial_config(env, msg),
        pool: RewardPool::empty(),
        accounts: Seq::empty(),
        positions: Seq::empty(),
        keys: Map::empty(),
    }
}

/// The messages of a set-up can be encoded.
pub open spec fn init_encodable(env: Env, msg: InitMsg) -> bool {
    &&& register_receive_payload(env.contract_code_hash@, 1) is Some
    &&& set_viewing_key_payload(msg.viewing_key@, RESPONSE_BLOCK_SIZE) is Some
}

/// The messages that a set-up sends: the contract registers for transfer
/// notifications with the reward token and with the locked token, then sets
/// its viewing key with each.
pub open spec fn init_calls(env: Env, msg: InitMsg) -> Seq<WasmCallView> {
    let register = register_receive_payload(env.contract_code_hash@, 1).unwrap();
    let set_key = set_viewing_key_payload(msg.viewing_key@, RESPONSE_BLOCK_SIZE).unwrap();
    seq![
        call_to(msg.reward_token@, register),
        call_to(msg.inc_token@, register),
        call_to(msg.reward_token@, set_key),
        call_to(msg.inc_token@, set_key),
    ]
}

/// Sets up a contract. The sender becomes its administrator.
pub fn init(env: Env, msg: InitMsg) -> (r: Result<(State, InitResponse), ContractError>)
    ensures
        init_encodable(env, msg) ==> r is Ok && r->Ok_0.0.wf() && r->Ok_0.0@ == initial_state(
            env,
            msg,
        ) && r->Ok_0.0@.sound() && r->Ok_0.1.calls() == init_calls(env, msg),
        !init_encodable(env, msg) ==> r is Err && r->Err_0 == ContractError::Encoding,
{
    let seed = sha_256(msg.prng_seed.as_slice());
    let mut messages: Vec<WasmCall> = Vec::new();
    // A registration holds nothing private and goes out unpadded; the key is padded.
    match register_receive_msg(&env.contract_code_hash, 1, &msg.reward_token) {
        Some(call) => messages.push(call),
        None => {
            return Err(ContractError::Encoding);
        },
    }
    match register_receive_msg(&env.contract_code_hash, 1, &msg.inc_token) {
        Some(call) => messages.push(call),
        None => {
            return Err(ContractError::Encoding);
        },
    }
    match set_viewing_key_msg(&msg.viewing_key, RESPONSE_BLOCK_SIZE, &msg.reward_token) {
        Some(call) => messages.push(call),
        None => {
            return Err(ContractError::Encoding);
        },
    }
    match set_viewing_key_msg(&msg.viewing_key, RESPONSE_BLOCK_SIZE, &msg.inc_token) {
        Some(call) => messages.push(call),
        None => {
            return Err(ContractError::Encoding);
        },
    }
    assert(calls_view(messages@) =~= init_calls(env, msg));
    let config = Config {
        admin: env.sender,
        reward_token: msg.reward_token,
        inc_token: msg.inc_token,
        pool_claim_height: to_height(msg.pool_claim_block),
        deadline: to_height(msg.deadline),
        viewing_key: msg.viewing_key,
        prng_seed: seed,
        is_stopped: false,
    };
    Ok((State::new(config), InitResponse { messages }))
}

/// What `set_viewing_key` does: the digest of `key` becomes the sender's
/// stored digest.
pub open spec fn set_viewing_key_post(
    pre: StateView,
    env: Env,
    key: Seq<char>,
    post: StateView,
    r: Result<HandleResponse, ContractError>,
) -> bool {
    &&& post == pre.with_key(env.sender@, key_hash(key))
    &&& r is Ok
    &&& r->Ok_0.calls() == Seq::<WasmCallView>::empty()
    &&& r->Ok_0.data == Some(HandleAnswer::SetViewingKey { status: ResponseStatus::Success })
}

/// Sets the sender's viewing key to `key`.
pub fn set_viewing_key(state: &mut State, env: Env, key: String) -> (r: Result<
    HandleResponse,
    ContractError,
>)
    ensures
        final(state).wf(),
        old(state)@.sound() ==> final(state)@.sound(),
        set_viewing_key_post(old(state)@, env, key@, final(state)@, r),
{
    let vk = ViewingKey(key);
    let hash = vk.to_hashed();
    state.set_key(env.sender, hash);
    Ok(HandleResponse::answer(HandleAnswer::SetViewingKey { status: ResponseStatus::Success }))
}

/// The key that `create_viewing_key` derives for the sender.
pub open spec fn created_key(pre: StateView, env: Env, entropy: Seq<char>) -> Seq<char> {
    derived_key(env, pre.config.prng_seed, encode_utf8(entropy))
}

/// What `create_viewing_key` does: a key is derived for the sender, its
/// digest is stored, and the key itself is the answer.
pub open spec fn create_viewing_key_post(
    pre: StateView,
    env: Env,
    entropy: Seq<char>,
    post: StateView,
    r: Result<HandleResponse, ContractError>,
) -> bool {
    &&& post == pre.with_key(env.sender@, key_hash(created_key(pre, env, entropy)))
    &&& r is Ok
    &&& r->Ok_0.calls() == Seq::<WasmCallView>::empty()
    &&& r->Ok_0.data matches Some(HandleAnswer::CreateViewingKey { key })
    &&& key.0@ == created_key(pre, env, entropy)
}

/// Derives a viewing key for the sender and stores its digest.
pub fn create_viewing_key(state: &mut State, env: Env, entropy: String) -> (r: Result<
    HandleResponse,
    ContractError,
>)
    ensures
        final(state).wf(),
        old(state)@.sound() ==> final(state)@.sound(),
        create_viewing_key_post(old(state)@, env, entropy@, final(state)@, r),
{
    let key = ViewingKey::new(&env, state.config().prng_seed.as_slice(), entropy.as_str().as_bytes());
    let hash = key.to_hashed();
    state.set_key(env.sender, hash);
    let messages: Vec<WasmCall> = Vec::new();
    assert(calls_view(messages@) =~= Seq::<WasmCallView>::empty());
    Ok(HandleResponse { messages, data: Some(HandleAnswer::CreateViewingKey { key }) })
}

/// What `receive` does with a transfer notification: a deposit is locked, a
/// top-up joins the pool, and anything else is refused, a payload that could
/// not be decoded and a notification inside the notification first of all.
pub open spec fn receive_post(
    pre: StateView,
    env: Env,
    from: Seq<char>,
    amount: u128,
    msg: Option<HandleMsg>,
    post: StateView,
    r: Result<HandleResponse, ContractError>,
) -> bool {
    match msg {
        None => rejected(pre, post, r, ContractError::UnreadablePayload),
        Some(HandleMsg::Receive { .. }) => rejected(pre, post, r, ContractError::RecursiveReceive),
        Some(HandleMsg::LockTokens {  }) => lock_tokens_post(pre, env, from, amount, post, r),
        Some(HandleMsg::AddToRewardPool {  }) => add_to_pool_post(pre, env, amount, post, r),
        Some(_) => rejected(pre, post, r, ContractError::IllegalReceive),
    }
}

/// Handles a transfer notification from a token contract: `from` sent
/// `amount` to this contract, and `msg` says what for.
pub fn receive(state: &mut State, env: Env, from: String, amount: u128, msg: Option<HandleMsg>) -> (r:
    Result<HandleResponse, ContractError>)
    ensures
        final(state).wf(),
        old(state)@.sound() ==> final(state)@.sound(),
        receive_post(old(state)@, env, from@, amount, msg, final(state)@, r),
{
    proof {
        use_type_invariant(&*state);
    }
    match msg {
        None => Err(ContractError::UnreadablePayload),
        Some(HandleMsg::Receive { .. }) => Err(ContractError::RecursiveReceive),
        Some(HandleMsg::LockTokens {  }) => lock_tokens(state, env, from, amount),
        Some(HandleMsg::AddToRewardPool {  }) => add_to_pool(state, env, amount),
        Some(_) => Err(ContractError::IllegalReceive),
    }
}

/// The account whose position a message can change: the account that a
/// transfer notification names, and the sender of any other message.
pub open spec fn subject_of(env: Env, msg: HandleMsg) -> Seq<char> {
    match msg {
        HandleMsg::Receive { from, .. } => from@,
        _ => env.sender@,
    }
}

/// The account whose position a host has to have at hand for `msg`.
pub fn subject<'a>(env: &'a Env, msg: &'a HandleMsg) -> (account: &'a String)
    ensures
        account@ == subject_of(*env, *msg),
{
    match msg {
        HandleMsg::Receive { from, .. } => from,
        _ => &env.sender,
    }
}

/// The operations that stay reachable while the contract is stopped.
pub open spec fn allowed_while_stopped(msg: HandleMsg) -> bool {
    msg is Redeem || msg is EmergencyRedeem || msg is ResumeContract
}

/// The operations that can be called directly while the contract is active:
/// all but a deposit and a top-up, which arrive through a transfer
/// notification, and a resumption, which only a stopped contract takes.
pub open spec fn callable_while_active(msg: HandleMsg) -> bool {
    !(msg is LockTokens || msg is AddToRewardPool || msg is ResumeContract)
}

/// The message was handled to the end.
pub open spec fn is_response(r: Result<Step, ContractError>) -> bool {
    !(r matches Ok(Step::NeedsBalance(_)))
}

/// The outcome of a message that was handled to the end.
pub open spec fn as_response(r: Result<Step, ContractError>) -> Result<
    HandleResponse,
    ContractError,
> {
    match r {
        Ok(Step::Done(response)) => Ok(response),
        Ok(Step::NeedsBalance(_)) => Err(ContractError::UnknownAction),
        Err(error) => Err(error),
    }
}

/// The outcome of a claim: a refusal, or the balance to look up.
pub open spec fn as_balance_query(r: Result<Step, ContractError>) -> Result<
    BalanceQuery,
    ContractError,
> {
    match r {
        Ok(Step::NeedsBalance(query)) => Ok(query),
        Ok(Step::Done(_)) => Err(ContractError::UnknownAction),
        Err(error) => Err(error),
    }
}

/// What `handle` does.
///
/// While the contract is stopped, everything but a withdrawal, an emergency
/// withdrawal and a resumption is refused. While it is active, deposits and
/// top-ups arrive through a transfer notification only, and a resumption
/// cannot be called. Every other message does what its own handler does; a
/// withdrawal and an emergency withdrawal are open in both states.
pub open spec fn handle_post(
    pre: StateView,
    env: Env,
    msg: HandleMsg,
    post: StateView,
    r: Result<Step, ContractError>,
) -> bool {
    if pre.config.is_stopped && !allowed_while_stopped(msg) {
        rejected(pre, post, r, ContractError::Stopped)
    } else if !pre.config.is_stopped && !callable_while_active(msg) {
        rejected(pre, post, r, ContractError::UnknownAction)
    } else {
        match msg {
            HandleMsg::ClaimRewardPool { recipient } => {
                &&& post == pre
                &&& !(r matches Ok(Step::Done(_)))
                &&& claim_reward_pool_post(pre, env, recipient, as_balance_query(r))
            },
            _ => is_response(r) && dispatched(pre, env, msg, post, as_response(r)),
        }
    }
}

/// What a transfer notification carries, taken out of its box.
pub open spec fn payload(msg: Option<Box<HandleMsg>>) -> Option<HandleMsg> {
    match msg {
        Some(inner) => Some(*inner),
        None => None,
    }
}

/// What the handler of `msg` does, for the messages that are handled to the end.
pub open spec fn dispatched(
    pre: StateView,
    env: Env,
    msg: HandleMsg,
    post: StateView,
    r: Result<HandleResponse, ContractError>,
) -> bool {
    match msg {
        HandleMsg::Redeem { amount } => redeem_post(pre, env, amount, post, r),
        HandleMsg::EmergencyRedeem {  } => emergency_redeem_post(pre, env, post, r),
        HandleMsg::Receive { from, amount, msg, .. } => receive_post(
            pre,
            env,
            from@,
            amount,
            payload(msg),
            post,
            r,
        ),
        HandleMsg::CreateViewingKey { entropy, .. } => create_viewing_key_post(
            pre,
            env,
            entropy@,
            post,
            r,
        ),
        HandleMsg::SetViewingKey { key, .. } => set_viewing_key_post(pre, env, key@, post, r),
        HandleMsg::UpdateIncentivizedToken { new_token } => reconfigured(
            pre,
            env,
            ConfigView { inc_token: new_token@, ..pre.config },
            HandleAnswer::UpdateIncentivizedToken { status: ResponseStatus::Success },
            post,
            r,
        ),
        HandleMsg::UpdateRewardToken { new_token } => reconfigured(
            pre,
            env,
            ConfigView { reward_token: new_token@, ..pre.config },
            HandleAnswer::UpdateRewardToken { status: ResponseStatus::Success },
            post,
            r,
        ),
        HandleMsg::UpdateDeadline { height } => update_deadline_post(pre, env, height, post, r),
        HandleMsg::StopContract {  } => reconfigured(
            pre,
            env,
            ConfigView { is_stopped: true, ..pre.config },
            HandleAnswer::StopContract { status: ResponseStatus::Success },
            post,
            r,
        ),
        HandleMsg::ResumeContract {  } => reconfigured(
            pre,
            env,
            ConfigView { is_stopped: false, ..pre.config },
            HandleAnswer::ResumeContract { status: ResponseStatus::Success },
            post,
            r,
        ),
        HandleMsg::ChangeAdmin { address } => reconfigured(
            pre,
            env,
            ConfigView { admin: address@, ..pre.config },
            HandleAnswer::ChangeAdmin { status: ResponseStatus::Success },
            post,
            r,
        ),
        _ => false,
    }
}

/// Wraps the outcome of a handler that ran to the end.
fn finish(r: Result<HandleResponse, ContractError>) -> (step: Result<Step, ContractError>)
    ensures
        is_response(step),
        as_response(step) == r,
{
    match r {
        Ok(response) => Ok(Step::Done(response)),
        Err(error) => Err(error),
    }
}

/// Handles one message.
pub fn handle(state: &mut State, env: Env, msg: HandleMsg) -> (r: Result<Step, ContractError>)
    ensures
        final(state).wf(),
        old(state)@.sound() ==> final(state)@.sound(),
        handle_post(old(state)@, env, msg, final(state)@, r),
{
    proof {
        use_type_invariant(&*state);
    }
    if state.config().is_stopped {
        return match msg {
            HandleMsg::Redeem { amount } => finish(redeem(state, env, amount)),
            HandleMsg::EmergencyRedeem {  } => finish(emergency_redeem(state, env)),
            HandleMsg::ResumeContract {  } => finish(resume_contract(state, env)),
            _ => Err(ContractError::Stopped),
        };
    }
    match msg {
        HandleMsg::Redeem { amount } => finish(redeem(state, env, amount)),
        HandleMsg::EmergencyRedeem {  } => finish(emergency_redeem(state, env)),
        HandleMsg::Receive { from, amount, msg, .. } => {
            let inner = match msg {
                Some(inner) => Some(*inner),
                None => None,
            };
            finish(receive(state, env, from, amount, inner))
        },
        HandleMsg::CreateViewingKey { entropy, .. } => finish(
            create_viewing_key(state, env, entropy),
        ),
        HandleMsg::SetViewingKey { key, .. } => finish(set_viewing_key(state, env, key)),
        HandleMsg::UpdateIncentivizedToken { new_token } => finish(
            update_inc_token(state, env, new_token),
        ),
        HandleMsg::UpdateRewardToken { new_token } => finish(
            update_reward_token(state, env, new_token),
        ),
        HandleMsg::ClaimRewardPool { recipient } => {
            match claim_reward_pool(state, env, recipient) {
                Ok(query) => Ok(Step::NeedsBalance(query)),
                Err(error) => Err(error),
            }
        },
        HandleMsg::StopContract {  } => finish(stop_contract(state, env)),
        HandleMsg::ChangeAdmin { address } => finish(change_admin(state, env, address)),
        HandleMsg::UpdateDeadline { height } => finish(update_deadline(state, env, height)),
        _ => Err(ContractError::UnknownAction),
    }
}

/// The query presents the key whose digest is stored for its account.
pub open spec fn key_accepted(pre: StateView, msg: QueryMsg) -> bool {
    pre.key_hash(msg.subject()) == Some(key_hash(msg.presented_key()))
}

/// What `authenticated_queries` answers: what the query asks for where the
/// key is the account's, and one and the same error answer where the key is
/// wrong or the account has none.
pub open spec fn authenticated_queries_post(
    pre: StateView,
    msg: QueryMsg,
    r: Result<QueryAnswer, ContractError>,
) -> bool {
    if key_accepted(pre, msg) {
        match msg {
            QueryMsg::QueryRewards { address, height, .. } => query_pending_rewards_post(
                pre,
                address@,
                low_64(height),
                r,
            ),
            QueryMsg::QueryDeposit { address, .. } => query_deposit_post(pre, address@, r),
            _ => false,
        }
    } else {
        r matches Ok(QueryAnswer::QueryError { msg: text }) && text@
            == "Wrong viewing key for this address or viewing key not set"@
    }
}

/// Answers a query that discloses the state of one account.
///
/// The presented key is hashed and compared in full whether or not the
/// account has a stored digest; where it has none, the comparison runs
/// against a digest of zeros and its outcome is discarded.
pub fn authenticated_queries(state: &State, msg: QueryMsg) -> (r: Result<QueryAnswer, ContractError>)
    requires
        msg.is_authenticated(),
    ensures
        authenticated_queries_post(state@, msg, r),
{
    let (address, key) = msg.get_validation_params();
    let stored = state.key_hash(address);
    let blank = blank_hash();
    let (known, expected): (bool, &Vec<u8>) = match stored {
        Some(hash) => (true, hash),
        None => (false, &blank),
    };
    let matched = key.check_viewing_key(expected.as_slice());
    if known && matched {
        return match &msg {
            QueryMsg::QueryRewards { address, height, .. } => query_pending_rewards(
                state,
                address,
                to_height(*height),
            ),
            QueryMsg::QueryDeposit { address, .. } => query_deposit(state, address),
            _ => unreached(),
        };
    }
    Ok(
        QueryAnswer::QueryError {
            msg: String::from_str("Wrong viewing key for this address or viewing key not set"),
        },
    )
}

/// What `query` answers.
pub open spec fn query_post(pre: StateView, msg: QueryMsg, r: Result<QueryAnswer, ContractError>) -> bool {
    match msg {
        QueryMsg::QueryUnlockClaimHeight {  } => r == Ok::<QueryAnswer, ContractError>(
            QueryAnswer::QueryUnlockClaimHeight { height: pre.config.pool_claim_height as u128 },
        ),
        QueryMsg::QueryContractStatus {  } => r == Ok::<QueryAnswer, ContractError>(
            QueryAnswer::QueryContractStatus { is_stopped: pre.config.is_stopped },
        ),
        QueryMsg::QueryRewardToken {  } => r matches Ok(QueryAnswer::QueryRewardToken { token })
            && token@ == pre.config.reward_token,
        QueryMsg::QueryIncentivizedToken {  } => r matches Ok(
            QueryAnswer::QueryIncentivizedToken { token },
        ) && token@ == pre.config.inc_token,
        QueryMsg::QueryEndHeight {  } => r == Ok::<QueryAnswer, ContractError>(
            QueryAnswer::QueryEndHeight { height: pre.config.deadline as u128 },
        ),
        QueryMsg::QueryLastRewardBlock {  } => r == Ok::<QueryAnswer, ContractError>(
            QueryAnswer::QueryEndHeight { height: pre.pool.last_reward_block as u128 },
        ),
        QueryMsg::QueryRewardPoolBalance {  } => r == Ok::<QueryAnswer, ContractError>(
            QueryAnswer::QueryRewardPoolBalance { balance: pre.pool.pending_rewards },
        ),
        _ => authenticated_queries_post(pre, msg, r),
    }
}

/// Answers one query.
pub fn query(state: &State, msg: QueryMsg) -> (r: Result<QueryAnswer, ContractError>)
    ensures
        query_post(state@, msg, r),
{
    match msg {
        QueryMsg::QueryUnlockClaimHeight {  } => query_claim_unlock_height(state),
        QueryMsg::QueryContractStatus {  } => query_contract_status(state),
        QueryMsg::QueryRewardToken {  } => query_reward_token(state),
        QueryMsg::QueryIncentivizedToken {  } => query_incentivized_token(state),
        QueryMsg::QueryEndHeight {  } => query_end_height(state),
        QueryMsg::QueryLastRewardBlock {  } => query_last_reward_block(state),
        QueryMsg::QueryRewardPoolBalance {  } => query_reward_pool_balance(state),
        _ => authenticated_queries(state, msg),
    }
}

} // verus!
