//! Deposits, withdrawals and top-ups.
//!
//! A handler takes the state by reference, the circumstances of the
//! transaction and its own arguments. It either returns an error and leaves
//! the state as it was, or changes the state and returns the messages to send.
//! Each of the handlers that send messages has a preview, which works out the
//! settlement and the refusals that do not depend on how a message is encoded.

use crate::accrual::{
    advance, advance_feasible, advanced, lemma_advanced_monotone, lemma_entitlement_monotone,
};
use crate::error::ContractError;
use crate::host::{Env, HandleResponse};
use crate::model::{rejected, StateView};
use crate::msg::{HandleAnswer, ResponseStatus};
use crate::settlement::{
    emergency_feasible, emergency_settlement, lemma_lock_settlement, lemma_redeem_settlement,
    lock_feasible, lock_settlement, plan_emergency, plan_lock, plan_redeem, plan_top_up,
    redeem_feasible, redeem_settlement, redeem_units, top_up_feasible, topped_up, Settlement,
};
use crate::snip20::{
    calls_view, push_transfer, reward_calls, transfer_call, transfer_encodable, WasmCall,
    WasmCallView,
};
use crate::state::RewardPool;
use crate::store::State;
use vstd::prelude::*;

verus! {

/// Writes a settlement into the state.
fn commit(state: &mut State, account: String, s: Settlement)
    ensures
        final(state).wf(),
        final(state)@ == old(state)@.with_pool(s.pool).with_user(account@, s.user),
{
    proof {
        use_type_invariant(&*state);
    }
    proof {
        state@.with_pool(s.pool).lemma_with_user(account@, s.user, account@);
    }
    state.set_pool(s.pool);
    state.set_user(account, s.user);
}

/// What `update_rewards` does: the pool is advanced to the height of the
/// transaction and handed back, or nothing changes where that cannot be computed.
pub open spec fn update_rewards_post(
    pre: StateView,
    env: Env,
    post: StateView,
    r: Result<RewardPool, ContractError>,
) -> bool {
    if advance_feasible(pre.pool, pre.config.deadline, env.height) {
        let pool = advanced(pre.pool, pre.config.deadline, env.height);
        post == pre.with_pool(pool) && r == Ok::<RewardPool, ContractError>(pool)
    } else {
        rejected(pre, post, r, ContractError::Arithmetic)
    }
}

/// Advances the pool to the height of the transaction.
pub fn update_rewards(state: &mut State, env: &Env) -> (r: Result<RewardPool, ContractError>)
    ensures
        final(state).wf(),
        old(state)@.sound() ==> final(state)@.sound(),
        update_rewards_post(old(state)@, *env, final(state)@, r),
{
    proof {
        use_type_invariant(&*state);
    }
    let pool = match advance(state.pool(), state.config().deadline, env.height) {
        Ok(pool) => pool,
        Err(e) => {
            return Err(e);
        },
    };
    proof {
        if state@.sound() {
            lemma_advanced_monotone(state@.pool, state@.config.deadline, env.height);
            state@.lemma_with_pool_sound(pool);
        }
    }
    state.set_pool(pool);
    Ok(pool)
}

/// The settlement that a deposit by `from` leads to, or why the deposit is
/// refused before any message is built: the notification must come from the
/// locked token's contract, and the settlement has to be computable.
pub open spec fn lock_plan(pre: StateView, env: Env, from: Seq<char>, amount: u128) -> Result<
    Settlement,
    ContractError,
> {
    let user = pre.user(from);
    if env.sender@ != pre.config.inc_token.address {
        Err(ContractError::UnsupportedToken)
    } else if !lock_feasible(pre.pool, user, pre.config.deadline, env.height, amount) {
        Err(ContractError::Arithmetic)
    } else {
        Ok(lock_settlement(pre.pool, user, pre.config.deadline, env.height, amount))
    }
}

/// Works out what a deposit by `from` would do, without doing it.
pub fn preview_lock_tokens(state: &State, env: &Env, from: &String, amount: u128) -> (r: Result<
    Settlement,
    ContractError,
>)
    ensures
        r == lock_plan(state@, *env, from@, amount),
{
    if env.sender != state.config().inc_token.address {
        return Err(ContractError::UnsupportedToken);
    }
    let user = state.user(from);
    plan_lock(state.pool(), user, state.config().deadline, env.height, amount)
}

/// What `lock_tokens` does.
///
/// The account `from` is settled against the advanced pool, paid what it is
/// owed, and credited with the deposit; the supply grows by the same number
/// of units.
pub open spec fn lock_tokens_post(
    pre: StateView,
    env: Env,
    from: Seq<char>,
    amount: u128,
    post: StateView,
    r: Result<HandleResponse, ContractError>,
) -> bool {
    match lock_plan(pre, env, from, amount) {
        Err(error) => rejected(pre, post, r, error),
        Ok(s) => if s.reward > 0 && !transfer_encodable(from, s.reward) {
            rejected(pre, post, r, ContractError::Encoding)
        } else {
            &&& post == pre.with_pool(s.pool).with_user(from, s.user)
            &&& r is Ok
            &&& r->Ok_0.calls() == reward_calls(pre.config.reward_token, from, s.reward)
            &&& r->Ok_0.data == Some(HandleAnswer::LockTokens { status: ResponseStatus::Success })
        },
    }
}

/// Locks the tokens that `from` sent to the contract.
pub fn lock_tokens(state: &mut State, env: Env, from: String, amount: u128) -> (r: Result<
    HandleResponse,
    ContractError,
>)
    ensures
        final(state).wf(),
        old(state)@.sound() ==> final(state)@.sound(),
        lock_tokens_post(old(state)@, env, from@, amount, final(state)@, r),
{
    proof {
        use_type_invariant(&*state);
    }
    let s = match preview_lock_tokens(state, &env, &from, amount) {
        Ok(s) => s,
        Err(e) => {
            return Err(e);
        },
    };
    let mut messages: Vec<WasmCall> = Vec::new();
    assert(calls_view(messages@) =~= Seq::<WasmCallView>::empty());
    if s.reward > 0 {
        match push_transfer(&mut messages, &from, s.reward, &state.config().reward_token) {
            Ok(()) => {},
            Err(e) => {
                return Err(e);
            },
        }
    }
    proof {
        if state@.sound() {
            lemma_lock_settlement(
                state@.pool,
                state@.user(from@),
                state@.config.deadline,
                env.height,
                amount,
            );
            state@.lemma_settle_sound(from@, s.pool, s.user);
        }
    }
    commit(state, from, s);
    Ok(
        HandleResponse {
            messages,
            data: Some(HandleAnswer::LockTokens { status: ResponseStatus::Success }),
        },
    )
}

/// What `add_to_pool` does.
///
/// The notification must come from the reward token's contract. The pool is
/// advanced first, so that the new rewards vest over the time to come only.
pub open spec fn add_to_pool_post(
    pre: StateView,
    env: Env,
    amount: u128,
    post: StateView,
    r: Result<HandleResponse, ContractError>,
) -> bool {
    if env.sender@ != pre.config.reward_token.address {
        rejected(pre, post, r, ContractError::UnsupportedToken)
    } else if !top_up_feasible(pre.pool, pre.config.deadline, env.height, amount) {
        rejected(pre, post, r, ContractError::Arithmetic)
    } else {
        &&& post == pre.with_pool(topped_up(pre.pool, pre.config.deadline, env.height, amount))
        &&& r is Ok
        &&& r->Ok_0.calls() == Seq::<WasmCallView>::empty()
        &&& r->Ok_0.data == Some(
            HandleAnswer::AddToRewardPool { status: ResponseStatus::Success },
        )
    }
}

/// Adds the reward tokens that were sent to the contract to the pending rewards.
pub fn add_to_pool(state: &mut State, env: Env, amount: u128) -> (r: Result<
    HandleResponse,
    ContractError,
>)
    ensures
        final(state).wf(),
        old(state)@.sound() ==> final(state)@.sound(),
        add_to_pool_post(old(state)@, env, amount, final(state)@, r),
{
    proof {
        use_type_invariant(&*state);
    }
    if env.sender != state.config().reward_token.address {
        return Err(ContractError::UnsupportedToken);
    }
    let pool = match plan_top_up(state.pool(), state.config().deadline, env.height, amount) {
        Ok(pool) => pool,
        Err(e) => {
            return Err(e);
        },
    };
    proof {
        if state@.sound() {
            lemma_advanced_monotone(state@.pool, state@.config.deadline, env.height);
            state@.lemma_with_pool_sound(pool);
        }
    }
    state.set_pool(pool);
    let messages: Vec<WasmCall> = Vec::new();
    assert(calls_view(messages@) =~= Seq::<WasmCallView>::empty());
    Ok(
        HandleResponse {
            messages,
            data: Some(HandleAnswer::AddToRewardPool { status: ResponseStatus::Success }),
        },
    )
}

/// The settlement that a withdrawal by the sender leads to, or why the
/// withdrawal is refused before any message is built: the sender must have
/// what it asks for, and the settlement has to be computable.
pub open spec fn redeem_plan(pre: StateView, env: Env, amount: Option<u128>) -> Result<
    Settlement,
    ContractError,
> {
    let user = pre.user(env.sender@);
    let units = redeem_units(user, amount);
    if units > user.locked {
        Err(ContractError::InsufficientFunds { balance: user.locked, required: units })
    } else if !redeem_feasible(pre.pool, user, pre.config.deadline, env.height, units) {
        Err(ContractError::Arithmetic)
    } else {
        Ok(redeem_settlement(pre.pool, user, pre.config.deadline, env.height, units))
    }
}

/// Works out what a withdrawal by the sender would do, without doing it.
pub fn preview_redeem(state: &State, env: &Env, amount: Option<u128>) -> (r: Result<
    Settlement,
    ContractError,
>)
    ensures
        r == redeem_plan(state@, *env, amount),
{
    let user = state.user(&env.sender);
    plan_redeem(state.pool(), user, state.config().deadline, env.height, amount)
}

/// What `redeem` does.
///
/// The sender is settled against the advanced pool and paid what it is owed.
/// The asked amount, or all that is locked where none is given, leaves the
/// sender's position and the supply and is transferred back.
pub open spec fn redeem_post(
    pre: StateView,
    env: Env,
    amount: Option<u128>,
    post: StateView,
    r: Result<HandleResponse, ContractError>,
) -> bool {
    match redeem_plan(pre, env, amount) {
        Err(error) => rejected(pre, post, r, error),
        Ok(s) => if (s.reward > 0 && !transfer_encodable(env.sender@, s.reward))
            || !transfer_encodable(env.sender@, s.released) {
            rejected(pre, post, r, ContractError::Encoding)
        } else {
            &&& post == pre.with_pool(s.pool).with_user(env.sender@, s.user)
            &&& r is Ok
            &&& r->Ok_0.calls() == reward_calls(
                pre.config.reward_token,
                env.sender@,
                s.reward,
            ).push(transfer_call(pre.config.inc_token, env.sender@, s.released))
            &&& r->Ok_0.data is None
        },
    }
}

/// Hands locked tokens back to the sender, together with the reward it is owed.
pub fn redeem(state: &mut State, env: Env, amount: Option<u128>) -> (r: Result<
    HandleResponse,
    ContractError,
>)
    ensures
        final(state).wf(),
        old(state)@.sound() ==> final(state)@.sound(),
        redeem_post(old(state)@, env, amount, final(state)@, r),
{
    proof {
        use_type_invariant(&*state);
    }
    let s = match preview_redeem(state, &env, amount) {
        Ok(s) => s,
        Err(e) => {
            return Err(e);
        },
    };
    let mut messages: Vec<WasmCall> = Vec::new();
    assert(calls_view(messages@) =~= Seq::<WasmCallView>::empty());
    if s.reward > 0 {
        match push_transfer(&mut messages, &env.sender, s.reward, &state.config().reward_token) {
            Ok(()) => {},
            Err(e) => {
                return Err(e);
            },
        }
    }
    match push_transfer(&mut messages, &env.sender, s.released, &state.config().inc_token) {
        Ok(()) => {},
        Err(e) => {
            return Err(e);
        },
    }
    proof {
        if state@.sound() {
            let user = state@.user(env.sender@);
            lemma_redeem_settlement(
                state@.pool,
                user,
                state@.config.deadline,
                env.height,
                redeem_units(user, amount),
            );
            state@.lemma_settle_sound(env.sender@, s.pool, s.user);
        }
    }
    commit(state, env.sender, s);
    Ok(HandleResponse { messages, data: None })
}

/// The settlement that an emergency withdrawal by the sender leads to, or
/// why it is refused before any message is built.
pub open spec fn emergency_plan(pre: StateView, env: Env) -> Result<Settlement, ContractError> {
    let user = pre.user(env.sender@);
    if !emergency_feasible(pre.pool, user) {
        Err(ContractError::Arithmetic)
    } else {
        Ok(emergency_settlement(pre.pool, user))
    }
}

/// Works out what an emergency withdrawal by the sender would do, without
/// doing it.
pub fn preview_emergency_redeem(state: &State, env: &Env) -> (r: Result<Settlement, ContractError>)
    ensures
        r == emergency_plan(state@, *env),
{
    let user = state.user(&env.sender);
    plan_emergency(state.pool(), user)
}

/// What `emergency_redeem` does.
///
/// The sender gets back all it has locked, its position is emptied and the
/// supply falls by what was locked. The pool is neither advanced nor settled
/// against: whatever reward the sender was owed is forfeited, and what is
/// pending, the accumulator and the checkpoint stay as they were.
pub open spec fn emergency_redeem_post(
    pre: StateView,
    env: Env,
    post: StateView,
    r: Result<HandleResponse, ContractError>,
) -> bool {
    match emergency_plan(pre, env) {
        Err(error) => rejected(pre, post, r, error),
        Ok(s) => if s.released > 0 && !transfer_encodable(env.sender@, s.released) {
            rejected(pre, post, r, ContractError::Encoding)
        } else {
            &&& post == pre.with_pool(s.pool).with_user(env.sender@, s.user)
            &&& r is Ok
            &&& r->Ok_0.calls() == if s.released > 0 {
                seq![transfer_call(pre.config.inc_token, env.sender@, s.released)]
            } else {
                Seq::<WasmCallView>::empty()
            }
            &&& r->Ok_0.data is None
        },
    }
}

/// Hands back all that the sender has locked, without any reward.
pub fn emergency_redeem(state: &mut State, env: Env) -> (r: Result<HandleResponse, ContractError>)
    ensures
        final(state).wf(),
        old(state)@.sound() ==> final(state)@.sound(),
        emergency_redeem_post(old(state)@, env, final(state)@, r),
{
    proof {
        use_type_invariant(&*state);
    }
    let s = match preview_emergency_redeem(state, &env) {
        Ok(s) => s,
        Err(e) => {
            return Err(e);
        },
    };
    let mut messages: Vec<WasmCall> = Vec::new();
    assert(calls_view(messages@) =~= Seq::<WasmCallView>::empty());
    if s.released > 0 {
        match push_transfer(&mut messages, &env.sender, s.released, &state.config().inc_token) {
            Ok(()) => {},
            Err(e) => {
                return Err(e);
            },
        }
    }
    proof {
        if state@.sound() {
            lemma_entitlement_monotone(0, 0, state@.pool.acc_reward_per_share);
            state@.lemma_settle_sound(env.sender@, s.pool, s.user);
        }
    }
    commit(state, env.sender, s);
    Ok(HandleResponse { messages, data: None })
}

} // verus!
