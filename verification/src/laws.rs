//! What holds of the contract as a whole.
//!
//! Each statement here is proved from the contracts of the handlers and from
//! the definitions of the vesting schedule, over the state as a mathematical
//! value.

use crate::accrual::{
    advance_feasible, advanced, blocks_to_go, entitlement, ledger_units, lemma_advanced_monotone,
    lemma_advanced_monotone_in_height, lemma_entitlement_bound, lemma_entitlement_monotone,
    lemma_vested_at_deadline, owed, raw_amount,
};
use crate::constants::REWARD_SCALE;
use crate::contract::{
    allowed_while_stopped, as_response, dispatched, handle_post, is_response, subject_of,
};
use crate::error::ContractError;
use crate::host::{Env, HandleResponse, Step};
use crate::model::{rejected, StateView};
use crate::queries::query_pending_rewards_post;
use crate::msg::{HandleMsg, QueryAnswer};
use crate::settlement::{
    emergency_feasible, emergency_settlement, lemma_lock_settlement, lemma_redeem_settlement,
    lock_feasible, lock_settlement, projected_rewards, projection_height, redeem_settlement,
    redeem_units,
};
use crate::snip20::{transfer_call, transfer_encodable, WasmCallView};
use crate::staking::{emergency_redeem_post, lock_tokens_post, redeem_post, update_rewards_post};
use crate::state::{RewardPool, UserInfo};
use vstd::arithmetic::mul::lemma_mul_basics;
use vstd::prelude::*;

verus! {

/// What the pool's supply exceeds the ledger by.
pub open spec fn surplus(s: StateView) -> int {
    s.pool.inc_token_supply - s.total_locked()
}

/// A deposit changes the supply and the sum of the positions by the same
/// amount, and keeps a sound state sound; a refused deposit changes nothing.
pub proof fn lock_conserves(
    pre: StateView,
    env: Env,
    from: Seq<char>,
    amount: u128,
    post: StateView,
    r: Result<HandleResponse, ContractError>,
)
    requires
        pre.ledger_wf(),
        lock_tokens_post(pre, env, from, amount, post, r),
    ensures
        post.ledger_wf(),
        surplus(post) == surplus(pre),
        pre.sound() ==> post.sound(),
{
    if r is Ok {
        let user = pre.user(from);
        lemma_lock_settlement(pre.pool, user, pre.config.deadline, env.height, amount);
        let s = lock_settlement(pre.pool, user, pre.config.deadline, env.height, amount);
        pre.with_pool(s.pool).lemma_with_user(from, s.user, from);
        if pre.sound() {
            pre.lemma_settle_sound(from, s.pool, s.user);
        }
    }
}

/// A withdrawal changes the supply and the sum of the positions by the same
/// amount, and keeps a sound state sound; a refused withdrawal changes
/// nothing.
pub proof fn redeem_conserves(
    pre: StateView,
    env: Env,
    amount: Option<u128>,
    post: StateView,
    r: Result<HandleResponse, ContractError>,
)
    requires
        pre.ledger_wf(),
        redeem_post(pre, env, amount, post, r),
    ensures
        post.ledger_wf(),
        surplus(post) == surplus(pre),
        pre.sound() ==> post.sound(),
{
    if r is Ok {
        let user = pre.user(env.sender@);
        let units = redeem_units(user, amount);
        lemma_redeem_settlement(pre.pool, user, pre.config.deadline, env.height, units);
        let s = redeem_settlement(pre.pool, user, pre.config.deadline, env.height, units);
        pre.with_pool(s.pool).lemma_with_user(env.sender@, s.user, env.sender@);
        if pre.sound() {
            pre.lemma_settle_sound(env.sender@, s.pool, s.user);
        }
    }
}

/// An emergency withdrawal changes the supply and the sum of the positions
/// by the same amount, and keeps a sound state sound; a refused one changes
/// nothing.
pub proof fn emergency_redeem_conserves(
    pre: StateView,
    env: Env,
    post: StateView,
    r: Result<HandleResponse, ContractError>,
)
    requires
        pre.ledger_wf(),
        emergency_redeem_post(pre, env, post, r),
    ensures
        post.ledger_wf(),
        surplus(post) == surplus(pre),
        pre.sound() ==> post.sound(),
{
    if r is Ok {
        let user = pre.user(env.sender@);
        let s = emergency_settlement(pre.pool, user);
        pre.with_pool(s.pool).lemma_with_user(env.sender@, s.user, env.sender@);
        if pre.sound() {
            lemma_entitlement_monotone(0, 0, pre.pool.acc_reward_per_share);
            pre.lemma_settle_sound(env.sender@, s.pool, s.user);
        }
    }
}

/// A deposit, a withdrawal or an emergency withdrawal, with its circumstances.
pub ghost enum LedgerOp {
    Lock { env: Env, from: Seq<char>, amount: u128 },
    Redeem { env: Env, amount: Option<u128> },
    EmergencyRedeem { env: Env },
}

/// `op` takes the state from `pre` to `post`, whether it succeeds or is refused.
pub open spec fn ledger_step(pre: StateView, op: LedgerOp, post: StateView) -> bool {
    match op {
        LedgerOp::Lock { env, from, amount } => exists|r: Result<HandleResponse, ContractError>|
            lock_tokens_post(pre, env, from, amount, post, r),
        LedgerOp::Redeem { env, amount } => exists|r: Result<HandleResponse, ContractError>|
            redeem_post(pre, env, amount, post, r),
        LedgerOp::EmergencyRedeem { env } => exists|r: Result<HandleResponse, ContractError>|
            emergency_redeem_post(pre, env, post, r),
    }
}

/// `states` is the history of a contract under `ops`: each operation takes
/// one state to the next.
pub open spec fn ledger_history(states: Seq<StateView>, ops: Seq<LedgerOp>) -> bool {
    &&& states.len() == ops.len() + 1
    &&& forall|i: int|
        0 <= i < ops.len() ==> ledger_step(states[i], #[trigger] ops[i], states[i + 1])
}

/// Conservation. Over any sequence of deposits, withdrawals and emergency
/// withdrawals that starts in a sound state, the supply equals the sum of
/// the positions after every operation.
pub proof fn conservation(states: Seq<StateView>, ops: Seq<LedgerOp>, k: int)
    requires
        ledger_history(states, ops),
        states[0].sound(),
        0 <= k < states.len(),
    ensures
        states[k].sound(),
        states[k].total_locked() == states[k].pool.inc_token_supply,
    decreases k,
{
    if k > 0 {
        conservation(states, ops, k - 1);
        let pre = states[k - 1];
        let post = states[k];
        assert(ledger_step(pre, ops[k - 1], post));
        match ops[k - 1] {
            LedgerOp::Lock { env, from, amount } => {
                let r = choose|r: Result<HandleResponse, ContractError>|
                    lock_tokens_post(pre, env, from, amount, post, r);
                lock_conserves(pre, env, from, amount, post, r);
            },
            LedgerOp::Redeem { env, amount } => {
                let r = choose|r: Result<HandleResponse, ContractError>|
                    redeem_post(pre, env, amount, post, r);
                redeem_conserves(pre, env, amount, post, r);
            },
            LedgerOp::EmergencyRedeem { env } => {
                let r = choose|r: Result<HandleResponse, ContractError>|
                    emergency_redeem_post(pre, env, post, r);
                emergency_redeem_conserves(pre, env, post, r);
            },
        }
    }
}

/// Conservation, for every message. Whatever message is handled, and
/// whether it succeeds or is refused, the supply exceeds the sum of the
/// positions afterwards by what it exceeded it before. This holds of a part
/// of the ledger as it holds of the whole.
pub proof fn handle_conserves_surplus(
    pre: StateView,
    env: Env,
    msg: HandleMsg,
    post: StateView,
    r: Result<Step, ContractError>,
)
    requires
        pre.ledger_wf(),
        handle_post(pre, env, msg, post, r),
    ensures
        post.ledger_wf(),
        surplus(post) == surplus(pre),
{
    if post != pre {
        let rr = as_response(r);
        match msg {
            HandleMsg::Redeem { amount } => {
                redeem_conserves(pre, env, amount, post, rr);
            },
            HandleMsg::EmergencyRedeem {  } => {
                emergency_redeem_conserves(pre, env, post, rr);
            },
            HandleMsg::Receive { from, amount, msg: inner, .. } => {
                if inner matches Some(deposit) && *deposit is LockTokens {
                    lock_conserves(pre, env, from@, amount, post, rr);
                }
            },
            _ => {},
        }
    }
}

/// Non-negative entitlement. In a sound state no account is owed a negative
/// reward, whether it has a position or not.
pub proof fn entitlement_never_negative(s: StateView, account: Seq<char>)
    requires
        s.sound(),
    ensures
        owed(s.user(account), s.pool.acc_reward_per_share) >= 0,
{
    s.lemma_user_settled(account);
}

/// Non-negative entitlement, at any height. In a sound state the reward that
/// an account is projected to be owed at `height` is not negative, where the
/// advance to that height can be computed.
pub proof fn projected_entitlement_never_negative(s: StateView, account: Seq<char>, height: u64)
    requires
        s.sound(),
        advance_feasible(s.pool, s.config.deadline, projection_height(s.config.deadline, height)),
    ensures
        projected_rewards(s.pool, s.user(account), s.config.deadline, height) >= 0,
{
    let reached = projection_height(s.config.deadline, height);
    s.lemma_user_settled(account);
    lemma_advanced_monotone(s.pool, s.config.deadline, reached);
    lemma_entitlement_monotone(
        s.user(account).locked,
        s.pool.acc_reward_per_share,
        advanced(s.pool, s.config.deadline, reached).acc_reward_per_share,
    );
}

/// The projected reward does not fall with the height: an account is
/// projected to be owed at a later height at least what it is projected to be
/// owed at a sooner one, where both advances can be computed.
pub proof fn projected_rewards_do_not_fall(
    pool: RewardPool,
    user: UserInfo,
    deadline: u64,
    sooner: u64,
    later: u64,
)
    requires
        sooner <= later,
        advance_feasible(pool, deadline, projection_height(deadline, sooner)),
        advance_feasible(pool, deadline, projection_height(deadline, later)),
    ensures
        owed(user, pool.acc_reward_per_share) <= projected_rewards(pool, user, deadline, sooner)
            <= projected_rewards(pool, user, deadline, later),
{
    let h1 = projection_height(deadline, sooner);
    let h2 = projection_height(deadline, later);
    lemma_advanced_monotone_in_height(pool, deadline, h1, h2);
    let a1 = advanced(pool, deadline, h1).acc_reward_per_share;
    let a2 = advanced(pool, deadline, h2).acc_reward_per_share;
    lemma_entitlement_monotone(user.locked, pool.acc_reward_per_share, a1);
    lemma_entitlement_monotone(user.locked, a1, a2);
}

/// A query of the projected reward in a sound state. It is answered exactly
/// where the advance and the account's entitlement can be computed in 128
/// bits, and refused as arithmetic otherwise: the account's debt never
/// stands in the way. The answer is at least what the account is owed now,
/// which is not negative.
pub proof fn projection_in_a_sound_state(
    pre: StateView,
    address: Seq<char>,
    height: u64,
    r: Result<QueryAnswer, ContractError>,
)
    requires
        pre.sound(),
        query_pending_rewards_post(pre, address, height, r),
    ensures
        ({
            let user = pre.user(address);
            let reached = projection_height(pre.config.deadline, height);
            let p = advanced(pre.pool, pre.config.deadline, reached);
            let computable = advance_feasible(pre.pool, pre.config.deadline, reached)
                && user.locked * p.acc_reward_per_share <= u128::MAX;
            &&& computable <==> r is Ok
            &&& !computable ==> r == Err::<QueryAnswer, ContractError>(ContractError::Arithmetic)
            &&& r is Ok ==> (r->Ok_0 matches QueryAnswer::QueryRewards { rewards } && rewards
                == projected_rewards(pre.pool, user, pre.config.deadline, height) && rewards
                >= owed(user, pre.pool.acc_reward_per_share) >= 0)
        }),
{
    let user = pre.user(address);
    let reached = projection_height(pre.config.deadline, height);
    pre.lemma_user_settled(address);
    if advance_feasible(pre.pool, pre.config.deadline, reached) {
        lemma_advanced_monotone(pre.pool, pre.config.deadline, reached);
        lemma_entitlement_monotone(
            user.locked,
            pre.pool.acc_reward_per_share,
            advanced(pre.pool, pre.config.deadline, reached).acc_reward_per_share,
        );
    }
}

/// What an advance that reaches the deadline adds to the accumulator: all
/// that is pending, scaled, per unit of supply.
pub open spec fn final_gain(pool: RewardPool) -> int {
    (pool.pending_rewards * REWARD_SCALE) / (pool.inc_token_supply as int)
}

/// An advance that reaches the deadline with rewards pending can be computed
/// in 128 bits.
pub open spec fn final_advance_fits(pool: RewardPool, deadline: u64) -> bool {
    &&& blocks_to_go(pool, deadline) * pool.pending_rewards <= u128::MAX
    &&& pool.pending_rewards * REWARD_SCALE <= u128::MAX
    &&& pool.acc_reward_per_share + final_gain(pool) <= u128::MAX
}

/// Full vesting at the deadline. Where somebody has tokens locked, an advance
/// that reaches the deadline from a checkpoint before it leaves nothing
/// pending.
pub proof fn full_vesting_at_deadline(pool: RewardPool, deadline: u64, height: u64)
    requires
        pool.last_reward_block < deadline <= height,
        pool.inc_token_supply != 0,
    ensures
        advanced(pool, deadline, height).pending_rewards == 0,
{
    if pool.pending_rewards != 0 {
        lemma_vested_at_deadline(pool, deadline, height);
    }
}

/// Full vesting at the deadline, in full. Where somebody has tokens locked
/// and rewards are pending, an advance that reaches the deadline from a
/// checkpoint before it can be computed exactly where the products and the
/// new accumulator fit in 128 bits. It then vests all that is pending: the
/// accumulator grows by the scaled pending rewards per unit of supply, the
/// checkpoint moves to the height and the supply stays.
pub proof fn vesting_at_deadline(pool: RewardPool, deadline: u64, height: u64)
    requires
        pool.last_reward_block < deadline <= height,
        pool.inc_token_supply != 0,
        pool.pending_rewards != 0,
    ensures
        advance_feasible(pool, deadline, height) <==> final_advance_fits(pool, deadline),
        final_advance_fits(pool, deadline) ==> advanced(pool, deadline, height) == (RewardPool {
            pending_rewards: 0,
            inc_token_supply: pool.inc_token_supply,
            last_reward_block: height,
            acc_reward_per_share: (pool.acc_reward_per_share + final_gain(pool)) as u128,
        }),
{
    lemma_vested_at_deadline(pool, deadline, height);
}

/// Full vesting at the deadline, for the contract. Under the same
/// conditions an update of the rewards at or past the deadline succeeds
/// exactly where the advance fits in 128 bits, and leaves the fully vested
/// pool; otherwise it is refused as arithmetic and changes nothing.
pub proof fn update_rewards_at_deadline(
    pre: StateView,
    env: Env,
    post: StateView,
    r: Result<RewardPool, ContractError>,
)
    requires
        pre.pool.last_reward_block < pre.config.deadline <= env.height,
        pre.pool.inc_token_supply != 0,
        pre.pool.pending_rewards != 0,
        update_rewards_post(pre, env, post, r),
    ensures
        ({
            let vested = RewardPool {
                pending_rewards: 0,
                inc_token_supply: pre.pool.inc_token_supply,
                last_reward_block: env.height,
                acc_reward_per_share: (pre.pool.acc_reward_per_share + final_gain(
                    pre.pool,
                )) as u128,
            };
            if final_advance_fits(pre.pool, pre.config.deadline) {
                post == pre.with_pool(vested) && r == Ok::<RewardPool, ContractError>(vested)
            } else {
                rejected(pre, post, r, ContractError::Arithmetic)
            }
        }),
{
    vesting_at_deadline(pre.pool, pre.config.deadline, env.height);
}

/// After the deadline was reached nothing vests any more: a later advance
/// changes neither what is pending nor the accumulator nor the supply.
pub proof fn nothing_vests_after_deadline(pool: RewardPool, deadline: u64, height: u64, later: u64)
    requires
        pool.last_reward_block < deadline <= height,
        pool.inc_token_supply != 0,
    ensures
        ({
            let reached = advanced(pool, deadline, height);
            let after = advanced(reached, deadline, later);
            &&& advance_feasible(reached, deadline, later)
            &&& after.pending_rewards == reached.pending_rewards
            &&& after.acc_reward_per_share == reached.acc_reward_per_share
            &&& after.inc_token_supply == reached.inc_token_supply
        }),
{
    full_vesting_at_deadline(pool, deadline, height);
}

/// Once the checkpoint lies past the deadline, an advance changes nothing at all.
pub proof fn advance_past_window_is_noop(pool: RewardPool, deadline: u64, height: u64)
    requires
        pool.last_reward_block > deadline,
    ensures
        advance_feasible(pool, deadline, height),
        advanced(pool, deadline, height) == pool,
{
}

/// Idempotence. A second advance to the same height changes nothing.
pub proof fn advance_is_idempotent(pool: RewardPool, deadline: u64, height: u64)
    ensures
        advance_feasible(advanced(pool, deadline, height), deadline, height),
        advanced(advanced(pool, deadline, height), deadline, height) == advanced(
            pool,
            deadline,
            height,
        ),
{
}

/// Idempotence, for the contract. Advancing the pool twice in one block
/// leaves the state that advancing it once leaves, and hands back the same
/// pool; where the first attempt is refused, so is the second.
pub proof fn update_rewards_is_idempotent(
    pre: StateView,
    env: Env,
    once: StateView,
    r1: Result<RewardPool, ContractError>,
    twice: StateView,
    r2: Result<RewardPool, ContractError>,
)
    requires
        update_rewards_post(pre, env, once, r1),
        update_rewards_post(once, env, twice, r2),
    ensures
        twice == once,
        r2 == r1,
{
    advance_is_idempotent(pre.pool, pre.config.deadline, env.height);
}

/// Pause gating, the refusals. While the contract is stopped, every message
/// but a withdrawal, an emergency withdrawal and a resumption is refused as
/// stopped and changes nothing, whatever else is wrong with it.
pub proof fn stopped_contract_refuses(
    pre: StateView,
    env: Env,
    msg: HandleMsg,
    post: StateView,
    r: Result<Step, ContractError>,
)
    requires
        pre.config.is_stopped,
        !allowed_while_stopped(msg),
        handle_post(pre, env, msg, post, r),
    ensures
        r == Err::<Step, ContractError>(ContractError::Stopped),
        post == pre,
{
}

/// Pause gating, the allow-list. While the contract is stopped, a withdrawal,
/// an emergency withdrawal and a resumption do what their own handlers do:
/// being stopped is no reason to refuse them.
pub proof fn stopped_contract_still_serves(
    pre: StateView,
    env: Env,
    msg: HandleMsg,
    post: StateView,
    r: Result<Step, ContractError>,
)
    requires
        pre.config.is_stopped,
        allowed_while_stopped(msg),
        handle_post(pre, env, msg, post, r),
    ensures
        is_response(r),
        dispatched(pre, env, msg, post, as_response(r)),
        r != Err::<Step, ContractError>(ContractError::Stopped),
{
}

/// Pause gating, a success. The administrator can always resume a stopped
/// contract.
pub proof fn administrator_can_resume(
    pre: StateView,
    env: Env,
    post: StateView,
    r: Result<Step, ContractError>,
)
    requires
        pre.config.is_stopped,
        env.sender@ == pre.config.admin,
        handle_post(pre, env, HandleMsg::ResumeContract {  }, post, r),
    ensures
        r is Ok,
        !post.config.is_stopped,
{
}

/// Soundness is an invariant. Whatever message is handled in a sound state,
/// and whether it succeeds or is refused, the state is sound afterwards: the
/// supply is the sum of the positions and no account is owed a negative
/// reward.
pub proof fn sound_is_invariant(
    pre: StateView,
    env: Env,
    msg: HandleMsg,
    post: StateView,
    r: Result<Step, ContractError>,
)
    requires
        pre.sound(),
        handle_post(pre, env, msg, post, r),
    ensures
        post.sound(),
{
    if post != pre {
        let rr = as_response(r);
        match msg {
            HandleMsg::Redeem { amount } => {
                redeem_conserves(pre, env, amount, post, rr);
            },
            HandleMsg::EmergencyRedeem {  } => {
                emergency_redeem_conserves(pre, env, post, rr);
            },
            HandleMsg::Receive { from, amount, msg: inner, .. } => {
                if inner matches Some(deposit) && *deposit is LockTokens {
                    lock_conserves(pre, env, from@, amount, post, rr);
                } else {
                    lemma_advanced_monotone(pre.pool, pre.config.deadline, env.height);
                    pre.lemma_with_pool_sound(post.pool);
                }
            },
            HandleMsg::UpdateDeadline { height } => {
                lemma_advanced_monotone(pre.pool, pre.config.deadline, env.height);
                pre.lemma_with_pool_sound(post.pool);
            },
            _ => {},
        }
    }
}

/// A message changes the position of one account at most: the account that a
/// transfer notification names, or the sender. Every other account has
/// afterwards what it had before.
pub proof fn handle_touches_one_account(
    pre: StateView,
    env: Env,
    msg: HandleMsg,
    post: StateView,
    r: Result<Step, ContractError>,
    other: Seq<char>,
)
    requires
        pre.ledger_wf(),
        handle_post(pre, env, msg, post, r),
        other != subject_of(env, msg),
    ensures
        post.user(other) == pre.user(other),
{
    if post != pre {
        let account = subject_of(env, msg);
        let rr = as_response(r);
        match msg {
            HandleMsg::Redeem { amount } => {
                let user = pre.user(account);
                let s = redeem_settlement(
                    pre.pool,
                    user,
                    pre.config.deadline,
                    env.height,
                    redeem_units(user, amount),
                );
                pre.with_pool(s.pool).lemma_with_user(account, s.user, other);
            },
            HandleMsg::EmergencyRedeem {  } => {
                let s = emergency_settlement(pre.pool, pre.user(account));
                pre.with_pool(s.pool).lemma_with_user(account, s.user, other);
            },
            HandleMsg::Receive { from, amount, msg: inner, .. } => {
                if inner matches Some(deposit) && *deposit is LockTokens {
                    let user = pre.user(account);
                    let s = lock_settlement(
                        pre.pool,
                        user,
                        pre.config.deadline,
                        env.height,
                        amount,
                    );
                    pre.with_pool(s.pool).lemma_with_user(account, s.user, other);
                }
            },
            _ => {},
        }
    }
}

/// A message changes the stored key digest of its sender at most.
pub proof fn handle_touches_one_key(
    pre: StateView,
    env: Env,
    msg: HandleMsg,
    post: StateView,
    r: Result<Step, ContractError>,
    other: Seq<char>,
)
    requires
        handle_post(pre, env, msg, post, r),
        other != env.sender@,
    ensures
        post.key_hash(other) == pre.key_hash(other),
{
}

/// The messages of an emergency withdrawal of `locked` units: one transfer
/// of the locked token to the sender, or none where nothing was locked.
pub open spec fn emergency_calls(pre: StateView, env: Env, locked: u128) -> Seq<WasmCallView> {
    if locked > 0 {
        seq![transfer_call(pre.config.inc_token, env.sender@, raw_amount(locked) as u128)]
    } else {
        Seq::empty()
    }
}

/// An emergency withdrawal forfeits the reward. It succeeds exactly where
/// what is locked can be handed back: the raw amount fits in 128 bits, the
/// supply holds it, and the transfer can be encoded. The sender then has
/// nothing locked and is owed nothing, now and at whatever the accumulator
/// comes to, however much it was owed before. The supply falls by what was
/// locked; what is pending, the accumulator and the checkpoint stay. The
/// only message is the transfer of the locked token: no reward is paid. A
/// refusal changes nothing.
pub proof fn emergency_redeem_forfeits(
    pre: StateView,
    env: Env,
    post: StateView,
    r: Result<HandleResponse, ContractError>,
)
    requires
        pre.ledger_wf(),
        emergency_redeem_post(pre, env, post, r),
    ensures
        ({
            let user = pre.user(env.sender@);
            &&& r is Ok <==> emergency_feasible(pre.pool, user) && (user.locked > 0
                ==> transfer_encodable(env.sender@, raw_amount(user.locked) as u128))
            &&& r is Err ==> post == pre
            &&& r is Ok ==> {
                &&& post.user(env.sender@) == UserInfo::empty()
                &&& forall|acc: u128| #[trigger] owed(post.user(env.sender@), acc) == 0
                &&& post.pool == (RewardPool {
                    inc_token_supply: (pre.pool.inc_token_supply - user.locked) as u128,
                    ..pre.pool
                })
                &&& r->Ok_0.calls() == emergency_calls(pre, env, user.locked)
                &&& r->Ok_0.data is None
            }
        }),
{
    let user = pre.user(env.sender@);
    if r is Ok {
        let s = emergency_settlement(pre.pool, user);
        pre.with_pool(s.pool).lemma_with_user(env.sender@, s.user, env.sender@);
        assert forall|acc: u128| #[trigger] owed(UserInfo::empty(), acc) == 0 by {
            lemma_mul_basics(acc as int);
            lemma_entitlement_bound(0, acc);
        }
    }
}

/// Right after a deposit the account is owed nothing: what it was owed was
/// paid out, and its debt stands at its whole entitlement.
pub proof fn deposit_settles_the_account(
    pre: StateView,
    env: Env,
    from: Seq<char>,
    amount: u128,
    post: StateView,
    r: Result<HandleResponse, ContractError>,
)
    requires
        pre.ledger_wf(),
        r is Ok,
        lock_tokens_post(pre, env, from, amount, post, r),
    ensures
        owed(post.user(from), post.pool.acc_reward_per_share) == 0,
{
    let user = pre.user(from);
    lemma_lock_settlement(pre.pool, user, pre.config.deadline, env.height, amount);
    let s = lock_settlement(pre.pool, user, pre.config.deadline, env.height, amount);
    pre.with_pool(s.pool).lemma_with_user(from, s.user, from);
}

/// A newcomer earns nothing for the past. The first deposit of an account,
/// coming from the locked token's contract, succeeds exactly where the
/// settlement can be computed and is refused as arithmetic otherwise, with
/// nothing changed. On success the account's position is the deposit in
/// ledger units with its debt taken from the advanced accumulator, so that it
/// is owed nothing of what vested before; no message goes out; and every
/// other account has the position it had.
pub proof fn newcomer_earns_nothing_for_the_past(
    pre: StateView,
    env: Env,
    from: Seq<char>,
    amount: u128,
    post: StateView,
    r: Result<HandleResponse, ContractError>,
)
    requires
        pre.ledger_wf(),
        pre.user(from) == UserInfo::empty(),
        env.sender@ == pre.config.inc_token.address,
        lock_tokens_post(pre, env, from, amount, post, r),
    ensures
        ({
            let p = advanced(pre.pool, pre.config.deadline, env.height);
            let units = ledger_units(amount);
            let feasible = lock_feasible(
                pre.pool,
                UserInfo::empty(),
                pre.config.deadline,
                env.height,
                amount,
            );
            &&& r is Ok <==> feasible
            &&& !feasible ==> rejected(pre, post, r, ContractError::Arithmetic)
            &&& r is Ok ==> {
                &&& post.user(from) == (UserInfo {
                    locked: units,
                    debt: entitlement(units, p.acc_reward_per_share) as u128,
                })
                &&& post.user(from).debt == entitlement(units, p.acc_reward_per_share)
                &&& post.pool.acc_reward_per_share == p.acc_reward_per_share
                &&& owed(post.user(from), post.pool.acc_reward_per_share) == 0
                &&& r->Ok_0.calls() == Seq::<WasmCallView>::empty()
                &&& forall|other: Seq<char>|
                    other != from ==> #[trigger] post.user(other) == pre.user(other)
            }
        }),
{
    if r is Ok {
        let user = pre.user(from);
        lemma_lock_settlement(pre.pool, user, pre.config.deadline, env.height, amount);
        let s = lock_settlement(pre.pool, user, pre.config.deadline, env.height, amount);
        pre.with_pool(s.pool).lemma_with_user(from, s.user, from);
        assert forall|other: Seq<char>| other != from implies #[trigger] post.user(other)
            == pre.user(other) by {
            pre.with_pool(s.pool).lemma_with_user(from, s.user, other);
        }
    }
}

} // verus!
