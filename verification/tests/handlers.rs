use staking_rewards::contract::{
    add_to_pool, change_admin, claim_reward_pool, emergency_redeem, enforce_admin, handle, init,
    lock_tokens, preview_emergency_redeem, preview_lock_tokens, preview_redeem, query,
    query_deposit, query_pending_rewards, receive, redeem, resume_contract, stop_contract, subject,
    sweep_reward_pool, update_deadline, update_inc_token, update_reward_token, update_rewards,
    State,
};
use staking_rewards::settlement::Settlement;
use staking_rewards::error::ContractError;
use staking_rewards::host::{Env, HandleResponse, Step};
use staking_rewards::msg::{HandleAnswer, HandleMsg, InitMsg, QueryAnswer, QueryMsg, ResponseStatus};
use staking_rewards::state::{RewardPool, Snip20, UserInfo};

const UNIT: u128 = 1_000_000_000_000;

fn env(sender: &str, height: u64) -> Env {
    Env {
        height,
        time: 1_571_797_419,
        sender: sender.to_string(),
        contract_address: "staking".to_string(),
        contract_code_hash: "c0de".to_string(),
    }
}

fn token(address: &str, hash: &str) -> Snip20 {
    Snip20 { address: address.to_string(), contract_hash: hash.to_string() }
}

fn fresh(deadline: u128, claim: u128) -> State {
    let msg = InitMsg {
        reward_token: token("scrt", "1"),
        inc_token: token("eth", "2"),
        deadline,
        pool_claim_block: claim,
        viewing_key: "123".to_string(),
        prng_seed: b"seed".to_vec(),
    };
    init(env("admin", 1), msg).unwrap().0
}

fn pool(pending: u128, supply: u128, last: u64, acc: u128) -> RewardPool {
    RewardPool {
        pending_rewards: pending,
        inc_token_supply: supply,
        last_reward_block: last,
        acc_reward_per_share: acc,
    }
}

fn user(state: &State, name: &str) -> UserInfo {
    state.user(&name.to_string())
}

fn owed(state: &State, name: &str, height: u64) -> u128 {
    match query_pending_rewards(state, &name.to_string(), height).unwrap() {
        QueryAnswer::QueryRewards { rewards } => rewards,
        other => panic!("{:?}", other),
    }
}

fn done(step: Step) -> HandleResponse {
    match step {
        Step::Done(response) => response,
        other => panic!("{:?}", other),
    }
}

fn total_locked(state: &State) -> u128 {
    let mut sum = 0;
    for i in 0..state.accounts_len() {
        sum += state.account_at(i).unwrap().1.locked;
    }
    sum
}

fn text(bytes: &[u8]) -> String {
    String::from_utf8(bytes.to_vec()).unwrap()
}

#[test]
fn entitlement_stays_zero_until_rewards_are_added() {
    let mut state = fresh(1_000_001, 0);
    let response = lock_tokens(&mut state, env("eth", 1), "alice".to_string(), 1000 * UNIT).unwrap();
    assert!(response.messages.is_empty());
    assert_eq!(response.data, Some(HandleAnswer::LockTokens { status: ResponseStatus::Success }));
    assert_eq!(user(&state, "alice"), UserInfo { locked: 1000, debt: 0 });
    assert_eq!(state.pool(), pool(0, 1000, 1, 0));
    assert_eq!(owed(&state, "alice", 1), 0);
    assert_eq!(owed(&state, "alice", 2), 0);
    assert_eq!(owed(&state, "alice", 500_000), 0);

    add_to_pool(&mut state, env("scrt", 2), 500_000_000_000).unwrap();
    assert_eq!(state.pool(), pool(500_000_000_000, 1000, 2, 0));
    assert_eq!(owed(&state, "alice", 2), 0);
    // One block of a window of 999,999: half a reward token, in its smallest unit.
    assert_eq!(owed(&state, "alice", 3), 500_000);

    assert_eq!(update_rewards(&mut state, &env("anyone", 3)), Ok(pool(499_999_500_000, 1000, 3, 500_000_000_000_000)));
    assert_eq!(owed(&state, "alice", 3), 500_000);
}

#[test]
fn small_reward_over_a_long_window_truncates_to_zero() {
    let mut state = fresh(1_000_001, 0);
    lock_tokens(&mut state, env("eth", 1), "alice".to_string(), 1000 * UNIT).unwrap();
    add_to_pool(&mut state, env("scrt", 2), 500_000).unwrap();
    assert_eq!(owed(&state, "alice", 3), 0);
    assert_eq!(update_rewards(&mut state, &env("anyone", 3)), Ok(pool(500_000, 1000, 3, 0)));
}

#[test]
fn newcomer_earns_nothing_for_the_past() {
    let mut state = fresh(1_000_001, 0);
    lock_tokens(&mut state, env("eth", 1), "alice".to_string(), 1000 * UNIT).unwrap();
    add_to_pool(&mut state, env("scrt", 2), 500_000_000_000).unwrap();

    let response = lock_tokens(&mut state, env("eth", 4), "bob".to_string(), 3000 * UNIT).unwrap();
    assert!(response.messages.is_empty());
    assert_eq!(state.pool(), pool(499_998_999_999, 4000, 4, 1_000_001_000_000_000));
    assert_eq!(user(&state, "bob"), UserInfo { locked: 3000, debt: 3_000_003 });
    assert_eq!(owed(&state, "bob", 4), 0);
    assert_eq!(owed(&state, "alice", 4), 1_000_001);

    assert_eq!(owed(&state, "alice", 5), 1_125_001);
    assert_eq!(owed(&state, "bob", 5), 375_000);
}

#[test]
fn second_deposit_pays_the_reward_out() {
    let mut state = fresh(1_000_001, 0);
    lock_tokens(&mut state, env("eth", 1), "alice".to_string(), 1000 * UNIT).unwrap();
    add_to_pool(&mut state, env("scrt", 2), 500_000_000_000).unwrap();
    let response = lock_tokens(&mut state, env("eth", 3), "alice".to_string(), 1000 * UNIT).unwrap();
    assert_eq!(response.messages.len(), 1);
    let call = &response.messages[0];
    assert_eq!(call.contract_addr, "scrt");
    assert_eq!(call.callback_code_hash, "1");
    assert_eq!(call.msg.len(), 256);
    assert_eq!(
        text(&call.msg).trim_end(),
        "{\"transfer\":{\"recipient\":\"alice\",\"amount\":\"500000\",\"memo\":null,\"padding\":null}}"
    );
    assert_eq!(user(&state, "alice"), UserInfo { locked: 2000, debt: 1_000_000 });
    assert_eq!(owed(&state, "alice", 3), 0);
    assert_eq!(state.pool(), pool(499_999_500_000, 2000, 3, 500_000_000_000_000));
}

#[test]
fn redeem_pays_reward_and_returns_tokens() {
    let mut state = fresh(1_000_001, 0);
    lock_tokens(&mut state, env("eth", 1), "alice".to_string(), 1000 * UNIT).unwrap();
    add_to_pool(&mut state, env("scrt", 2), 500_000_000_000).unwrap();
    let response = redeem(&mut state, env("alice", 3), Some(400 * UNIT + 17)).unwrap();
    assert_eq!(response.data, None);
    assert_eq!(response.messages.len(), 2);
    assert_eq!(response.messages[0].contract_addr, "scrt");
    assert_eq!(response.messages[0].callback_code_hash, "1");
    assert_eq!(
        text(&response.messages[0].msg).trim_end(),
        "{\"transfer\":{\"recipient\":\"alice\",\"amount\":\"500000\",\"memo\":null,\"padding\":null}}"
    );
    assert_eq!(response.messages[1].contract_addr, "eth");
    assert_eq!(response.messages[1].callback_code_hash, "2");
    assert_eq!(response.messages[1].msg.len(), 256);
    assert_eq!(
        text(&response.messages[1].msg).trim_end(),
        "{\"transfer\":{\"recipient\":\"alice\",\"amount\":\"400000000000000\",\"memo\":null,\"padding\":null}}"
    );
    assert_eq!(user(&state, "alice"), UserInfo { locked: 600, debt: 300_000 });
    assert_eq!(state.pool(), pool(499_999_500_000, 600, 3, 500_000_000_000_000));
}

#[test]
fn previews_work_out_a_transaction_without_doing_it() {
    let mut state = fresh(1_000_001, 0);
    lock_tokens(&mut state, env("eth", 1), "alice".to_string(), 1000 * UNIT).unwrap();
    add_to_pool(&mut state, env("scrt", 2), 500_000_000_000).unwrap();
    let before = state.pool();

    assert_eq!(
        preview_lock_tokens(&state, &env("eth", 3), &"alice".to_string(), 1000 * UNIT),
        Ok(Settlement {
            pool: pool(499_999_500_000, 2000, 3, 500_000_000_000_000),
            user: UserInfo { locked: 2000, debt: 1_000_000 },
            reward: 500_000,
            released: 0,
        })
    );
    assert_eq!(
        preview_lock_tokens(&state, &env("scrt", 3), &"alice".to_string(), 1000 * UNIT),
        Err(ContractError::UnsupportedToken)
    );
    assert_eq!(
        preview_redeem(&state, &env("alice", 3), Some(400 * UNIT)),
        Ok(Settlement {
            pool: pool(499_999_500_000, 600, 3, 500_000_000_000_000),
            user: UserInfo { locked: 600, debt: 300_000 },
            reward: 500_000,
            released: 400 * UNIT,
        })
    );
    assert_eq!(
        preview_redeem(&state, &env("bob", 3), Some(UNIT)),
        Err(ContractError::InsufficientFunds { balance: 0, required: 1 })
    );
    assert_eq!(
        preview_emergency_redeem(&state, &env("alice", 3)),
        Ok(Settlement {
            pool: pool(500_000_000_000, 0, 2, 0),
            user: UserInfo { locked: 0, debt: 0 },
            reward: 0,
            released: 1000 * UNIT,
        })
    );
    assert_eq!(
        preview_emergency_redeem(&state, &env("bob", 3)),
        Ok(Settlement {
            pool: before,
            user: UserInfo { locked: 0, debt: 0 },
            reward: 0,
            released: 0,
        })
    );

    assert_eq!(state.pool(), before);
    assert_eq!(user(&state, "alice"), UserInfo { locked: 1000, debt: 0 });
    assert_eq!(state.accounts_len(), 1);
}

#[test]
fn redeem_without_amount_returns_everything() {
    let mut state = fresh(1_000_001, 0);
    lock_tokens(&mut state, env("eth", 1), "alice".to_string(), 1000 * UNIT).unwrap();
    let response = redeem(&mut state, env("alice", 3), None).unwrap();
    assert_eq!(response.messages.len(), 1);
    assert_eq!(response.messages[0].contract_addr, "eth");
    assert_eq!(
        text(&response.messages[0].msg).trim_end(),
        "{\"transfer\":{\"recipient\":\"alice\",\"amount\":\"1000000000000000\",\"memo\":null,\"padding\":null}}"
    );
    assert_eq!(user(&state, "alice"), UserInfo { locked: 0, debt: 0 });
    assert_eq!(state.pool().inc_token_supply, 0);
}

#[test]
fn redeem_of_more_than_is_locked_is_refused() {
    let mut state = fresh(1_000_001, 0);
    lock_tokens(&mut state, env("eth", 1), "alice".to_string(), 1000 * UNIT).unwrap();
    let before = state.pool();
    assert_eq!(
        redeem(&mut state, env("alice", 3), Some(1001 * UNIT)),
        Err(ContractError::InsufficientFunds { balance: 1000, required: 1001 })
    );
    assert_eq!(
        redeem(&mut state, env("stranger", 3), Some(UNIT)),
        Err(ContractError::InsufficientFunds { balance: 0, required: 1 })
    );
    assert_eq!(state.pool(), before);
    assert_eq!(user(&state, "alice"), UserInfo { locked: 1000, debt: 0 });
}

#[test]
fn emergency_redeem_forfeits_the_reward() {
    let mut state = fresh(1_000_001, 0);
    lock_tokens(&mut state, env("eth", 1), "alice".to_string(), 1000 * UNIT).unwrap();
    add_to_pool(&mut state, env("scrt", 2), 500_000_000_000).unwrap();
    update_rewards(&mut state, &env("anyone", 3)).unwrap();
    assert_eq!(owed(&state, "alice", 3), 500_000);
    let before = state.pool();

    let response = emergency_redeem(&mut state, env("alice", 3)).unwrap();
    assert_eq!(response.data, None);
    assert_eq!(response.messages.len(), 1);
    assert_eq!(response.messages[0].contract_addr, "eth");
    assert_eq!(response.messages[0].callback_code_hash, "2");
    assert_eq!(
        text(&response.messages[0].msg).trim_end(),
        "{\"transfer\":{\"recipient\":\"alice\",\"amount\":\"1000000000000000\",\"memo\":null,\"padding\":null}}"
    );
    assert_eq!(user(&state, "alice"), UserInfo { locked: 0, debt: 0 });
    assert_eq!(owed(&state, "alice", 3), 0);
    assert_eq!(owed(&state, "alice", 1_000_001), 0);
    // What was locked leaves the supply; the rest of the pool is left alone.
    assert_eq!(before, pool(499_999_500_000, 1000, 3, 500_000_000_000_000));
    assert_eq!(state.pool(), pool(499_999_500_000, 0, 3, 500_000_000_000_000));
    assert_eq!(total_locked(&state), state.pool().inc_token_supply);
}

#[test]
fn emergency_redeem_is_open_while_the_contract_is_active() {
    let mut state = fresh(1_000, 0);
    lock_tokens(&mut state, env("eth", 1), "alice".to_string(), 7 * UNIT).unwrap();
    lock_tokens(&mut state, env("eth", 1), "bob".to_string(), 5 * UNIT).unwrap();
    add_to_pool(&mut state, env("scrt", 2), 1_000_000).unwrap();
    assert!(!state.config().is_stopped);
    let before = state.pool();

    let response = done(handle(&mut state, env("alice", 9), HandleMsg::EmergencyRedeem {}).unwrap());
    assert_eq!(response.data, None);
    assert_eq!(response.messages.len(), 1);
    assert_eq!(response.messages[0].contract_addr, "eth");
    assert_eq!(response.messages[0].callback_code_hash, "2");
    assert_eq!(
        text(&response.messages[0].msg).trim_end(),
        "{\"transfer\":{\"recipient\":\"alice\",\"amount\":\"7000000000000\",\"memo\":null,\"padding\":null}}"
    );
    assert_eq!(user(&state, "alice"), UserInfo { locked: 0, debt: 0 });
    assert_eq!(user(&state, "bob"), UserInfo { locked: 5, debt: 0 });
    // The pool is not advanced: only the supply changes.
    assert_eq!(before, pool(1_000_000, 12, 2, 0));
    assert_eq!(state.pool(), pool(1_000_000, 5, 2, 0));
    assert_eq!(total_locked(&state), state.pool().inc_token_supply);
    assert_eq!(owed(&state, "alice", 9), 0);
    assert_eq!(owed(&state, "alice", 1_000), 0);
}

#[test]
fn emergency_redeem_of_an_empty_position_sends_nothing() {
    let mut state = fresh(100, 0);
    let response = emergency_redeem(&mut state, env("nobody", 3)).unwrap();
    assert!(response.messages.is_empty());
    assert_eq!(response.data, None);
    assert_eq!(user(&state, "nobody"), UserInfo { locked: 0, debt: 0 });
    assert_eq!(state.pool(), pool(0, 0, 0, 0));
}

#[test]
fn projected_reward_does_not_fall_with_the_height() {
    let mut state = fresh(50, 0);
    lock_tokens(&mut state, env("eth", 1), "alice".to_string(), 3 * UNIT).unwrap();
    add_to_pool(&mut state, env("scrt", 2), 1_000).unwrap();
    lock_tokens(&mut state, env("eth", 10), "bob".to_string(), 7 * UNIT).unwrap();
    for name in ["alice", "bob", "carol"] {
        let now = owed(&state, name, 10);
        let mut last = now;
        for height in 0..60 {
            let projected = owed(&state, name, height);
            assert!(projected >= now);
            assert!(projected >= last);
            last = projected;
        }
        assert_eq!(owed(&state, name, 50), owed(&state, name, 10_000));
    }
    // 8 of 48 blocks had passed when bob came: 166 of 1000 vested to alice's 3 units.
    assert_eq!(owed(&state, "alice", 10), 165);
    assert_eq!(owed(&state, "bob", 10), 0);
    assert_eq!(owed(&state, "alice", 50), 416);
    assert_eq!(owed(&state, "bob", 50), 584);
}

#[test]
fn supply_equals_the_sum_of_the_positions_after_deposits_and_withdrawals() {
    let mut state = fresh(1_000, 0);
    assert_eq!(total_locked(&state), state.pool().inc_token_supply);
    lock_tokens(&mut state, env("eth", 1), "alice".to_string(), 10 * UNIT).unwrap();
    assert_eq!(total_locked(&state), state.pool().inc_token_supply);
    lock_tokens(&mut state, env("eth", 2), "bob".to_string(), 25 * UNIT).unwrap();
    assert_eq!(total_locked(&state), state.pool().inc_token_supply);
    add_to_pool(&mut state, env("scrt", 3), 1_000_000).unwrap();
    redeem(&mut state, env("alice", 4), Some(4 * UNIT)).unwrap();
    assert_eq!(total_locked(&state), state.pool().inc_token_supply);
    lock_tokens(&mut state, env("eth", 5), "alice".to_string(), UNIT).unwrap();
    assert_eq!(total_locked(&state), state.pool().inc_token_supply);
    assert!(redeem(&mut state, env("bob", 6), Some(26 * UNIT)).is_err());
    assert_eq!(total_locked(&state), state.pool().inc_token_supply);
    redeem(&mut state, env("bob", 7), None).unwrap();
    assert_eq!(total_locked(&state), state.pool().inc_token_supply);
    assert_eq!(state.pool().inc_token_supply, 7);
    assert_eq!(total_locked(&state), 7);
    lock_tokens(&mut state, env("eth", 8), "carol".to_string(), 5 * UNIT).unwrap();
    emergency_redeem(&mut state, env("alice", 9)).unwrap();
    assert_eq!(total_locked(&state), state.pool().inc_token_supply);
    assert_eq!(state.pool().inc_token_supply, 5);
    emergency_redeem(&mut state, env("carol", 9)).unwrap();
    assert_eq!(total_locked(&state), state.pool().inc_token_supply);
    assert_eq!(state.pool().inc_token_supply, 0);
}

#[test]
fn no_account_is_ever_owed_a_negative_reward() {
    let mut state = fresh(50, 0);
    lock_tokens(&mut state, env("eth", 1), "alice".to_string(), 3 * UNIT).unwrap();
    add_to_pool(&mut state, env("scrt", 2), 1_000).unwrap();
    lock_tokens(&mut state, env("eth", 10), "bob".to_string(), 7 * UNIT).unwrap();
    redeem(&mut state, env("alice", 20), Some(UNIT)).unwrap();
    for height in [0, 1, 20, 21, 35, 50, 51, 10_000] {
        for name in ["alice", "bob", "carol"] {
            assert!(query_pending_rewards(&state, &name.to_string(), height).is_ok());
        }
    }
    for i in 0..state.accounts_len() {
        let (_, position) = state.account_at(i).unwrap();
        let earned = position.locked * state.pool().acc_reward_per_share / UNIT;
        assert!(position.debt <= earned);
    }
}

#[test]
fn rewards_are_fully_vested_at_the_deadline() {
    let mut state = fresh(50, 0);
    lock_tokens(&mut state, env("eth", 1), "alice".to_string(), 3 * UNIT).unwrap();
    add_to_pool(&mut state, env("scrt", 2), 1_000).unwrap();
    update_rewards(&mut state, &env("anyone", 17)).unwrap();
    update_rewards(&mut state, &env("anyone", 50)).unwrap();
    assert_eq!(state.pool().pending_rewards, 0);
    let at_deadline = state.pool();
    update_rewards(&mut state, &env("anyone", 51)).unwrap();
    assert_eq!(state.pool().pending_rewards, 0);
    assert_eq!(state.pool().acc_reward_per_share, at_deadline.acc_reward_per_share);
    let past = state.pool();
    update_rewards(&mut state, &env("anyone", 52)).unwrap();
    assert_eq!(state.pool(), past);
}

#[test]
fn updating_rewards_twice_in_one_block_equals_once() {
    let mut state = fresh(50, 0);
    lock_tokens(&mut state, env("eth", 1), "alice".to_string(), 3 * UNIT).unwrap();
    add_to_pool(&mut state, env("scrt", 2), 1_000).unwrap();
    let once = update_rewards(&mut state, &env("anyone", 17)).unwrap();
    let twice = update_rewards(&mut state, &env("anyone", 17)).unwrap();
    assert_eq!(once, twice);
    assert_eq!(state.pool(), once);
}

#[test]
fn deposit_from_another_token_is_refused() {
    let mut state = fresh(100, 0);
    assert_eq!(
        lock_tokens(&mut state, env("scrt", 1), "alice".to_string(), UNIT),
        Err(ContractError::UnsupportedToken)
    );
    assert_eq!(
        add_to_pool(&mut state, env("eth", 1), 5),
        Err(ContractError::UnsupportedToken)
    );
    assert_eq!(state.accounts_len(), 0);
    assert_eq!(state.pool(), pool(0, 0, 0, 0));
}

#[test]
fn arithmetic_fault_leaves_the_state_alone() {
    let mut state = fresh(100, 0);
    lock_tokens(&mut state, env("eth", 1), "alice".to_string(), UNIT).unwrap();
    add_to_pool(&mut state, env("scrt", 1), u128::MAX).unwrap();
    let before = state.pool();
    assert_eq!(update_rewards(&mut state, &env("anyone", 3)), Err(ContractError::Arithmetic));
    assert_eq!(
        lock_tokens(&mut state, env("eth", 3), "bob".to_string(), UNIT),
        Err(ContractError::Arithmetic)
    );
    assert_eq!(redeem(&mut state, env("alice", 3), None), Err(ContractError::Arithmetic));
    assert_eq!(add_to_pool(&mut state, env("scrt", 3), 1), Err(ContractError::Arithmetic));
    assert_eq!(state.pool(), before);
    assert_eq!(user(&state, "alice"), UserInfo { locked: 1, debt: 0 });
    assert_eq!(user(&state, "bob"), UserInfo { locked: 0, debt: 0 });
}

fn not_on_the_allow_list() -> Vec<HandleMsg> {
    vec![
        HandleMsg::LockTokens {},
        HandleMsg::AddToRewardPool {},
        HandleMsg::CreateViewingKey { entropy: "e".to_string(), padding: None },
        HandleMsg::SetViewingKey { key: "k".to_string(), padding: None },
        HandleMsg::Receive {
            sender: "alice".to_string(),
            from: "alice".to_string(),
            amount: UNIT,
            msg: Some(Box::new(HandleMsg::LockTokens {})),
        },
        HandleMsg::UpdateIncentivizedToken { new_token: token("x", "y") },
        HandleMsg::UpdateRewardToken { new_token: token("x", "y") },
        HandleMsg::UpdateDeadline { height: 7 },
        HandleMsg::ClaimRewardPool { recipient: None },
        HandleMsg::StopContract {},
        HandleMsg::ChangeAdmin { address: "mallory".to_string() },
    ]
}

#[test]
fn stopped_contract_refuses_all_but_the_allow_list() {
    let mut state = fresh(100, 0);
    lock_tokens(&mut state, env("eth", 1), "alice".to_string(), 5 * UNIT).unwrap();
    done(handle(&mut state, env("admin", 2), HandleMsg::StopContract {}).unwrap());
    assert!(state.config().is_stopped);
    let before = state.pool();

    for sender in ["admin", "eth", "alice"] {
        for msg in not_on_the_allow_list() {
            assert_eq!(handle(&mut state, env(sender, 3), msg), Err(ContractError::Stopped));
        }
    }
    assert_eq!(state.pool(), before);
    assert_eq!(state.config().admin, "admin");
    assert_eq!(state.config().deadline, 100);
    assert_eq!(user(&state, "alice"), UserInfo { locked: 5, debt: 0 });
    assert_eq!(state.key_hash(&"alice".to_string()), None);
}

#[test]
fn stopped_contract_still_serves_the_allow_list() {
    let mut state = fresh(100, 0);
    lock_tokens(&mut state, env("eth", 1), "alice".to_string(), 5 * UNIT).unwrap();
    lock_tokens(&mut state, env("eth", 1), "bob".to_string(), 2 * UNIT).unwrap();
    stop_contract(&mut state, env("admin", 2)).unwrap();

    let response =
        done(handle(&mut state, env("alice", 3), HandleMsg::Redeem { amount: Some(2 * UNIT) }).unwrap());
    assert_eq!(response.messages.len(), 1);
    assert_eq!(user(&state, "alice"), UserInfo { locked: 3, debt: 0 });

    let response = done(handle(&mut state, env("bob", 3), HandleMsg::EmergencyRedeem {}).unwrap());
    assert_eq!(response.messages.len(), 1);
    assert_eq!(user(&state, "bob"), UserInfo { locked: 0, debt: 0 });

    assert_eq!(
        handle(&mut state, env("alice", 3), HandleMsg::ResumeContract {}),
        Err(ContractError::Unauthorized)
    );
    assert!(state.config().is_stopped);
    let response = done(handle(&mut state, env("admin", 3), HandleMsg::ResumeContract {}).unwrap());
    assert_eq!(response.data, Some(HandleAnswer::ResumeContract { status: ResponseStatus::Success }));
    assert!(!state.config().is_stopped);
}

#[test]
fn active_contract_takes_deposits_through_notifications_only() {
    let mut state = fresh(100, 0);
    for sender in ["admin", "eth", "alice"] {
        assert_eq!(
            handle(&mut state, env(sender, 2), HandleMsg::LockTokens {}),
            Err(ContractError::UnknownAction)
        );
        assert_eq!(
            handle(&mut state, env(sender, 2), HandleMsg::AddToRewardPool {}),
            Err(ContractError::UnknownAction)
        );
        assert_eq!(
            handle(&mut state, env(sender, 2), HandleMsg::ResumeContract {}),
            Err(ContractError::UnknownAction)
        );
    }
    let deposit = HandleMsg::Receive {
        sender: "alice".to_string(),
        from: "alice".to_string(),
        amount: 5 * UNIT,
        msg: Some(Box::new(HandleMsg::LockTokens {})),
    };
    done(handle(&mut state, env("eth", 2), deposit).unwrap());
    assert_eq!(user(&state, "alice"), UserInfo { locked: 5, debt: 0 });
    let top_up = HandleMsg::Receive {
        sender: "funder".to_string(),
        from: "funder".to_string(),
        amount: 77,
        msg: Some(Box::new(HandleMsg::AddToRewardPool {})),
    };
    let response = done(handle(&mut state, env("scrt", 3), top_up).unwrap());
    assert_eq!(response.data, Some(HandleAnswer::AddToRewardPool { status: ResponseStatus::Success }));
    assert_eq!(state.pool(), pool(77, 5, 3, 0));
}

#[test]
fn notification_inside_a_notification_is_refused() {
    let mut state = fresh(100, 0);
    let inner = HandleMsg::Receive {
        sender: "alice".to_string(),
        from: "alice".to_string(),
        amount: UNIT,
        msg: Some(Box::new(HandleMsg::LockTokens {})),
    };
    assert_eq!(
        receive(&mut state, env("eth", 2), "alice".to_string(), UNIT, Some(inner)),
        Err(ContractError::RecursiveReceive)
    );
    let nested = HandleMsg::Receive {
        sender: "alice".to_string(),
        from: "alice".to_string(),
        amount: UNIT,
        msg: Some(Box::new(HandleMsg::Receive {
            sender: "alice".to_string(),
            from: "alice".to_string(),
            amount: UNIT,
            msg: None,
        })),
    };
    assert_eq!(handle(&mut state, env("eth", 2), nested), Err(ContractError::RecursiveReceive));
    assert_eq!(state.accounts_len(), 0);
}

#[test]
fn notification_with_an_unreadable_payload_is_refused() {
    let mut state = fresh(100, 0);
    assert_eq!(
        receive(&mut state, env("eth", 2), "alice".to_string(), UNIT, None),
        Err(ContractError::UnreadablePayload)
    );
    let garbled = HandleMsg::Receive {
        sender: "alice".to_string(),
        from: "alice".to_string(),
        amount: UNIT,
        msg: None,
    };
    assert_eq!(handle(&mut state, env("eth", 2), garbled), Err(ContractError::UnreadablePayload));
    stop_contract(&mut state, env("admin", 3)).unwrap();
    let garbled = HandleMsg::Receive {
        sender: "alice".to_string(),
        from: "alice".to_string(),
        amount: UNIT,
        msg: None,
    };
    assert_eq!(handle(&mut state, env("eth", 4), garbled), Err(ContractError::Stopped));
    assert_eq!(state.accounts_len(), 0);
}

#[test]
fn notification_with_another_operation_is_refused() {
    let mut state = fresh(100, 0);
    assert_eq!(
        receive(
            &mut state,
            env("eth", 2),
            "alice".to_string(),
            UNIT,
            Some(HandleMsg::Redeem { amount: None })
        ),
        Err(ContractError::IllegalReceive)
    );
    assert_eq!(
        receive(
            &mut state,
            env("admin", 2),
            "admin".to_string(),
            UNIT,
            Some(HandleMsg::StopContract {})
        ),
        Err(ContractError::IllegalReceive)
    );
    assert!(!state.config().is_stopped);
}

#[test]
fn only_the_administrator_reconfigures() {
    let mut state = fresh(100, 10);
    assert_eq!(enforce_admin(state.config(), &env("admin", 1)), Ok(()));
    assert_eq!(enforce_admin(state.config(), &env("alice", 1)), Err(ContractError::Unauthorized));
    assert_eq!(
        update_inc_token(&mut state, env("alice", 2), token("x", "y")),
        Err(ContractError::Unauthorized)
    );
    assert_eq!(
        update_reward_token(&mut state, env("alice", 2), token("x", "y")),
        Err(ContractError::Unauthorized)
    );
    assert_eq!(update_deadline(&mut state, env("alice", 2), 5), Err(ContractError::Unauthorized));
    assert_eq!(stop_contract(&mut state, env("alice", 2)), Err(ContractError::Unauthorized));
    assert_eq!(resume_contract(&mut state, env("alice", 2)), Err(ContractError::Unauthorized));
    assert_eq!(
        change_admin(&mut state, env("alice", 2), "alice".to_string()),
        Err(ContractError::Unauthorized)
    );
    assert_eq!(
        claim_reward_pool(&state, env("alice", 20), None),
        Err(ContractError::Unauthorized)
    );
    assert_eq!(state.config().admin, "admin");
    assert_eq!(state.config().inc_token, token("eth", "2"));
    assert_eq!(state.config().reward_token, token("scrt", "1"));
    assert_eq!(state.config().deadline, 100);
    assert!(!state.config().is_stopped);
}

#[test]
fn administrator_reconfigures() {
    let mut state = fresh(100, 10);
    let response = update_inc_token(&mut state, env("admin", 2), token("dai", "3")).unwrap();
    assert_eq!(
        response.data,
        Some(HandleAnswer::UpdateIncentivizedToken { status: ResponseStatus::Success })
    );
    assert_eq!(state.config().inc_token, token("dai", "3"));
    let response = update_reward_token(&mut state, env("admin", 2), token("sefi", "4")).unwrap();
    assert_eq!(
        response.data,
        Some(HandleAnswer::UpdateRewardToken { status: ResponseStatus::Success })
    );
    assert_eq!(state.config().reward_token, token("sefi", "4"));
    let response = change_admin(&mut state, env("admin", 2), "carol".to_string()).unwrap();
    assert_eq!(response.data, Some(HandleAnswer::ChangeAdmin { status: ResponseStatus::Success }));
    assert_eq!(state.config().admin, "carol");
    assert_eq!(stop_contract(&mut state, env("admin", 3)), Err(ContractError::Unauthorized));
    let response = stop_contract(&mut state, env("carol", 3)).unwrap();
    assert_eq!(response.data, Some(HandleAnswer::StopContract { status: ResponseStatus::Success }));
    assert!(state.config().is_stopped);
    let response = resume_contract(&mut state, env("carol", 3)).unwrap();
    assert_eq!(response.data, Some(HandleAnswer::ResumeContract { status: ResponseStatus::Success }));
    assert!(!state.config().is_stopped);
}

#[test]
fn deadline_moves_after_the_pool_was_advanced_under_the_old_one() {
    let mut state = fresh(10, 0);
    lock_tokens(&mut state, env("eth", 0), "alice".to_string(), 20 * UNIT).unwrap();
    add_to_pool(&mut state, env("scrt", 0), 80).unwrap();
    let response = update_deadline(&mut state, env("admin", 5), 1_000).unwrap();
    assert_eq!(response.data, Some(HandleAnswer::UpdateDeadline { status: ResponseStatus::Success }));
    assert!(response.messages.is_empty());
    // Half of the old window had passed: half of the rewards vested.
    assert_eq!(state.pool(), pool(40, 20, 5, 2 * UNIT));
    assert_eq!(state.config().deadline, 1_000);
}

#[test]
fn reward_pool_cannot_be_claimed_early() {
    let state = fresh(100, 50);
    assert_eq!(
        claim_reward_pool(&state, env("admin", 49), None),
        Err(ContractError::ClaimTooEarly { claim_height: 50 })
    );
    assert_eq!(
        sweep_reward_pool(&state, env("admin", 49), None, 9),
        Err(ContractError::ClaimTooEarly { claim_height: 50 })
    );
    assert_eq!(
        sweep_reward_pool(&state, env("alice", 50), None, 9),
        Err(ContractError::Unauthorized)
    );
}

#[test]
fn reward_pool_claim_sweeps_the_balance_that_was_found() {
    let mut state = fresh(100, 50);
    let step = handle(&mut state, env("admin", 50), HandleMsg::ClaimRewardPool { recipient: None }).unwrap();
    let query = match step {
        Step::NeedsBalance(query) => query,
        other => panic!("{:?}", other),
    };
    assert_eq!(query.contract_addr, "scrt");
    assert_eq!(query.callback_code_hash, "c0de");
    assert_eq!(query.address, "staking");
    assert_eq!(query.key, "123");
    assert_eq!(query.recipient, "admin");

    let response = sweep_reward_pool(&state, env("admin", 50), None, 1234).unwrap();
    assert_eq!(response.data, None);
    assert_eq!(response.messages.len(), 1);
    assert_eq!(response.messages[0].contract_addr, "scrt");
    assert_eq!(response.messages[0].callback_code_hash, "1");
    assert_eq!(
        text(&response.messages[0].msg).trim_end(),
        "{\"transfer\":{\"recipient\":\"admin\",\"amount\":\"1234\",\"memo\":null,\"padding\":null}}"
    );

    let query = claim_reward_pool(&state, env("admin", 60), Some("vault".to_string())).unwrap();
    assert_eq!(query.recipient, "vault");
    let response = sweep_reward_pool(&state, env("admin", 60), Some("vault".to_string()), 0).unwrap();
    assert_eq!(
        text(&response.messages[0].msg).trim_end(),
        "{\"transfer\":{\"recipient\":\"vault\",\"amount\":\"0\",\"memo\":null,\"padding\":null}}"
    );
}

#[test]
fn message_acts_on_the_account_it_names() {
    let deposit = HandleMsg::Receive {
        sender: "x".to_string(),
        from: "alice".to_string(),
        amount: 1,
        msg: Some(Box::new(HandleMsg::LockTokens {})),
    };
    assert_eq!(subject(&env("eth", 1), &deposit), "alice");
    assert_eq!(subject(&env("bob", 1), &HandleMsg::Redeem { amount: None }), "bob");
    assert_eq!(subject(&env("bob", 1), &HandleMsg::EmergencyRedeem {}), "bob");
}

#[test]
fn plain_queries_report_the_state() {
    let mut state = fresh(100, 50);
    lock_tokens(&mut state, env("eth", 7), "alice".to_string(), 5 * UNIT).unwrap();
    add_to_pool(&mut state, env("scrt", 8), 99).unwrap();
    assert_eq!(
        query(&state, QueryMsg::QueryUnlockClaimHeight {}),
        Ok(QueryAnswer::QueryUnlockClaimHeight { height: 50 })
    );
    assert_eq!(
        query(&state, QueryMsg::QueryContractStatus {}),
        Ok(QueryAnswer::QueryContractStatus { is_stopped: false })
    );
    assert_eq!(
        query(&state, QueryMsg::QueryRewardToken {}),
        Ok(QueryAnswer::QueryRewardToken { token: token("scrt", "1") })
    );
    assert_eq!(
        query(&state, QueryMsg::QueryIncentivizedToken {}),
        Ok(QueryAnswer::QueryIncentivizedToken { token: token("eth", "2") })
    );
    assert_eq!(
        query(&state, QueryMsg::QueryEndHeight {}),
        Ok(QueryAnswer::QueryEndHeight { height: 100 })
    );
    assert_eq!(
        query(&state, QueryMsg::QueryLastRewardBlock {}),
        Ok(QueryAnswer::QueryEndHeight { height: 8 })
    );
    assert_eq!(
        query(&state, QueryMsg::QueryRewardPoolBalance {}),
        Ok(QueryAnswer::QueryRewardPoolBalance { balance: 99 })
    );
    assert_eq!(
        query_deposit(&state, &"alice".to_string()),
        Ok(QueryAnswer::QueryDeposit { deposit: 5 * UNIT })
    );
    assert_eq!(
        query_deposit(&state, &"nobody".to_string()),
        Ok(QueryAnswer::QueryDeposit { deposit: 0 })
    );
}

#[test]
fn heights_are_taken_modulo_two_to_the_sixty_four() {
    let msg = InitMsg {
        reward_token: token("scrt", "1"),
        inc_token: token("eth", "2"),
        deadline: (1u128 << 64) + 77,
        pool_claim_block: u128::MAX,
        viewing_key: "123".to_string(),
        prng_seed: b"seed".to_vec(),
    };
    let (state, _) = init(env("admin", 1), msg).unwrap();
    assert_eq!(state.config().deadline, 77);
    assert_eq!(state.config().pool_claim_height, u64::MAX);
}
