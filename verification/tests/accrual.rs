use staking_rewards::accrual::{advance, checked_entitlement, to_ledger_units, to_raw_amount};
use staking_rewards::error::ContractError;
use staking_rewards::state::RewardPool;

fn pool(pending: u128, supply: u128, last: u64, acc: u128) -> RewardPool {
    RewardPool {
        pending_rewards: pending,
        inc_token_supply: supply,
        last_reward_block: last,
        acc_reward_per_share: acc,
    }
}

#[test]
fn advance_vests_linear_share() {
    let next = advance(pool(100, 10, 0, 0), 10, 5).unwrap();
    assert_eq!(next, pool(50, 10, 5, 5_000_000_000_000));
}

#[test]
fn advance_without_elapsed_time_changes_nothing() {
    let p = pool(100, 10, 7, 3);
    assert_eq!(advance(p, 10, 7), Ok(p));
    assert_eq!(advance(p, 10, 6), Ok(p));
}

#[test]
fn advance_after_closed_window_changes_nothing() {
    let p = pool(100, 10, 11, 3);
    assert_eq!(advance(p, 10, 500), Ok(p));
}

#[test]
fn advance_with_nothing_locked_only_moves_checkpoint() {
    assert_eq!(advance(pool(100, 0, 2, 9), 10, 6), Ok(pool(100, 0, 6, 9)));
}

#[test]
fn advance_with_nothing_pending_only_moves_checkpoint() {
    assert_eq!(advance(pool(0, 10, 2, 9), 10, 6), Ok(pool(0, 10, 6, 9)));
}

#[test]
fn advance_truncates_and_leaves_dust_pending() {
    // 1 block of 3: 10 / 3 = 3 vests, 7 stay; 3 * 10^12 / 7 = 428571428571.
    let next = advance(pool(10, 7, 0, 1), 3, 1).unwrap();
    assert_eq!(next, pool(7, 7, 1, 428_571_428_572));
}

#[test]
fn advance_to_deadline_vests_everything() {
    let next = advance(pool(500_000_000_000, 1000, 2, 0), 1_000_001, 1_000_001).unwrap();
    assert_eq!(next, pool(0, 1000, 1_000_001, 500_000_000_000_000_000_000));
}

#[test]
fn advance_past_deadline_vests_everything_once() {
    let next = advance(pool(500_000_000_000, 1000, 2, 0), 1_000_001, 1_000_006).unwrap();
    assert_eq!(next, pool(0, 1000, 1_000_006, 500_000_000_000_000_000_000));
    assert_eq!(advance(next, 1_000_001, 2_000_000), Ok(next));
}

#[test]
fn advance_after_deadline_was_reached_vests_nothing_more() {
    let at = advance(pool(90, 3, 0, 0), 10, 10).unwrap();
    assert_eq!(at, pool(0, 3, 10, 30_000_000_000_000));
    let later = advance(at, 10, 11).unwrap();
    assert_eq!(later, pool(0, 3, 11, 30_000_000_000_000));
    assert_eq!(advance(later, 10, 12), Ok(later));
}

#[test]
fn advance_twice_at_one_height_equals_once() {
    let once = advance(pool(1234, 77, 3, 5), 100, 40).unwrap();
    let twice = advance(once, 100, 40).unwrap();
    assert_eq!(once, twice);
}

#[test]
fn advance_with_nothing_locked_at_deadline_keeps_rewards_pending() {
    let next = advance(pool(100, 0, 0, 0), 10, 10).unwrap();
    assert_eq!(next, pool(100, 0, 10, 0));
}

#[test]
fn advance_over_a_window_of_zero_blocks_is_refused() {
    assert_eq!(advance(pool(100, 10, 10, 0), 10, 11), Err(ContractError::Arithmetic));
}

#[test]
fn advance_refuses_a_product_that_does_not_fit() {
    assert_eq!(advance(pool(u128::MAX, 1, 0, 0), 10, 2), Err(ContractError::Arithmetic));
    // The vested amount fits, its scaled value does not.
    assert_eq!(
        advance(pool(u128::MAX / 1_000_000, 1, 0, 0), 10, 10),
        Err(ContractError::Arithmetic)
    );
    // The gain fits, the accumulator does not.
    assert_eq!(advance(pool(10, 1, 0, u128::MAX), 10, 10), Err(ContractError::Arithmetic));
}

#[test]
fn ledger_units_divide_by_the_scale() {
    assert_eq!(to_ledger_units(0), 0);
    assert_eq!(to_ledger_units(999_999_999_999), 0);
    assert_eq!(to_ledger_units(1_000_000_000_000), 1);
    assert_eq!(to_ledger_units(1_000_000_000_000_000_000), 1_000_000);
}

#[test]
fn raw_amounts_multiply_by_the_scale() {
    assert_eq!(to_raw_amount(0), Some(0));
    assert_eq!(to_raw_amount(3), Some(3_000_000_000_000));
    assert_eq!(to_raw_amount(u128::MAX / 1_000_000_000_000), Some(340282366920938463463374607000000000000));
    assert_eq!(to_raw_amount(u128::MAX / 1_000_000_000_000 + 1), None);
}

#[test]
fn entitlement_is_the_scaled_product() {
    assert_eq!(checked_entitlement(1000, 500_000_000_000_000), Some(500_000));
    assert_eq!(checked_entitlement(3, 999_999_999_999), Some(2));
    assert_eq!(checked_entitlement(0, u128::MAX), Some(0));
    assert_eq!(checked_entitlement(2, u128::MAX), None);
}
