use std::str::FromStr;
use std::time::{SystemTime, UNIX_EPOCH};

use anchor_lang::prelude::Pubkey;
use solana_tax_token::{
    compute_split, initialize, process_transaction, select_index, Action, FeeSplit, Leg, Stage,
    State, SupplyPolicy, TaxError, TransferOutcome, INITIAL_TOTAL_TOKENS,
};

fn three_holders() -> Vec<Pubkey> {
    vec![
        Pubkey::from_str("Fak8LW8jc8P7aD7L9FWcBZq7uWQHf8KL9wC3tXSeXm3X").unwrap(),
        Pubkey::from_str("EkqzZoGh7E6uL7mdA3brmLCryu6GwMkHdHUK8VZ6twZM").unwrap(),
        Pubkey::from_str("5m7dJkwr7J8mQe38W7QXzELCsHX86zDbbAAXmPAoANkG").unwrap(),
    ]
}

fn state_with(holders: Vec<Pubkey>, supply_policy: SupplyPolicy) -> State {
    State { tax_percentage: 5, total_tokens: 1_000_000, holders, supply_policy }
}

fn now_seconds() -> i64 {
    SystemTime::now().duration_since(UNIX_EPOCH).unwrap().as_secs() as i64
}

#[test]
fn test_initialize() {
    let tax_percentage: u8 = 5;
    let state = initialize(tax_percentage, SupplyPolicy::Fixed).unwrap();

    assert_eq!(state.tax_percentage, tax_percentage);
    assert_eq!(state.total_tokens, 1_000_000);
    assert!(state.holders.is_empty());
}

#[test]
fn test_process_transaction() {
    let mut state = state_with(vec![], SupplyPolicy::DeductFees);
    let amount: u64 = 100_000;

    let mut settlement = process_transaction(&state, amount).unwrap();
    let tax_amount = settlement.split.tax_amount;
    let dev_fee = settlement.split.dev_fee;
    let expected_total_tokens = state.total_tokens - tax_amount - dev_fee;
    settlement.record(TransferOutcome::Completed);
    settlement.record(TransferOutcome::Completed);
    state.record_settlement(&settlement).unwrap();

    assert_eq!(tax_amount, 5000);
    assert_eq!(dev_fee, 1000);
    assert_eq!(state.total_tokens, expected_total_tokens);
}

#[test]
fn test_select_random_wallet() {
    let state = state_with(three_holders(), SupplyPolicy::Fixed);

    let selected_wallet = state.select_wallet_at(now_seconds()).unwrap();

    assert!(state.holders.contains(&selected_wallet));
}

#[test]
fn test_randomness_uniqueness() {
    let state = state_with(three_holders(), SupplyPolicy::Fixed);

    let mut selected_wallets = vec![];
    for t in 0..10i64 {
        selected_wallets.push(state.select_wallet_at(t).unwrap());
    }

    for w in &selected_wallets {
        assert!(state.holders.contains(w));
    }
    assert!(selected_wallets.iter().any(|&w| w != selected_wallets[0]));
}

#[test]
fn test_zero_holders_random_selection() {
    let state = state_with(vec![], SupplyPolicy::Fixed);

    let result = state.select_random_wallet();

    assert_eq!(result, Err(TaxError::EmptyHolderSet));
}

#[test]
fn split_of_large_transfer() {
    assert_eq!(compute_split(100_000, 5), Ok(FeeSplit { tax_amount: 5000, dev_fee: 1000 }));
}

#[test]
fn split_of_zero_amount_succeeds() {
    assert_eq!(compute_split(0, 5), Ok(FeeSplit { tax_amount: 0, dev_fee: 0 }));
    let state = initialize(5, SupplyPolicy::Fixed).unwrap();
    let settlement = process_transaction(&state, 0).unwrap();
    assert_eq!(settlement.next_action(), Action::Transfer(Leg::Tax, 0));
}

#[test]
fn zero_rate_takes_no_tax_and_keeps_fee() {
    for amount in [0u64, 1, 99, 100, 12_345, u64::MAX] {
        let zero = compute_split(amount, 0).unwrap();
        let five = compute_split(amount, 5).unwrap();
        assert_eq!(zero.tax_amount, 0);
        assert_eq!(zero.dev_fee, five.dev_fee);
    }
}

#[test]
fn split_rounds_down_and_stays_within_amount() {
    assert_eq!(compute_split(19, 5), Ok(FeeSplit { tax_amount: 0, dev_fee: 0 }));
    assert_eq!(compute_split(199, 7), Ok(FeeSplit { tax_amount: 13, dev_fee: 1 }));
    let s = compute_split(u64::MAX, 99).unwrap();
    assert_eq!(s.tax_amount, 18_262_276_632_972_456_098);
    assert_eq!(s.dev_fee, 184_467_440_737_095_516);
    assert!(s.tax_amount as u128 + s.dev_fee as u128 <= u64::MAX as u128);
}

#[test]
fn full_rate_at_largest_amount_fits() {
    assert_eq!(
        compute_split(u64::MAX, 100),
        Ok(FeeSplit { tax_amount: u64::MAX, dev_fee: 184_467_440_737_095_516 })
    );
}

#[test]
fn tax_beyond_width_is_overflow() {
    assert_eq!(compute_split(u64::MAX, 101), Err(TaxError::ArithmeticOverflow));
    let state = State {
        tax_percentage: 200,
        total_tokens: 0,
        holders: vec![],
        supply_policy: SupplyPolicy::Fixed,
    };
    assert_eq!(process_transaction(&state, u64::MAX).unwrap_err(), TaxError::ArithmeticOverflow);
}

#[test]
fn initialize_rejects_rate_above_hundred() {
    assert!(matches!(initialize(101, SupplyPolicy::Fixed), Err(TaxError::InvalidConfiguration)));
    let s = initialize(100, SupplyPolicy::DeductFees).unwrap();
    assert_eq!(s.tax_percentage, 100);
    assert_eq!(s.total_tokens, INITIAL_TOTAL_TOKENS);
    assert_eq!(s.supply_policy, SupplyPolicy::DeductFees);
}

#[test]
fn selection_index_is_time_mod_count() {
    assert_eq!(select_index(7, 3), Ok(1));
    assert_eq!(select_index(-1, 3), Ok(2));
    assert_eq!(select_index(-3, 3), Ok(0));
    assert_eq!(select_index(i64::MIN, 3), Ok(1));
    assert_eq!(select_index(i64::MAX, 1), Ok(0));
    assert_eq!(select_index(5, 0), Err(TaxError::EmptyHolderSet));
}

#[test]
fn selection_picks_holder_at_index() {
    let holders = three_holders();
    let state = state_with(holders.clone(), SupplyPolicy::Fixed);
    assert_eq!(state.select_wallet_at(4), Ok(holders[1]));
    assert_eq!(state.select_wallet_at(-1), Ok(holders[2]));
    assert_eq!(state.select_wallet_at(3), state.select_wallet_at(6));
    let empty = state_with(vec![], SupplyPolicy::Fixed);
    assert_eq!(empty.select_wallet_at(4), Err(TaxError::EmptyHolderSet));
}

#[test]
fn selection_from_host_clock_is_a_member_or_clock_error() {
    let state = state_with(three_holders(), SupplyPolicy::Fixed);
    match state.select_random_wallet() {
        Ok(k) => assert!(state.holders.contains(&k)),
        Err(e) => assert_eq!(e, TaxError::ClockUnavailable),
    }
}

#[test]
fn failed_tax_leg_skips_fee_leg() {
    let state = initialize(5, SupplyPolicy::DeductFees).unwrap();
    let mut settlement = process_transaction(&state, 100_000).unwrap();
    assert_eq!(settlement.next_action(), Action::Transfer(Leg::Tax, 5000));
    settlement.record(TransferOutcome::InsufficientFunds);
    assert_eq!(settlement.stage, Stage::Failed(TaxError::InsufficientFunds));
    assert_eq!(settlement.next_action(), Action::Abort(TaxError::InsufficientFunds));
    settlement.record(TransferOutcome::Completed);
    assert_eq!(settlement.next_action(), Action::Abort(TaxError::InsufficientFunds));
}

#[test]
fn failed_fee_leg_aborts_and_keeps_supply() {
    let mut state = initialize(5, SupplyPolicy::DeductFees).unwrap();
    let mut settlement = process_transaction(&state, 100_000).unwrap();
    settlement.record(TransferOutcome::Completed);
    assert_eq!(settlement.next_action(), Action::Transfer(Leg::DevFee, 1000));
    settlement.record(TransferOutcome::Unauthorized);
    assert_eq!(settlement.next_action(), Action::Abort(TaxError::Unauthorized));
    assert_eq!(state.record_settlement(&settlement), Err(TaxError::Unauthorized));
    assert_eq!(state.total_tokens, INITIAL_TOTAL_TOKENS);
}

#[test]
fn fixed_supply_ignores_settled_transfers() {
    let mut state = initialize(5, SupplyPolicy::Fixed).unwrap();
    let mut settlement = process_transaction(&state, 100_000).unwrap();
    settlement.record(TransferOutcome::Completed);
    settlement.record(TransferOutcome::Completed);
    assert_eq!(settlement.next_action(), Action::Finish);
    assert_eq!(state.record_settlement(&settlement), Ok(()));
    assert_eq!(state.total_tokens, INITIAL_TOTAL_TOKENS);
}

#[test]
fn deducting_more_than_supply_fails() {
    let mut state = initialize(50, SupplyPolicy::DeductFees).unwrap();
    let mut settlement = process_transaction(&state, 10_000_000).unwrap();
    settlement.record(TransferOutcome::Completed);
    settlement.record(TransferOutcome::Completed);
    assert_eq!(state.record_settlement(&settlement), Err(TaxError::ArithmeticOverflow));
    assert_eq!(state.total_tokens, INITIAL_TOTAL_TOKENS);
}
