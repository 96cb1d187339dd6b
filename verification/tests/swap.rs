use orgorush::swap::{
    execute_swap, initiate_swap, stake_orgo, ErrorCode, StakeAccount, SwapStatus,
};

fn fresh_stake_account() -> StakeAccount {
    StakeAccount { user: 0, amount: 0, last_staked: 0, fee_discount_bps: 0 }
}

#[test]
fn initiate_swap_rejects_high_burn() {
    let r = initiate_swap(1, 2, 1_000_000, 900_000, 1001, 3, 100);
    assert_eq!(r.unwrap_err(), ErrorCode::InvalidBurnRate);
    assert!(initiate_swap(1, 2, 1_000_000, 900_000, 1000, 3, 100).is_ok());
}

#[test]
fn initiate_swap_records_parameters() {
    let (escrow, event) = initiate_swap(10, 55, 1_000_000, 900_000, 100, 20, 777).unwrap();
    assert_eq!(escrow.user, 10);
    assert_eq!(escrow.recipient, 20);
    assert_eq!(escrow.amount_in, 1_000_000);
    assert_eq!(escrow.min_amount_out, 900_000);
    assert_eq!(escrow.burn_bps, 100);
    assert_eq!(escrow.created_at, 777);
    assert_eq!(escrow.status, SwapStatus::Pending);
    assert_eq!(event.escrow, 55);
    assert_eq!(event.user, 10);
    assert_eq!(event.amount_in, 1_000_000);
    assert_eq!(event.burn_bps, 100);
}

#[test]
fn execute_swap_burn_and_output() {
    // 1% of a million is 10_000; doubled by the multiplier, under the 10% cap
    let (mut escrow, _) = initiate_swap(10, 55, 1_000_000, 900_000, 100, 20, 0).unwrap();
    let event = execute_swap(&mut escrow, 55, 200, 100).unwrap();
    assert_eq!(event.burn_amount, 20_000);
    assert_eq!(event.output_amount, 980_000);
    assert_eq!(event.escrow, 55);
    assert_eq!(event.volatility_multiplier, 200);
    assert_eq!(escrow.status, SwapStatus::Completed);
}

#[test]
fn execute_swap_caps_burn_at_tenth() {
    // 10% burn rate doubled would be 20%, but the cap holds it at 10%
    let (mut escrow, _) = initiate_swap(10, 55, 1_000_000, 0, 1000, 20, 0).unwrap();
    let event = execute_swap(&mut escrow, 55, 200, 100).unwrap();
    assert_eq!(event.burn_amount, 100_000);
    assert_eq!(event.output_amount, 900_000);
    assert!(event.burn_amount <= escrow.amount_in / 10);
    assert_eq!(event.output_amount + event.burn_amount, escrow.amount_in);
}

#[test]
fn execute_swap_zero_burn() {
    let (mut escrow, _) = initiate_swap(10, 55, 1_000_000, 0, 0, 20, 0).unwrap();
    let event = execute_swap(&mut escrow, 55, 500, 100).unwrap();
    assert_eq!(event.burn_amount, 0);
    assert_eq!(event.output_amount, 1_000_000);
}

#[test]
fn execute_swap_twice_fails() {
    let (mut escrow, _) = initiate_swap(10, 55, 1_000_000, 900_000, 100, 20, 0).unwrap();
    execute_swap(&mut escrow, 55, 200, 100).unwrap();
    let before = escrow;
    let r = execute_swap(&mut escrow, 55, 200, 200);
    assert_eq!(r.unwrap_err(), ErrorCode::InvalidStatus);
    assert_eq!(escrow, before);
}

#[test]
fn execute_swap_expiry_boundary() {
    let (mut escrow, _) = initiate_swap(10, 55, 1_000_000, 900_000, 100, 20, 1000).unwrap();
    let before = escrow;
    let r = execute_swap(&mut escrow, 55, 100, 1000 + 86_401);
    assert_eq!(r.unwrap_err(), ErrorCode::SwapExpired);
    assert_eq!(escrow, before);
    // exactly one day old is still executable
    assert!(execute_swap(&mut escrow, 55, 100, 1000 + 86_400).is_ok());
}

#[test]
fn execute_swap_slippage_exceeded() {
    let (mut escrow, _) = initiate_swap(10, 55, 1_000_000, 980_001, 100, 20, 0).unwrap();
    let before = escrow;
    let r = execute_swap(&mut escrow, 55, 200, 100);
    assert_eq!(r.unwrap_err(), ErrorCode::SlippageExceeded);
    assert_eq!(escrow, before);
    assert_eq!(escrow.status, SwapStatus::Pending);
}

#[test]
fn stake_orgo_discount_tiers() {
    let mut account = fresh_stake_account();
    // 250 million units: two whole 100-million tiers, 50 bps each
    let event = stake_orgo(&mut account, 9, 250_000_000, 500).unwrap();
    assert_eq!(account.fee_discount_bps, 100);
    assert_eq!(event.discount_bps, 100);
    assert_eq!(event.total_staked, 250_000_000);
    // topping up to a cumulative billion reaches 500 bps
    let event = stake_orgo(&mut account, 9, 750_000_000, 600).unwrap();
    assert_eq!(account.amount, 1_000_000_000);
    assert_eq!(account.fee_discount_bps, 500);
    assert_eq!(event.discount_bps, 500);
    assert_eq!(account.user, 9);
    assert_eq!(account.last_staked, 600);
    assert_eq!(event.amount, 750_000_000);
}

#[test]
fn stake_orgo_discount_is_capped() {
    let mut account = fresh_stake_account();
    stake_orgo(&mut account, 9, 20_000_000_000, 500).unwrap();
    assert_eq!(account.fee_discount_bps, 5000);
}

#[test]
fn stake_orgo_overflow_fails() {
    let mut account = fresh_stake_account();
    stake_orgo(&mut account, 9, u64::MAX, 500).unwrap();
    let before = account;
    let r = stake_orgo(&mut account, 9, 1, 600);
    assert_eq!(r.unwrap_err(), ErrorCode::AmountOverflow);
    assert_eq!(account, before);
}
