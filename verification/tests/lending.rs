use contracts::lending::{LendingContract, LendingError, SCALE};

const ADMIN: u64 = 1;
const ORACLE: u64 = 2;
const ALICE: u64 = 10;
const BOB: u64 = 11;
const TOKEN_A: u64 = 100;
const TOKEN_B: u64 = 101;
const YEAR: u64 = 31_536_000;
/// Oracle price 1.0 for every token.
const P: i128 = SCALE;

fn setup() -> LendingContract {
    let mut l = LendingContract::new();
    l.initialize(ADMIN, ORACLE, 15000, 500).unwrap();
    l.add_asset(TOKEN_A, 7500, 500, 0).unwrap();
    l.add_asset(TOKEN_B, 7500, 500, 0).unwrap();
    l
}

#[test]
fn lending_tests_test_initialize_ok() {
    let l = setup();
    assert_eq!(l.admin, Some(ADMIN));
    assert_eq!(l.oracle, Some(ORACLE));
}

#[test]
fn lending_tests_test_initialize_twice_panics() {
    let mut l = setup();
    assert_eq!(l.initialize(ADMIN, ORACLE, 15000, 500), Err(LendingError::AlreadyInitialized));
}

#[test]
fn test_deposit_collateral_increases_balance() {
    let mut l = setup();
    l.deposit_collateral(ALICE, TOKEN_A, 10_000).unwrap();
    assert_eq!(l.collateral_of(ALICE, TOKEN_A), 10_000);
}

#[test]
fn test_deposit_collateral_accumulates() {
    let mut l = setup();
    l.deposit_collateral(ALICE, TOKEN_A, 5_000).unwrap();
    l.deposit_collateral(ALICE, TOKEN_A, 3_000).unwrap();
    assert_eq!(l.collateral_of(ALICE, TOKEN_A), 8_000);
}

#[test]
fn test_deposit_zero_panics() {
    let mut l = setup();
    assert_eq!(l.deposit_collateral(ALICE, TOKEN_A, 0), Err(LendingError::ZeroAmount));
}

#[test]
fn test_deposit_unsupported_token_panics() {
    let mut l = setup();
    assert_eq!(l.deposit_collateral(ALICE, 999, 100), Err(LendingError::TokenNotSupported));
}

#[test]
fn test_borrow_within_ratio_succeeds() {
    let mut l = setup();
    l.deposit_collateral(ALICE, TOKEN_A, 10_000).unwrap();
    l.borrow(ALICE, TOKEN_B, 4_000, 0, TOKEN_A, P, P).unwrap();
    assert_eq!(l.debt_of(ALICE, TOKEN_B), 4_000);
}

#[test]
fn test_borrow_zero_panics() {
    let mut l = setup();
    l.deposit_collateral(ALICE, TOKEN_A, 10_000).unwrap();
    assert_eq!(l.borrow(ALICE, TOKEN_B, 0, 0, TOKEN_A, P, P), Err(LendingError::ZeroAmount));
}

#[test]
fn test_repay_clears_debt() {
    let mut l = setup();
    l.deposit_collateral(ALICE, TOKEN_A, 10_000).unwrap();
    l.borrow(ALICE, TOKEN_B, 4_000, 0, TOKEN_A, P, P).unwrap();
    assert_eq!(l.repay(ALICE, TOKEN_B, 4_000, 0), Ok(4_000));
    assert_eq!(l.debt_of(ALICE, TOKEN_B), 0);
}

#[test]
fn test_repay_partial_reduces_debt() {
    let mut l = setup();
    l.deposit_collateral(ALICE, TOKEN_A, 10_000).unwrap();
    l.borrow(ALICE, TOKEN_B, 4_000, 0, TOKEN_A, P, P).unwrap();
    l.repay(ALICE, TOKEN_B, 1_000, 0).unwrap();
    assert_eq!(l.debt_of(ALICE, TOKEN_B), 3_000);
}

#[test]
fn test_withdraw_collateral_no_debt_succeeds() {
    let mut l = setup();
    l.deposit_collateral(ALICE, TOKEN_A, 10_000).unwrap();
    l.withdraw_collateral(ALICE, TOKEN_A, 5_000, TOKEN_B, P, P).unwrap();
    assert_eq!(l.collateral_of(ALICE, TOKEN_A), 5_000);
}

#[test]
fn test_withdraw_more_than_deposited_panics() {
    let mut l = setup();
    l.deposit_collateral(ALICE, TOKEN_A, 1_000).unwrap();
    assert_eq!(l.withdraw_collateral(ALICE, TOKEN_A, 2_000, TOKEN_B, P, P), Err(LendingError::InsufficientCollateral));
}

#[test]
fn test_liquidate_healthy_position_panics() {
    let mut l = setup();
    l.deposit_collateral(ALICE, TOKEN_A, 10_000).unwrap();
    l.borrow(ALICE, TOKEN_B, 1_000, 0, TOKEN_A, P, P).unwrap();
    assert_eq!(l.liquidate(BOB, ALICE, TOKEN_B, TOKEN_A, 500, 0, P, P), Err(LendingError::PositionHealthy));
}

#[test]
fn test_health_check_no_debt_is_healthy() {
    let mut l = setup();
    l.deposit_collateral(ALICE, TOKEN_A, 10_000).unwrap();
    assert_eq!(l.health_check(ALICE, TOKEN_A, TOKEN_B, P, P), Ok(true));
}

#[test]
fn test_add_asset_non_admin_panics() {
    let mut l = LendingContract::new();
    assert_eq!(l.add_asset(TOKEN_A, 5000, 300, 0), Err(LendingError::NotInitialized));
}

#[test]
fn lending_interest_accrues_over_one_year() {
    let mut l = setup();
    l.deposit_collateral(ALICE, TOKEN_A, 10_000).unwrap();
    l.borrow(ALICE, TOKEN_B, 1_000, 0, TOKEN_A, P, P).unwrap();
    let debt_before = l.debt_of(ALICE, TOKEN_B);
    // A repayment a year later brings the index forward by 5 %.
    assert_eq!(l.repay(ALICE, TOKEN_B, 1, YEAR), Ok(1));
    assert_eq!(l.global_index.get(&TOKEN_B), Some(&(SCALE + SCALE / 20)));
    let debt_after = l.debt_of(ALICE, TOKEN_B);
    assert!(debt_after > debt_before);
    assert_eq!(debt_after, 1_049);
}

#[test]
fn lending_repay_caps_at_debt() {
    let mut l = setup();
    l.deposit_collateral(ALICE, TOKEN_A, 10_000).unwrap();
    l.borrow(ALICE, TOKEN_B, 700, 0, TOKEN_A, P, P).unwrap();
    assert_eq!(l.repay(ALICE, TOKEN_B, 5_000, 0), Ok(700));
    assert_eq!(l.debt_of(ALICE, TOKEN_B), 0);
    assert_eq!(l.total_borrows.get(&TOKEN_B), Some(&0));
}

#[test]
fn lending_liquidate_zero_amount() {
    let mut l = setup();
    assert_eq!(l.liquidate(BOB, ALICE, TOKEN_B, TOKEN_A, 0, 0, P, P), Err(LendingError::ZeroAmount));
}

#[test]
fn lending_borrow_above_ratio_is_refused() {
    let mut l = setup();
    l.deposit_collateral(ALICE, TOKEN_A, 10_000).unwrap();
    // 10 000 * 75 % / 150 % = 5 000 may be borrowed.
    assert_eq!(l.borrow(ALICE, TOKEN_B, 6_000, 0, TOKEN_A, P, P), Err(LendingError::BelowMinCollRatio));
    assert_eq!(l.debt_of(ALICE, TOKEN_B), 0);
    assert_eq!(l.total_borrows.get(&TOKEN_B), Some(&0));
    assert_eq!(l.borrow(ALICE, TOKEN_B, 5_000, 0, TOKEN_A, P, P), Ok(()));
}

#[test]
fn lending_borrow_needs_oracle_prices() {
    let mut l = setup();
    l.deposit_collateral(ALICE, TOKEN_A, 10_000).unwrap();
    assert_eq!(l.borrow(ALICE, TOKEN_B, 1_000, 0, TOKEN_A, 0, P), Err(LendingError::OracleStale));
}

#[test]
fn lending_withdraw_keeps_ratio() {
    let mut l = setup();
    l.deposit_collateral(ALICE, TOKEN_A, 10_000).unwrap();
    l.borrow(ALICE, TOKEN_B, 4_000, 0, TOKEN_A, P, P).unwrap();
    // 4 000 of debt needs 8 000 of collateral at 75 %: 2 000 may leave.
    assert_eq!(l.withdraw_collateral(ALICE, TOKEN_A, 2_001, TOKEN_B, P, P), Err(LendingError::BelowMinCollRatio));
    assert_eq!(l.withdraw_collateral(ALICE, TOKEN_A, 2_000, TOKEN_B, P, P), Ok(()));
    assert_eq!(l.collateral_of(ALICE, TOKEN_A), 8_000);
}

#[test]
fn lending_liquidate_unhealthy_position() {
    let mut l = setup();
    l.deposit_collateral(ALICE, TOKEN_A, 10_000).unwrap();
    l.borrow(ALICE, TOKEN_B, 4_000, 0, TOKEN_A, P, P).unwrap();
    // The collateral price halves: 3 750 weighted against 6 000 required.
    assert_eq!(l.health_check(ALICE, TOKEN_A, TOKEN_B, P / 2, P), Ok(false));
    // 1 000 repaid at 1.0 buys 1 000 * 1.05 / 0.5 = 2 100 of collateral.
    assert_eq!(l.liquidate(BOB, ALICE, TOKEN_B, TOKEN_A, 1_000, 0, P, P / 2), Ok((1_000, 2_100)));
    assert_eq!(l.debt_of(ALICE, TOKEN_B), 3_000);
    assert_eq!(l.collateral_of(ALICE, TOKEN_A), 7_900);
    assert_eq!(l.total_borrows.get(&TOKEN_B), Some(&3_000));
}

#[test]
fn lending_liquidate_caps_repay_and_seizure() {
    let mut l = setup();
    l.deposit_collateral(ALICE, TOKEN_A, 1_000).unwrap();
    l.borrow(ALICE, TOKEN_B, 500, 0, TOKEN_A, P, P).unwrap();
    // Collateral worthless-ish: price 0.1; a 10 000 repayment is capped at
    // the 500 of debt and the seizure at the 1 000 of collateral.
    assert_eq!(l.liquidate(BOB, ALICE, TOKEN_B, TOKEN_A, 10_000, 0, P, P / 10), Ok((500, 1_000)));
    assert_eq!(l.debt_of(ALICE, TOKEN_B), 0);
    assert_eq!(l.collateral_of(ALICE, TOKEN_A), 0);
}

#[test]
fn test_interest_accrues_over_time() {
    let mut l = setup();
    l.deposit_collateral(ALICE, TOKEN_A, 10_000).unwrap();
    l.borrow(ALICE, TOKEN_B, 1_000, 0, TOKEN_A, P, P).unwrap();
    let debt_before = l.debt_of(ALICE, TOKEN_B);
    // About a year later, a zero repayment only brings the debt forward.
    assert_eq!(l.repay(ALICE, TOKEN_B, 0, 31_536_000), Ok(0));
    let debt_after = l.debt_of(ALICE, TOKEN_B);
    assert!(debt_after > debt_before, "interest should have accrued");
    assert!(debt_after <= 1_060, "interest should not exceed ~6 %");
}

#[test]
fn lending_negative_repay_is_refused() {
    let mut l = setup();
    assert_eq!(l.repay(ALICE, TOKEN_B, -1, 0), Err(LendingError::ZeroAmount));
}
