use contracts::parametric_insurance::{InsuranceError, ParametricInsuranceContract};

const ADMIN: u64 = 1;
const ORACLE: u64 = 2;
const BUYER: u64 = 3;
const UNDERWRITER: u64 = 4;

fn setup() -> ParametricInsuranceContract {
    let mut c = ParametricInsuranceContract::new();
    c.initialize(ADMIN, ORACLE).unwrap();
    c
}

#[test]
fn pays_policy_when_oracle_trigger_fires() {
    let mut c = setup();
    c.underwrite(UNDERWRITER, 10_000).unwrap();
    let now = 0;
    let policy_id = c.buy_policy(BUYER, 500, 4_000, now + 50, "flight_delayed".to_string(), now).unwrap();
    c.post_oracle_signal(ORACLE, "flight_delayed".to_string(), true).unwrap();
    let payout = c.claim(BUYER, policy_id, now).unwrap();
    assert_eq!(payout, 4_000);
    assert!(c.solvency_ratio_bps() > 0);
}

#[test]
fn rejects_policy_that_would_break_solvency() {
    let mut c = setup();
    c.underwrite(UNDERWRITER, 1_000).unwrap();
    let r = c.buy_policy(BUYER, 10, 5_000, 100, "price_crash".to_string(), 0);
    assert_eq!(r, Err(InsuranceError::Insolvent));
}

#[test]
fn insurance_claim_needs_fired_trigger() {
    let mut c = setup();
    c.underwrite(UNDERWRITER, 10_000).unwrap();
    let id = c.buy_policy(BUYER, 500, 4_000, 50, "rain".to_string(), 0).unwrap();
    assert_eq!(c.claim(BUYER, id, 10), Err(InsuranceError::TriggerNotMet));
    c.post_oracle_signal(ORACLE, "rain".to_string(), false).unwrap();
    assert_eq!(c.claim(BUYER, id, 10), Err(InsuranceError::TriggerNotMet));
    c.post_oracle_signal(ORACLE, "rain".to_string(), true).unwrap();
    assert_eq!(c.claim(99, id, 10), Err(InsuranceError::Unauthorized));
    assert_eq!(c.claim(BUYER, id, 51), Err(InsuranceError::Expired));
    assert_eq!(c.claim(BUYER, id, 50), Ok(4_000));
    assert_eq!(c.claim(BUYER, id, 50), Err(InsuranceError::AlreadyClaimed));
    assert_eq!(c.claimable.get(&BUYER), Some(&4_000));
    assert_eq!(c.total_capital, 10_500 - 4_000);
    assert_eq!(c.locked_liability, 0);
    assert_eq!(c.solvency_ratio_bps(), 100_000);
}

#[test]
fn insurance_withdraw_keeps_reserve() {
    let mut c = setup();
    c.underwrite(UNDERWRITER, 10_000).unwrap();
    c.buy_policy(BUYER, 1_000, 8_000, 50, "quake".to_string(), 0).unwrap();
    assert_eq!(c.solvency_ratio_bps(), 11_000 * 10_000 / 8_000);
    assert_eq!(c.withdraw_underwriting(UNDERWRITER, 3_001), Err(InsuranceError::Insolvent));
    c.withdraw_underwriting(UNDERWRITER, 3_000).unwrap();
    assert_eq!(c.total_capital, 8_000);
    assert_eq!(c.withdraw_underwriting(UNDERWRITER, 8_000), Err(InsuranceError::InvalidAmount));
}

#[test]
fn insurance_requires_initialization_and_oracle() {
    let mut c = ParametricInsuranceContract::new();
    assert_eq!(c.underwrite(UNDERWRITER, 1), Err(InsuranceError::NotInitialized));
    let mut c = setup();
    assert_eq!(c.post_oracle_signal(BUYER, "x".to_string(), true), Err(InsuranceError::Unauthorized));
    assert_eq!(c.initialize(ADMIN, ORACLE), Err(InsuranceError::AlreadyInitialized));
    assert_eq!(c.buy_policy(BUYER, 0, 5, 10, "x".to_string(), 0), Err(InsuranceError::InvalidAmount));
    assert_eq!(c.buy_policy(BUYER, 1, 5, 0, "x".to_string(), 0), Err(InsuranceError::InvalidAmount));
}
