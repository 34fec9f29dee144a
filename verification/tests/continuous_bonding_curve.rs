use contracts::continuous_bonding_curve::{ContinuousBondingCurveContract, CurveError};

const ADMIN: u64 = 1;
const USER: u64 = 2;

#[test]
fn buy_and_sell_flow_updates_supply_and_reserve() {
    let mut c = ContinuousBondingCurveContract::new();
    c.initialize(ADMIN, 2, 100).unwrap();
    let now = 0;
    let buy_cost = c.buy_exact_tokens(USER, 100, 30_000, now + 100, now).unwrap();
    assert!(buy_cost > 0);
    let (supply, reserve) = c.state();
    assert_eq!(supply, 100);
    assert_eq!(reserve, buy_cost);
    let payout = c.sell_exact_tokens(USER, 40, 1, now + 100, now).unwrap();
    assert!(payout > 0);
    let (supply_after, reserve_after) = c.state();
    assert_eq!(supply_after, 60);
    assert_eq!(reserve_after, buy_cost - payout);
}

#[test]
fn enforces_slippage_limits() {
    let mut c = ContinuousBondingCurveContract::new();
    c.initialize(ADMIN, 1, 50).unwrap();
    assert_eq!(c.buy_exact_tokens(USER, 100, 10, 100, 0), Err(CurveError::SlippageExceeded));
}

#[test]
fn curve_exact_costs() {
    let mut c = ContinuousBondingCurveContract::new();
    c.initialize(ADMIN, 2, 100).unwrap();
    // 100 * 100 + 2 * (100^2 - 0) / 2
    assert_eq!(c.quote_buy(100), Ok(20_000));
    c.buy_exact_tokens(USER, 100, 20_000, 5, 5).unwrap();
    // 100 * 40 + 2 * (100^2 - 60^2) / 2
    assert_eq!(c.quote_sell(40), Ok(10_400));
    // Selling everything right back returns the full cost.
    assert_eq!(c.quote_sell(100), Ok(20_000));
    assert_eq!(c.quote_sell(101), Err(CurveError::InsufficientSupply));
}

#[test]
fn curve_refusals() {
    let mut c = ContinuousBondingCurveContract::new();
    assert_eq!(c.quote_buy(1), Err(CurveError::NotInitialized));
    assert_eq!(c.initialize(ADMIN, 0, 1), Err(CurveError::InvalidAmount));
    c.initialize(ADMIN, 1, 1).unwrap();
    assert_eq!(c.initialize(ADMIN, 1, 1), Err(CurveError::AlreadyInitialized));
    assert_eq!(c.buy_exact_tokens(USER, 1, 10, 4, 5), Err(CurveError::DeadlinePassed));
    assert_eq!(c.buy_exact_tokens(USER, 0, 10, 5, 5), Err(CurveError::InvalidAmount));
    assert_eq!(c.sell_exact_tokens(USER, 1, 1, 5, 5), Err(CurveError::InsufficientSupply));
}
