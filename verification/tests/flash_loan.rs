use contracts::flash_loan::{FlashLoanError, FlashLoanProviderContract};

const TOKEN: u64 = 77;

fn setup(fee_bps: i128) -> (FlashLoanProviderContract, u64) {
    let admin = 1;
    let mut c = FlashLoanProviderContract::new();
    c.initialize(admin, fee_bps).unwrap();
    (c, admin)
}

/// How a receiver repays: full (amount + fee), nothing, or principal only.
enum Receiver {
    Good,
    Bad,
    Partial,
}

/// Runs a whole loan against a provider holding `liquidity`.
fn flash_loan(
    c: &mut FlashLoanProviderContract,
    liquidity: i128,
    amount: i128,
    receiver: Receiver,
) -> Result<i128, FlashLoanError> {
    let terms = c.flash_loan_begin(TOKEN, amount, liquidity)?;
    let after_transfer = liquidity - amount;
    let repaid = match receiver {
        Receiver::Good => terms.amount + terms.fee,
        Receiver::Bad => 0,
        Receiver::Partial => terms.amount,
    };
    c.flash_loan_end(terms, after_transfer + repaid)
}

#[test]
fn flash_loan_test_test_initialize_success() {
    let (c, _) = setup(9);
    assert_eq!(c.get_fee_bps(), 9);
}

#[test]
fn flash_loan_test_test_initialize_already_initialized() {
    let (mut c, admin) = setup(9);
    assert_eq!(c.initialize(admin, 9), Err(FlashLoanError::AlreadyInitialized));
}

#[test]
fn test_initialize_fee_too_high() {
    let mut c = FlashLoanProviderContract::new();
    assert_eq!(c.initialize(1, 501), Err(FlashLoanError::InvalidFee));
}

#[test]
fn test_provide_liquidity() {
    let (c, _) = setup(9);
    assert_eq!(c.provide_liquidity(5, TOKEN, 10_000), Ok(()));
    assert_eq!(c.provide_liquidity(5, TOKEN, 0), Err(FlashLoanError::InvalidAmount));
}

#[test]
fn test_flash_loan_repaid_full() {
    let (mut c, _) = setup(9);
    let liquidity = 100_000i128;
    let loan_amount = 10_000i128;
    let expected_fee = ((loan_amount * 9) + 9_999) / 10_000;
    let fee = flash_loan(&mut c, liquidity, loan_amount, Receiver::Good).unwrap();
    assert_eq!(fee, expected_fee);
    assert_eq!(fee, 9);
    assert_eq!(c.get_fees_collected(TOKEN), expected_fee);
    assert_eq!(c.get_total_volume(TOKEN), loan_amount);
    assert!(!c.locked);
}

#[test]
fn test_flash_loan_zero_fee() {
    let (mut c, _) = setup(0);
    assert_eq!(flash_loan(&mut c, 50_000, 1_000, Receiver::Good), Ok(0));
}

#[test]
fn test_flash_loan_not_repaid() {
    let (mut c, _) = setup(9);
    assert_eq!(flash_loan(&mut c, 50_000, 1_000, Receiver::Bad), Err(FlashLoanError::LoanNotRepaid));
}

#[test]
fn test_flash_loan_partial_repayment() {
    let (mut c, _) = setup(9);
    assert_eq!(flash_loan(&mut c, 50_000, 1_000, Receiver::Partial), Err(FlashLoanError::LoanNotRepaid));
    assert_eq!(c.get_fees_collected(TOKEN), 0);
}

#[test]
fn test_flash_loan_insufficient_liquidity() {
    let (mut c, _) = setup(9);
    assert_eq!(flash_loan(&mut c, 500, 1_000, Receiver::Good), Err(FlashLoanError::InsufficientLiquidity));
}

#[test]
fn test_flash_loan_zero_amount() {
    let (mut c, _) = setup(9);
    assert_eq!(flash_loan(&mut c, 10_000, 0, Receiver::Good), Err(FlashLoanError::InvalidAmount));
}

#[test]
fn test_set_fee_bps() {
    let (mut c, admin) = setup(9);
    assert_eq!(c.get_fee_bps(), 9);
    c.set_fee_bps(admin, 50).unwrap();
    assert_eq!(c.get_fee_bps(), 50);
}

#[test]
fn test_set_fee_bps_unauthorized() {
    let (mut c, _) = setup(9);
    assert_eq!(c.set_fee_bps(99, 0), Err(FlashLoanError::Unauthorized));
}

#[test]
fn test_set_fee_bps_too_high() {
    let (mut c, admin) = setup(9);
    assert_eq!(c.set_fee_bps(admin, 501), Err(FlashLoanError::InvalidFee));
}

#[test]
fn test_withdraw_fees() {
    let (mut c, admin) = setup(9);
    let loan = 10_000i128;
    let fee = ((loan * 9) + 9_999) / 10_000;
    flash_loan(&mut c, 100_000, loan, Receiver::Good).unwrap();
    assert_eq!(c.withdraw_fees(admin, TOKEN), Ok(fee));
    assert_eq!(c.get_fees_collected(TOKEN), 0);
    assert_eq!(c.withdraw_fees(admin, TOKEN), Ok(0));
}

#[test]
fn flash_loan_in_flight_refuses_reentry() {
    let (mut c, _) = setup(9);
    let _terms = c.flash_loan_begin(TOKEN, 10, 100).unwrap();
    assert_eq!(c.flash_loan_begin(TOKEN, 10, 100), Err(FlashLoanError::Reentrant));
    let mut fresh = FlashLoanProviderContract::new();
    assert_eq!(fresh.flash_loan_begin(TOKEN, 10, 100), Err(FlashLoanError::NotInitialized));
}

#[test]
fn flash_loan_fee_rounds_up_within_bounds() {
    let (mut c, _) = setup(9);
    assert_eq!(c.flash_loan_begin(TOKEN, 1, 10).unwrap().fee, 1);
    let (mut c, _) = setup(9);
    assert_eq!(c.flash_loan_begin(TOKEN, 10_000, 10_000).unwrap().fee, 9);
    let (mut c, _) = setup(500);
    assert_eq!(c.flash_loan_begin(TOKEN, 1_000_000, 1_000_000).unwrap().fee, 50_000);
    let (mut c, _) = setup(500);
    assert_eq!(c.flash_loan_begin(TOKEN, 1_000_001, 1_000_001).unwrap().fee, 50_001);
}

#[test]
fn refused_repayment_releases_the_lock() {
    let (mut c, _) = setup(9);
    assert_eq!(flash_loan(&mut c, 50_000, 1_000, Receiver::Bad), Err(FlashLoanError::LoanNotRepaid));
    assert!(!c.locked);
    assert_eq!(c.get_total_volume(TOKEN), 0);
    assert_eq!(flash_loan(&mut c, 50_000, 1_000, Receiver::Good), Ok(1));
    assert_eq!(c.get_total_volume(TOKEN), 1_000);
}
