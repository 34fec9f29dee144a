use contracts::paymaster::{PaymasterContract, PaymasterError};

fn setup() -> (PaymasterContract, u64) {
    let admin = 1;
    let mut c = PaymasterContract::new();
    c.initialize(admin, 10_000, 50_000).unwrap();
    (c, admin)
}

#[test]
fn deposit_and_balance() {
    let (mut c, _admin) = setup();
    let sponsor = 2;
    c.deposit(sponsor, 1_000).unwrap();
    assert_eq!(c.get_balance(sponsor), 1_000);
}

#[test]
fn sponsor_gas_deducts_balance() {
    let (mut c, admin) = setup();
    let sponsor = 2;
    let wallet = 3;
    c.deposit(sponsor, 10_000).unwrap();
    c.allowlist_wallet(admin, wallet).unwrap();
    let cost = c.sponsor_gas(sponsor, wallet, 10, 100, 0).unwrap();
    assert_eq!(cost, 1_000);
    assert_eq!(c.get_balance(sponsor), 9_000);
}

#[test]
fn paymaster_refusals() {
    let (mut c, admin) = setup();
    let sponsor = 2;
    let wallet = 3;
    assert_eq!(c.initialize(admin, 1, 1), Err(PaymasterError::AlreadyInitialized));
    assert_eq!(c.deposit(sponsor, 0), Err(PaymasterError::ZeroDeposit));
    assert_eq!(c.withdraw(sponsor), Err(PaymasterError::NothingToWithdraw));
    assert_eq!(c.allowlist_wallet(sponsor, wallet), Err(PaymasterError::Unauthorized));
    assert_eq!(c.sponsor_gas(sponsor, wallet, 1, 1, 0), Err(PaymasterError::WalletNotAllowlisted));
    c.allowlist_wallet(admin, wallet).unwrap();
    assert_eq!(c.sponsor_gas(sponsor, wallet, 101, 100, 0), Err(PaymasterError::GasPerOpExceeded));
    assert_eq!(c.sponsor_gas(sponsor, wallet, 1, 1, 0), Err(PaymasterError::InsufficientDeposit));
    c.deposit(sponsor, 1_000_000).unwrap();
    for _ in 0..5 {
        c.sponsor_gas(sponsor, wallet, 100, 100, 5).unwrap();
    }
    assert_eq!(c.sponsor_gas(sponsor, wallet, 1, 1, 17_279), Err(PaymasterError::WalletDailyCapExceeded));
    // The next day bucket starts afresh.
    assert_eq!(c.sponsor_gas(sponsor, wallet, 1, 1, 17_280), Ok(1));
    assert_eq!(c.withdraw(sponsor), Ok(1_000_000 - 50_001));
    assert_eq!(c.get_balance(sponsor), 0);
    c.remove_allowlist(admin, wallet).unwrap();
    assert!(!c.is_allowlisted(wallet));
    let mut fresh = PaymasterContract::new();
    assert_eq!(fresh.sponsor_gas(sponsor, wallet, 1, 1, 0), Err(PaymasterError::NotInitialized));
    assert_eq!(PaymasterContract::estimate_gas(7, 6), 42);
}
