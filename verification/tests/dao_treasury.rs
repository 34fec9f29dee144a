use contracts::common::Payout;
use contracts::dao_treasury::{DaoTreasuryContract, SweepInfo, TreasuryError};

const ADMIN: u64 = 1;
const TOKEN: u64 = 50;
const TARGET: u64 = 60;

fn setup() -> DaoTreasuryContract {
    let mut t = DaoTreasuryContract::new();
    t.initialize(ADMIN).unwrap();
    t
}

#[test]
fn dao_treasury_test_test_initialize_success() {
    let t = setup();
    assert_eq!(t.admin, Some(ADMIN));
    assert!(!t.locked);
}

#[test]
fn dao_treasury_test_test_initialize_already_initialized() {
    let mut t = setup();
    assert_eq!(t.initialize(ADMIN), Err(TreasuryError::AlreadyInitialized));
}

#[test]
fn test_proposal_allowance() {
    let mut t = setup();
    t.set_proposal_allowance(ADMIN, 42, TOKEN, 1000).unwrap();
    assert_eq!(t.get_proposal_allowance(42, TOKEN), 1000);
}

#[test]
fn test_set_allowance_unauthorized() {
    let mut t = setup();
    assert_eq!(t.set_proposal_allowance(7, 1, TOKEN, 100), Err(TreasuryError::Unauthorized));
}

#[test]
fn test_execute_proposal_transfer() {
    let mut t = setup();
    let treasury_balance: i128 = 5000;
    t.set_proposal_allowance(ADMIN, 99, TOKEN, 1500).unwrap();
    let p = t.execute_proposal_transfer(99, TOKEN, TARGET, 1000).unwrap();
    assert_eq!(p, Payout { to: TARGET, amount: 1000 });
    assert_eq!(treasury_balance - p.amount, 4000);
    assert_eq!(p.amount, 1000);
    assert_eq!(t.get_proposal_allowance(99, TOKEN), 500);
}

#[test]
fn test_execute_proposal_transfer_insufficient_allowance() {
    let mut t = setup();
    t.set_proposal_allowance(ADMIN, 1, TOKEN, 50).unwrap();
    assert_eq!(t.execute_proposal_transfer(1, TOKEN, TARGET, 100), Err(TreasuryError::InsufficientAllowance));
    assert_eq!(t.get_proposal_allowance(1, TOKEN), 50);
}

#[test]
fn test_emergency_sweep() {
    let mut t = setup();
    t.initiate_sweep(ADMIN, TOKEN, TARGET, 0).unwrap();
    assert_eq!(t.sweeps.get(&TOKEN), Some(&SweepInfo { target: TARGET, unlock_timestamp: 86400 }));
    let p = t.execute_sweep(TOKEN, 90000, 10000).unwrap();
    assert_eq!(p, Some(Payout { to: TARGET, amount: 10000 }));
    assert_eq!(10000 - p.unwrap().amount, 0);
    assert!(t.sweeps.is_empty());
}

#[test]
fn test_emergency_sweep_timelock_not_expired() {
    let mut t = setup();
    t.initiate_sweep(ADMIN, TOKEN, TARGET, 100).unwrap();
    assert_eq!(t.execute_sweep(TOKEN, 100, 10), Err(TreasuryError::TimelockNotExpired));
}

#[test]
fn test_emergency_sweep_no_sweep_active() {
    let mut t = setup();
    assert_eq!(t.execute_sweep(TOKEN, 0, 10), Err(TreasuryError::NoActiveSweep));
}

#[test]
fn dao_treasury_negative_allowance_refused() {
    let mut t = setup();
    assert_eq!(t.set_proposal_allowance(ADMIN, 1, TOKEN, -1), Err(TreasuryError::InvalidAmount));
    assert_eq!(t.execute_proposal_transfer(1, TOKEN, TARGET, 0), Err(TreasuryError::InvalidAmount));
}

#[test]
fn dao_treasury_sweep_unlock_saturates() {
    let mut t = setup();
    t.initiate_sweep(ADMIN, TOKEN, TARGET, u64::MAX - 5).unwrap();
    assert_eq!(t.sweeps.get(&TOKEN).unwrap().unlock_timestamp, u64::MAX);
    assert_eq!(t.execute_sweep(TOKEN, u64::MAX, 0), Ok(None));
}

#[test]
fn dao_treasury_uninitialised_admin_call() {
    let mut t = DaoTreasuryContract::new();
    assert_eq!(t.initiate_sweep(ADMIN, TOKEN, TARGET, 0), Err(TreasuryError::NotInitialized));
}
