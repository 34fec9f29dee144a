use contracts::smart_wallet::{SessionKeyInfo, SmartWalletContract, UserOperation, WalletError};

const OWNER: u64 = 1;
const SIGNER: u64 = 2;
const GUARDIAN: u64 = 3;
const SESSION: u64 = 4;
const STRANGER: u64 = 5;

fn op(nonce: u64, value: i128) -> UserOperation {
    UserOperation { wallet: 100, target: 200, function: "pay".to_string(), value, nonce }
}

fn setup(recovery_threshold: u32) -> SmartWalletContract {
    let mut w = SmartWalletContract::new();
    w.initialize(OWNER, vec![SIGNER], 2, vec![GUARDIAN], recovery_threshold).unwrap();
    w
}

#[test]
fn wallet_initialize_checks_threshold() {
    let mut w = SmartWalletContract::new();
    assert_eq!(w.initialize(OWNER, vec![SIGNER], 3, vec![], 1), Err(WalletError::InvalidThreshold));
    assert_eq!(w.initialize(OWNER, vec![SIGNER], 0, vec![], 1), Err(WalletError::InvalidThreshold));
    w.initialize(OWNER, vec![SIGNER], 2, vec![GUARDIAN], 1).unwrap();
    assert_eq!(w.initialize(OWNER, vec![], 1, vec![], 1), Err(WalletError::AlreadyInitialized));
    assert_eq!(w.get_owner(), Ok(OWNER));
    assert_eq!(w.guardian_count, 1);
}

#[test]
fn wallet_ops_run_in_nonce_order() {
    let mut w = setup(1);
    w.execute_user_op(OWNER, op(0, 10), 0).unwrap();
    assert_eq!(w.get_nonce(), 1);
    assert_eq!(w.execute_user_op(SIGNER, op(0, 10), 0), Err(WalletError::InvalidNonce));
    w.execute_user_op(SIGNER, op(1, 10), 0).unwrap();
    assert_eq!(w.execute_user_op(STRANGER, op(2, 1), 0), Err(WalletError::Unauthorized));
    w.execute_batch(OWNER, vec![op(2, 1), op(3, 1), op(4, 1)]).unwrap();
    assert_eq!(w.get_nonce(), 5);
    assert_eq!(w.execute_batch(OWNER, vec![op(5, 1), op(7, 1)]), Err(WalletError::InvalidNonce));
    assert_eq!(w.get_nonce(), 5);
}

#[test]
fn wallet_session_key_limits() {
    let mut w = setup(1);
    w.add_session_key(OWNER, SESSION, 100, 50).unwrap();
    w.execute_user_op(SESSION, op(0, 30), 10).unwrap();
    assert_eq!(w.execute_user_op(SESSION, op(1, 30), 10), Err(WalletError::SessionKeySpendLimitExceeded));
    w.execute_user_op(SESSION, op(1, 20), 10).unwrap();
    assert_eq!(w.session_keys.get(&SESSION), Some(&SessionKeyInfo { expiry_ledger: 100, spend_limit: 50, spent: 50 }));
    assert_eq!(w.execute_user_op(SESSION, op(2, 0), 101), Err(WalletError::SessionKeyExpired));
    w.revoke_session_key(SIGNER, SESSION).unwrap();
    assert_eq!(w.execute_user_op(SESSION, op(2, 0), 10), Err(WalletError::Unauthorized));
}

#[test]
fn wallet_recovery() {
    let mut w = setup(1);
    assert_eq!(w.propose_recovery(STRANGER, STRANGER), Err(WalletError::Unauthorized));
    w.propose_recovery(GUARDIAN, 9).unwrap();
    assert_eq!(w.get_owner(), Ok(9));
    assert!(!w.is_locked());

    let mut w = setup(2);
    w.propose_recovery(GUARDIAN, 9).unwrap();
    assert!(w.is_locked());
    assert_eq!(w.get_owner(), Ok(OWNER));
    assert_eq!(w.execute_user_op(OWNER, op(0, 1), 0), Err(WalletError::WalletLocked));
    assert_eq!(w.add_session_key(OWNER, SESSION, 1, 1), Err(WalletError::WalletLocked));
}
