use contracts::circuit_breaker::{assert_not_paused, CBError, CircuitBreakerContract};

const ADMIN: u64 = 1;
const G1: u64 = 11;
const G2: u64 = 12;
const G3: u64 = 13;
const ROGUE: u64 = 99;

fn setup(threshold: u32) -> CircuitBreakerContract {
    let mut cb = CircuitBreakerContract::new();
    cb.initialize(vec![ADMIN], vec![G1, G2, G3], threshold).unwrap();
    cb
}

#[test]
fn circuit_breaker_tests_test_initialize_ok() {
    let cb = setup(1);
    assert!(!cb.is_paused());
    assert_eq!(cb.nonce(), 0);
}

#[test]
fn circuit_breaker_tests_test_initialize_twice_panics() {
    let mut cb = setup(1);
    assert_eq!(cb.initialize(vec![ADMIN], vec![G1], 1), Err(CBError::AlreadyInitialized));
}

#[test]
fn test_initialize_zero_threshold_panics() {
    let mut cb = CircuitBreakerContract::new();
    assert_eq!(cb.initialize(vec![ADMIN], vec![G1], 0), Err(CBError::InvalidThreshold));
}

#[test]
fn test_initialize_threshold_exceeds_guardians_panics() {
    let mut cb = CircuitBreakerContract::new();
    assert_eq!(cb.initialize(vec![ADMIN], vec![G1], 2), Err(CBError::InvalidThreshold));
}

#[test]
fn test_pause_by_admin_sets_paused() {
    let mut cb = setup(1);
    cb.pause(ADMIN, 100).unwrap();
    assert!(cb.is_paused());
    assert_eq!(cb.paused_at, Some(100));
    assert_eq!(cb.paused_by, Some(ADMIN));
}

#[test]
fn test_pause_increments_nonce() {
    let mut cb = setup(1);
    assert_eq!(cb.nonce(), 0);
    cb.pause(ADMIN, 0).unwrap();
    assert_eq!(cb.nonce(), 1);
}

#[test]
fn test_pause_by_non_admin_panics() {
    let mut cb = setup(1);
    assert_eq!(cb.pause(ROGUE, 0), Err(CBError::Unauthorized));
    assert!(!cb.is_paused());
}

#[test]
fn test_assert_not_paused_when_active_ok() {
    let cb = setup(1);
    assert_eq!(assert_not_paused(&cb), Ok(()));
}

#[test]
fn test_assert_not_paused_when_paused_panics() {
    let mut cb = setup(1);
    cb.pause(ADMIN, 0).unwrap();
    assert_eq!(assert_not_paused(&cb), Err(CBError::ContractPaused));
}

#[test]
fn test_approve_unpause_increments_count() {
    let mut cb = setup(1);
    cb.pause(ADMIN, 0).unwrap();
    assert_eq!(cb.approval_count(), 0);
    cb.approve_unpause(G1).unwrap();
    assert_eq!(cb.approval_count(), 1);
}

#[test]
fn test_approve_unpause_when_not_paused_panics() {
    let mut cb = setup(1);
    assert_eq!(cb.approve_unpause(G1), Err(CBError::NotPaused));
}

#[test]
fn test_approve_unpause_duplicate_panics() {
    let mut cb = setup(1);
    cb.pause(ADMIN, 0).unwrap();
    cb.approve_unpause(G1).unwrap();
    assert_eq!(cb.approve_unpause(G1), Err(CBError::AlreadyApproved));
    assert_eq!(cb.approval_count(), 1);
}

#[test]
fn test_approve_unpause_non_guardian_panics() {
    let mut cb = setup(1);
    cb.pause(ADMIN, 0).unwrap();
    assert_eq!(cb.approve_unpause(ROGUE), Err(CBError::Unauthorized));
}

#[test]
fn test_execute_unpause_1_of_3_succeeds() {
    let mut cb = setup(1);
    cb.pause(ADMIN, 0).unwrap();
    cb.approve_unpause(G1).unwrap();
    cb.execute_unpause().unwrap();
    assert!(!cb.is_paused());
}

#[test]
fn test_execute_unpause_insufficient_approvals_panics() {
    let mut cb = setup(2);
    cb.pause(ADMIN, 0).unwrap();
    cb.approve_unpause(G1).unwrap();
    assert_eq!(cb.execute_unpause(), Err(CBError::InsufficientApprovals));
    assert!(cb.is_paused());
}

#[test]
fn test_execute_unpause_2_of_3_succeeds() {
    let mut cb = setup(2);
    cb.pause(ADMIN, 0).unwrap();
    cb.approve_unpause(G1).unwrap();
    cb.approve_unpause(G2).unwrap();
    cb.execute_unpause().unwrap();
    assert!(!cb.is_paused());
}

#[test]
fn test_execute_unpause_3_of_3_succeeds() {
    let mut cb = setup(3);
    cb.pause(ADMIN, 0).unwrap();
    cb.approve_unpause(G1).unwrap();
    cb.approve_unpause(G2).unwrap();
    cb.approve_unpause(G3).unwrap();
    cb.execute_unpause().unwrap();
    assert!(!cb.is_paused());
}

#[test]
fn test_execute_unpause_when_not_paused_panics() {
    let mut cb = setup(1);
    assert_eq!(cb.execute_unpause(), Err(CBError::NotPaused));
}

#[test]
fn test_approvals_cleared_after_repause() {
    let mut cb = setup(2);
    cb.pause(ADMIN, 0).unwrap();
    cb.approve_unpause(G1).unwrap();
    assert_eq!(cb.approval_count(), 1);
    cb.approve_unpause(G2).unwrap();
    cb.execute_unpause().unwrap();
    cb.pause(ADMIN, 1).unwrap();
    assert_eq!(cb.approval_count(), 0, "approvals must be cleared after re-pause");
}

#[test]
fn test_nonce_increments_on_each_pause() {
    let mut cb = setup(1);
    cb.pause(ADMIN, 0).unwrap();
    let n1 = cb.nonce();
    cb.approve_unpause(G1).unwrap();
    cb.execute_unpause().unwrap();
    cb.pause(ADMIN, 1).unwrap();
    let n2 = cb.nonce();
    assert!(n2 > n1, "nonce must increase on each pause");
}

#[test]
fn test_add_admin_allows_new_admin_to_pause() {
    let mut cb = setup(1);
    cb.add_admin(ADMIN, 2).unwrap();
    cb.pause(2, 0).unwrap();
    assert!(cb.is_paused());
}

#[test]
fn test_add_guardian_allows_new_guardian_to_approve() {
    let mut cb = setup(1);
    cb.add_guardian(ADMIN, 14).unwrap();
    cb.pause(ADMIN, 0).unwrap();
    cb.approve_unpause(14).unwrap();
    assert_eq!(cb.approval_count(), 1);
}

#[test]
fn test_set_threshold_updates_requirement() {
    let mut cb = setup(1);
    cb.set_threshold(ADMIN, 2).unwrap();
    cb.pause(ADMIN, 0).unwrap();
    cb.approve_unpause(G1).unwrap();
    let result = cb.execute_unpause();
    assert!(result.is_err(), "should panic with insufficient approvals after threshold raise");
}

#[test]
fn test_add_admin_by_non_admin_panics() {
    let mut cb = setup(1);
    assert_eq!(cb.add_admin(ROGUE, ROGUE), Err(CBError::Unauthorized));
}

#[test]
fn test_set_threshold_exceeds_guardian_count_panics() {
    let mut cb = setup(1);
    assert_eq!(cb.set_threshold(ADMIN, 10), Err(CBError::InvalidThreshold));
}

#[test]
fn circuit_breaker_add_existing_admin_keeps_single_entry() {
    let mut cb = setup(1);
    cb.add_admin(ADMIN, ADMIN).unwrap();
    assert_eq!(cb.admins, vec![ADMIN]);
}

#[test]
fn circuit_breaker_nonce_wraps_to_zero() {
    let mut cb = setup(1);
    cb.nonce = u32::MAX;
    cb.pause(ADMIN, 0).unwrap();
    assert_eq!(cb.nonce(), 0);
    assert_eq!(cb.approval_count(), 0);
}
