use contracts::security_primitives::{
    isqrt, safe_add, safe_div, safe_mul, safe_sub, SecurityError, SecurityPrimitivesContract,
};

fn setup() -> (SecurityPrimitivesContract, u64) {
    (SecurityPrimitivesContract::new(), 1)
}

#[test]
fn security_primitives_test_test_initialize_success() {
    let (mut c, admin) = setup();
    assert_eq!(c.initialize(admin), Ok(()));
}

#[test]
fn security_primitives_test_test_initialize_already_initialized() {
    let (mut c, admin) = setup();
    c.initialize(admin).unwrap();
    assert_eq!(c.initialize(admin), Err(SecurityError::AlreadyInitialized));
}

#[test]
fn test_acquire_and_release_lock() {
    let (mut c, admin) = setup();
    c.initialize(admin).unwrap();
    assert!(!c.is_locked());
    c.acquire_lock().unwrap();
    assert!(c.is_locked());
    c.release_lock();
    assert!(!c.is_locked());
}

#[test]
fn test_acquire_lock_reentrant() {
    let (mut c, admin) = setup();
    c.initialize(admin).unwrap();
    c.acquire_lock().unwrap();
    assert_eq!(c.acquire_lock(), Err(SecurityError::Reentrant));
}

#[test]
fn acquire_lock_before_initialize_is_refused() {
    let (mut c, _admin) = setup();
    assert_eq!(c.acquire_lock(), Err(SecurityError::NotInitialized));
}

#[test]
fn test_release_without_acquire_is_noop() {
    let (mut c, admin) = setup();
    c.initialize(admin).unwrap();
    c.release_lock();
    assert!(!c.is_locked());
}

#[test]
fn test_lock_reacquirable_after_release() {
    let (mut c, admin) = setup();
    c.initialize(admin).unwrap();
    c.acquire_lock().unwrap();
    c.release_lock();
    c.acquire_lock().unwrap();
    assert!(c.is_locked());
}

#[test]
fn test_grant_and_check_role() {
    let (mut c, admin) = setup();
    c.initialize(admin).unwrap();
    let user = 2;
    assert!(!c.has_role(1, user));
    c.grant_role(admin, 1, user).unwrap();
    assert!(c.has_role(1, user));
}

#[test]
fn test_revoke_role() {
    let (mut c, admin) = setup();
    c.initialize(admin).unwrap();
    let user = 2;
    c.grant_role(admin, 2, user).unwrap();
    assert!(c.has_role(2, user));
    c.revoke_role(admin, 2, user).unwrap();
    assert!(!c.has_role(2, user));
}

#[test]
fn test_grant_role_unauthorized() {
    let (mut c, admin) = setup();
    c.initialize(admin).unwrap();
    let attacker = 3;
    let victim = 4;
    assert_eq!(c.grant_role(attacker, 1, victim), Err(SecurityError::Unauthorized));
    assert!(!c.has_role(1, victim));
}

#[test]
fn grant_role_before_initialize_is_refused() {
    let (mut c, admin) = setup();
    assert_eq!(c.grant_role(admin, 1, 2), Err(SecurityError::NotInitialized));
}

#[test]
fn test_roles_are_independent_per_address() {
    let (mut c, admin) = setup();
    c.initialize(admin).unwrap();
    let user_a = 2;
    let user_b = 3;
    c.grant_role(admin, 10, user_a).unwrap();
    assert!(c.has_role(10, user_a));
    assert!(!c.has_role(10, user_b));
    assert!(!c.has_role(11, user_a));
}

#[test]
fn test_safe_add_normal() {
    assert_eq!(safe_add(5, 3), Ok(8));
}

#[test]
fn test_safe_add_overflow() {
    assert_eq!(safe_add(i128::MAX, 1), Err(SecurityError::Overflow));
}

#[test]
fn test_safe_sub_normal() {
    assert_eq!(safe_sub(10, 4), Ok(6));
}

#[test]
fn test_safe_sub_underflow() {
    assert_eq!(safe_sub(i128::MIN, 1), Err(SecurityError::Underflow));
}

#[test]
fn test_safe_mul_normal() {
    assert_eq!(safe_mul(7, 6), Ok(42));
}

#[test]
fn test_safe_mul_overflow() {
    assert_eq!(safe_mul(i128::MAX, 2), Err(SecurityError::Overflow));
}

#[test]
fn test_safe_div_normal() {
    assert_eq!(safe_div(20, 4), Ok(5));
}

#[test]
fn safe_div_truncates_toward_zero() {
    assert_eq!(safe_div(-7, 2), Ok(-3));
    assert_eq!(safe_div(7, -2), Ok(-3));
    assert_eq!(safe_div(-7, -2), Ok(3));
}

#[test]
fn test_safe_div_zero() {
    assert_eq!(safe_div(10, 0), Err(SecurityError::DivisionByZero));
}

#[test]
fn test_safe_add_free_fn() {
    assert_eq!(safe_add(100, 200), Ok(300));
    assert_eq!(safe_add(-50, 50), Ok(0));
}

#[test]
fn test_safe_sub_free_fn() {
    assert_eq!(safe_sub(100, 40), Ok(60));
}

#[test]
fn test_safe_mul_free_fn() {
    assert_eq!(safe_mul(9, 9), Ok(81));
}

#[test]
fn test_safe_div_free_fn() {
    assert_eq!(safe_div(81, 9), Ok(9));
}

#[test]
fn test_isqrt_edge_cases() {
    assert_eq!(isqrt(0), 0);
    assert_eq!(isqrt(1), 1);
    assert_eq!(isqrt(3), 1);
    assert_eq!(isqrt(4), 2);
    assert_eq!(isqrt(9), 3);
    assert_eq!(isqrt(16), 4);
    assert_eq!(isqrt(25), 5);
    assert_eq!(isqrt(100), 10);
    assert_eq!(isqrt(99), 9);
    assert_eq!(isqrt(u128::MAX), u64::MAX as u128);
}

#[test]
fn test_isqrt_quadratic_voting_property() {
    for k in 0u128..=100 {
        assert_eq!(isqrt(k * k), k, "isqrt({k}²) should be {k}");
    }
}

#[test]
fn isqrt_is_floor_of_square_root_near_squares() {
    for k in 1u128..=1000 {
        assert_eq!(isqrt(k * k - 1), k - 1);
        assert_eq!(isqrt(k * k + 2 * k), k);
    }
    let big: u128 = 1u128 << 100;
    assert_eq!(isqrt(big), 1u128 << 50);
}
