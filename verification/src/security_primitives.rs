//! Reentrancy guard, checked arithmetic, role membership and the integer
//! square root used by quadratic voting.
use std::collections::HashMap;
use vstd::prelude::*;
use crate::common::{Address, get_or, map_get_or, pair_key, spec_pair_key, lemma_pair_key_injective};


verus! {

broadcast use vstd::std_specs::hash::group_hash_axioms;

/// Reasons for which the security primitives refuse a call.
#[derive(Copy, Clone, Debug, PartialEq, Eq, Structural)]
pub enum SecurityError {
    AlreadyInitialized,
    NotInitialized,
    Unauthorized,
    /// Reentrant call detected: the mutex was already held.
    Reentrant,
    Overflow,
    Underflow,
    DivisionByZero,
}

/// `r` is the integer square root of `n`: the largest `r` with `r * r <= n`.
pub open spec fn is_isqrt(n: int, r: int) -> bool {
    &&& 0 <= r
    &&& r * r <= n
    &&& n < (r + 1) * (r + 1)
}

/// The integer square root is unique: two roots of the same number agree.
pub proof fn lemma_isqrt_unique(n: int, r1: int, r2: int)
    requires
        is_isqrt(n, r1),
        is_isqrt(n, r2),
    ensures
        r1 == r2,
{
    if r1 < r2 {
        assert((r1 + 1) * (r1 + 1) <= r2 * r2) by (nonlinear_arith)
            requires
                0 <= r1,
                r1 + 1 <= r2,
        ;
    } else if r2 < r1 {
        assert((r2 + 1) * (r2 + 1) <= r1 * r1) by (nonlinear_arith)
            requires
                0 <= r2,
                r2 + 1 <= r1,
        ;
    }
}

/// The root of a perfect square `k * k` is `k`, for every `k`: the
/// property quadratic voting relies on.
pub proof fn lemma_isqrt_of_square(k: int, r: int)
    requires
        k >= 0,
        is_isqrt(k * k, r),
    ensures
        r == k,
{
    assert(is_isqrt(k * k, k)) by (nonlinear_arith)
        requires
            k >= 0,
    ;
    lemma_isqrt_unique(k * k, r, k);
}

/// The root grows with its argument.
pub proof fn lemma_isqrt_monotone(a: int, b: int, ra: int, rb: int)
    requires
        a <= b,
        is_isqrt(a, ra),
        is_isqrt(b, rb),
    ensures
        ra <= rb,
{
    if rb < ra {
        assert((rb + 1) * (rb + 1) <= ra * ra) by (nonlinear_arith)
            requires
                0 <= rb,
                rb + 1 <= ra,
        ;
    }
}

/// Any `t` with `t * t <= n` is at most `x + n / x` halved from above:
/// the arithmetic-geometric bound behind Newton's step.
proof fn lemma_newton_lower(n: int, x: int, t: int)
    requires
        1 <= x,
        0 <= t,
        0 <= n,
        t * t <= n,
    ensures
        x + n / x >= 2 * t,
{
    let q = n / x;
    assert(n < (q + 1) * x) by (nonlinear_arith)
        requires
            1 <= x,
            q == n / x,
    ;
    if x + q <= 2 * t - 1 {
        assert((q + 1) * x <= (2 * t - x) * x) by (nonlinear_arith)
            requires
                q + 1 <= 2 * t - x,
                1 <= x,
        ;
        assert((2 * t - x) * x <= t * t) by (nonlinear_arith);
    }
}

/// One Newton step from an over-estimate stays an over-estimate.
proof fn lemma_newton_step_upper(n: int, x: int)
    requires
        1 <= x,
        0 <= n,
    ensures
        n < ((x + n / x) / 2 + 1) * ((x + n / x) / 2 + 1),
{
    let y = (x + n / x) / 2;
    if (y + 1) * (y + 1) <= n {
        assert(0 <= y + 1);
        lemma_newton_lower(n, x, y + 1);
    }
}

/// A Newton step that does not descend means the estimate is small enough.
proof fn lemma_newton_stop(n: int, x: int)
    requires
        1 <= x,
        0 <= n,
        (x + n / x) / 2 >= x,
    ensures
        x * x <= n,
{
    if x * x > n {
        assert(n / x < x) by (nonlinear_arith)
            requires
                1 <= x,
                x * x > n,
                0 <= n,
        ;
    }
}

/// Between `1` and `n`, `x + n / x` never exceeds `n + 1`.
proof fn lemma_newton_sum_bound(n: int, x: int)
    requires
        1 <= x <= n,
    ensures
        x + n / x <= n + 1,
{
    let q = n / x;
    assert(q * x <= n) by (nonlinear_arith)
        requires
            1 <= x,
            q == n / x,
            0 <= n,
    ;
    if x + q >= n + 2 {
        assert(q * x >= (n + 2 - x) * x) by (nonlinear_arith)
            requires
                q >= n + 2 - x,
                1 <= x,
        ;
        assert((n + 2 - x) * x - n == (x - 1) * (n - x) + x) by (nonlinear_arith);
        assert((x - 1) * (n - x) >= 0) by (nonlinear_arith)
            requires
                1 <= x <= n,
        ;
    }
}

/// Integer square root (floor) by Newton's method.
///
/// Returns the largest `k` such that `k * k <= n`.
pub fn isqrt(n: u128) -> (r: u128)
    ensures
        is_isqrt(n as int, r as int),
{
    if n == 0 {
        assert(is_isqrt(0, 0)) by (nonlinear_arith);
        return 0;
    }
    if n == u128::MAX {
        assert(is_isqrt(n as int, 0xffff_ffff_ffff_ffff));
        return 0xffff_ffff_ffff_ffffu128;
    }
    let mut x: u128 = n;
    let mut y: u128 = (x + 1) / 2;
    assert(n / n == 1) by (nonlinear_arith)
        requires
            n >= 1,
    ;
    assert(n < (n as int + 1) * (n as int + 1)) by (nonlinear_arith)
        requires
            n >= 1,
    ;
    while y < x
        invariant
            1 <= x <= n,
            n < u128::MAX,
            n < (x + 1) * (x + 1),
            y == (x + n / x) / 2,
        decreases x,
    {
        proof {
            lemma_newton_step_upper(n as int, x as int);
            lemma_newton_sum_bound(n as int, x as int);
        }
        x = y;
        assert(1 <= x) by (nonlinear_arith)
            requires
                n < (x + 1) * (x + 1),
                n >= 1,
                x >= 0,
        ;
        proof {
            lemma_newton_sum_bound(n as int, x as int);
        }
        y = (x + n / x) / 2;
    }
    proof {
        lemma_newton_stop(n as int, x as int);
    }
    x
}


/// Storage of the security primitives contract.
pub struct SecurityPrimitivesContract {
    /// Admin address controlling role management; `None` before initialisation.
    pub admin: Option<Address>,
    /// Global reentrancy mutex. `true` == locked.
    pub locked: bool,
    /// Role membership, keyed by `pair_key(role_id, holder)`.
    pub roles: HashMap<u128, bool>,
}

impl SecurityPrimitivesContract {
    /// Whether `account` holds `role_id` in this storage.
    pub open spec fn role_held(&self, role_id: u32, account: Address) -> bool {
        map_get_or(self.roles@, spec_pair_key(role_id as u64, account), false)
    }

    /// Fresh, uninitialised storage.
    pub fn new() -> (c: Self)
        ensures
            c.admin is None,
            !c.locked,
            c.roles@ == Map::<u128, bool>::empty(),
    {
        SecurityPrimitivesContract { admin: None, locked: false, roles: HashMap::new() }
    }

    /// Initialise the contract. Must be called exactly once.
    pub fn initialize(&mut self, admin: Address) -> (r: Result<(), SecurityError>)
        ensures
            r == (if old(self).admin is Some { Err::<(), SecurityError>(SecurityError::AlreadyInitialized) } else { Ok(()) }),
            r is Err ==> *final(self) == *old(self),
            r is Ok ==> final(self).admin == Some(admin) && !final(self).locked
                && final(self).roles@ == old(self).roles@,
    {
        if self.admin.is_some() {
            return Err(SecurityError::AlreadyInitialized);
        }
        self.admin = Some(admin);
        self.locked = false;
        Ok(())
    }

    /// Acquire the global reentrancy lock.
    pub fn acquire_lock(&mut self) -> (r: Result<(), SecurityError>)
        ensures
            old(self).admin is None ==> r == Err::<(), SecurityError>(SecurityError::NotInitialized),
            old(self).admin is Some && old(self).locked ==> r == Err::<(), SecurityError>(SecurityError::Reentrant),
            old(self).admin is Some && !old(self).locked ==> r is Ok,
            r is Err ==> *final(self) == *old(self),
            r is Ok ==> final(self).locked && final(self).admin == old(self).admin
                && final(self).roles@ == old(self).roles@,
    {
        if self.admin.is_none() {
            return Err(SecurityError::NotInitialized);
        }
        nonreentrant_acquire(&mut self.locked)
    }

    /// Release the global reentrancy lock.
    pub fn release_lock(&mut self)
        ensures
            !final(self).locked,
            final(self).admin == old(self).admin,
            final(self).roles@ == old(self).roles@,
    {
        nonreentrant_release(&mut self.locked);
    }

    /// Returns `true` if the reentrancy lock is currently held.
    pub fn is_locked(&self) -> (r: bool)
        ensures
            r == self.locked,
    {
        self.locked
    }

    fn assert_admin(&self, caller: Address) -> (r: Result<(), SecurityError>)
        ensures
            r == (match self.admin {
                None => Err(SecurityError::NotInitialized),
                Some(a) => if a == caller { Ok(()) } else { Err(SecurityError::Unauthorized) },
            }),
    {
        match self.admin {
            None => Err(SecurityError::NotInitialized),
            Some(a) => if a == caller { Ok(()) } else { Err(SecurityError::Unauthorized) },
        }
    }

    /// Grant `role_id` to `account`. Only the admin may call.
    pub fn grant_role(&mut self, caller: Address, role_id: u32, account: Address) -> (r: Result<(), SecurityError>)
        ensures
            r == (match old(self).admin {
                None => Err(SecurityError::NotInitialized),
                Some(a) => if a == caller { Ok(()) } else { Err(SecurityError::Unauthorized) },
            }),
            r is Err ==> *final(self) == *old(self),
            r is Ok ==> final(self).roles@ == old(self).roles@.insert(spec_pair_key(role_id as u64, account), true)
                && final(self).admin == old(self).admin && final(self).locked == old(self).locked,
    {
        self.assert_admin(caller)?;
        let k = pair_key(role_id as u64, account);
        self.roles.insert(k, true);
        Ok(())
    }

    /// Revoke `role_id` from `account`. Only the admin may call.
    pub fn revoke_role(&mut self, caller: Address, role_id: u32, account: Address) -> (r: Result<(), SecurityError>)
        ensures
            r == (match old(self).admin {
                None => Err(SecurityError::NotInitialized),
                Some(a) => if a == caller { Ok(()) } else { Err(SecurityError::Unauthorized) },
            }),
            r is Err ==> *final(self) == *old(self),
            r is Ok ==> final(self).roles@ == old(self).roles@.insert(spec_pair_key(role_id as u64, account), false)
                && final(self).admin == old(self).admin && final(self).locked == old(self).locked,
    {
        self.assert_admin(caller)?;
        let k = pair_key(role_id as u64, account);
        self.roles.insert(k, false);
        Ok(())
    }

    /// Returns `true` if `account` holds `role_id`.
    pub fn has_role(&self, role_id: u32, account: Address) -> (r: bool)
        ensures
            r == self.role_held(role_id, account),
    {
        let k = pair_key(role_id as u64, account);
        get_or(&self.roles, &k, false)
    }
}

/// Granting a role and then asking for it answers yes; granting touches no
/// other (role, account) pair.
pub proof fn lemma_grant_then_has_role(
    before: SecurityPrimitivesContract,
    after: SecurityPrimitivesContract,
    role_id: u32,
    account: Address,
    other_role: u32,
    other_account: Address,
)
    requires
        after.roles@ == before.roles@.insert(spec_pair_key(role_id as u64, account), true),
    ensures
        after.role_held(role_id, account),
        (other_role != role_id || other_account != account) ==> after.role_held(other_role, other_account)
            == before.role_held(other_role, other_account),
{
    lemma_pair_key_injective(role_id as u64, account, other_role as u64, other_account);
}

/// Acquire the reentrancy lock held in `lock`.
pub fn nonreentrant_acquire(lock: &mut bool) -> (r: Result<(), SecurityError>)
    ensures
        *old(lock) <==> r == Err::<(), SecurityError>(SecurityError::Reentrant),
        !*old(lock) ==> r is Ok,
        *final(lock),
{
    if *lock {
        return Err(SecurityError::Reentrant);
    }
    *lock = true;
    Ok(())
}

/// Release the lock previously acquired by [`nonreentrant_acquire`].
pub fn nonreentrant_release(lock: &mut bool)
    ensures
        !*final(lock),
{
    *lock = false;
}

/// Overflow-checked `i128` addition.
pub fn safe_add(a: i128, b: i128) -> (r: Result<i128, SecurityError>)
    ensures
        i128::MIN <= a + b <= i128::MAX ==> r == Ok::<i128, SecurityError>((a + b) as i128),
        !(i128::MIN <= a + b <= i128::MAX) ==> r == Err::<i128, SecurityError>(SecurityError::Overflow),
{
    match a.checked_add(b) {
        Some(v) => Ok(v),
        None => Err(SecurityError::Overflow),
    }
}

/// Underflow-checked `i128` subtraction.
pub fn safe_sub(a: i128, b: i128) -> (r: Result<i128, SecurityError>)
    ensures
        i128::MIN <= a - b <= i128::MAX ==> r == Ok::<i128, SecurityError>((a - b) as i128),
        !(i128::MIN <= a - b <= i128::MAX) ==> r == Err::<i128, SecurityError>(SecurityError::Underflow),
{
    match a.checked_sub(b) {
        Some(v) => Ok(v),
        None => Err(SecurityError::Underflow),
    }
}

/// Overflow-checked `i128` multiplication.
pub fn safe_mul(a: i128, b: i128) -> (r: Result<i128, SecurityError>)
    ensures
        i128::MIN <= a * b <= i128::MAX ==> r == Ok::<i128, SecurityError>((a * b) as i128),
        !(i128::MIN <= a * b <= i128::MAX) ==> r == Err::<i128, SecurityError>(SecurityError::Overflow),
{
    match a.checked_mul(b) {
        Some(v) => Ok(v),
        None => Err(SecurityError::Overflow),
    }
}

/// Integer division truncating toward zero, as Rust's `/` on `i128` does.
pub open spec fn spec_trunc_div(a: int, b: int) -> int {
    if a >= 0 {
        a / b
    } else {
        -((-a) / b)
    }
}

/// Checked `i128` division: refuses a zero divisor and the one quotient that
/// does not fit (`i128::MIN / -1`).
pub fn safe_div(a: i128, b: i128) -> (r: Result<i128, SecurityError>)
    requires
        !(a == i128::MIN && b == -1),
    ensures
        b == 0 <==> r == Err::<i128, SecurityError>(SecurityError::DivisionByZero),
        b != 0 ==> r == Ok::<i128, SecurityError>(spec_trunc_div(a as int, b as int) as i128),
{
    if b == 0 {
        return Err(SecurityError::DivisionByZero);
    }
    Ok(a / b)
}

/// Whether `x` is a value of `i128`.
pub open spec fn fits_i128(x: int) -> bool {
    i128::MIN <= x <= i128::MAX
}

/// Truncating division of an `i128` value by a nonzero divisor stays in
/// `i128`, except `i128::MIN / -1`.
pub proof fn lemma_trunc_div_fits(a: int, b: int)
    requires
        fits_i128(a),
        b != 0,
        !(a == i128::MIN && b == -1),
    ensures
        fits_i128(spec_trunc_div(a, b)),
{
    if a >= 0 {
        if b > 0 {
            assert(a / b <= a) by (nonlinear_arith) requires a >= 0, b > 0;
            assert(a / b >= 0) by (nonlinear_arith) requires a >= 0, b > 0;
        } else {
            assert(a / b >= -a) by (nonlinear_arith) requires a >= 0, b < 0;
            assert(a / b <= 0) by (nonlinear_arith) requires a >= 0, b < 0;
        }
    } else {
        let na = -a;
        if b > 0 {
            assert(na / b <= na) by (nonlinear_arith) requires na > 0, b > 0;
            assert(na / b >= 0) by (nonlinear_arith) requires na > 0, b > 0;
        } else if b == -1 {
            assert(na / b == -na) by (nonlinear_arith) requires b == -1;
        } else {
            assert(na / b >= -na / 2) by (nonlinear_arith) requires na > 0, b <= -2;
            assert(na / b <= 0) by (nonlinear_arith) requires na > 0, b < 0;
        }
    }
}

} // verus!
