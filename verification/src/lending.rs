//! Collateralised lending: users deposit collateral, borrow against it and
//! repay; borrow interest accrues through a per-token index that grows
//! linearly in the time since its last update. Borrowing and withdrawing
//! must keep the position at the minimum collateral ratio, and a position
//! below it can be liquidated: the liquidator repays debt and seizes
//! collateral plus a bonus. Oracle prices are passed in by the caller.
use std::collections::HashMap;
use vstd::prelude::*;
use crate::common::{Address, get_or, map_get_or, pair_key, spec_pair_key};
use crate::security_primitives::{fits_i128, lemma_trunc_div_fits, spec_trunc_div};

verus! {

broadcast use vstd::std_specs::hash::group_hash_axioms;

/// Basis-point denominator (10 000 = 100 %).
pub const BPS: i128 = 10_000;

/// Fixed-point scale of the interest index (1.0 = 10^12).
pub const SCALE: i128 = 1_000_000_000_000;

/// Seconds in a year, the period of the annual rate.
pub const SECS_PER_YEAR: i128 = 31_536_000;

#[derive(Copy, Clone, Debug, PartialEq, Eq, Structural)]
pub enum LendingError {
    AlreadyInitialized,
    NotInitialized,
    Unauthorized,
    InsufficientCollateral,
    BelowMinCollRatio,
    ZeroAmount,
    TokenNotSupported,
    Overflow,
    Underflow,
    PositionHealthy,
    OracleStale,
}

/// A borrower's principal rebased from the index `u` it was last brought to
/// onto the current index `g`; it only ever moves forward.
pub open spec fn rebased_debt(p: i128, g: i128, u: i128) -> int {
    if p != 0 && g > u { spec_trunc_div(p * g, u as int) } else { p as int }
}

/// The rebasing of a principal can be computed without fault.
pub open spec fn rebase_fits(p: i128, g: i128, u: i128) -> bool {
    p == 0 || g <= u || (u != 0 && fits_i128(p * g) && !(p * g == i128::MIN && u == -1))
}

/// Storage of the lending contract. Per-user entries are keyed by
/// `pair_key(user, token)`.
pub struct LendingContract {
    pub admin: Option<Address>,
    pub oracle: Option<Address>,
    pub min_coll_ratio: Option<i128>,
    pub liq_bonus: Option<i128>,
    /// Collateral factor per supported token, in basis points.
    pub collateral_factor: HashMap<Address, i128>,
    /// Annual borrow rate per token, in basis points.
    pub borrow_rate: HashMap<Address, i128>,
    pub collateral: HashMap<u128, i128>,
    pub borrow_principal: HashMap<u128, i128>,
    /// Index each borrower's principal was last brought to.
    pub borrow_index: HashMap<u128, i128>,
    /// Interest index per token; read as `SCALE` where unset.
    pub global_index: HashMap<Address, i128>,
    /// When each token's index was last brought forward.
    pub last_update: HashMap<Address, u64>,
    pub total_borrows: HashMap<Address, i128>,
}

impl LendingContract {
    pub open spec fn is_supported(&self, token: Address) -> bool {
        self.collateral_factor@.contains_key(token)
    }

    pub open spec fn collateral_spec(&self, user: Address, token: Address) -> i128 {
        map_get_or(self.collateral@, spec_pair_key(user, token), 0i128)
    }

    pub open spec fn principal_of(&self, user: Address, token: Address) -> i128 {
        map_get_or(self.borrow_principal@, spec_pair_key(user, token), 0i128)
    }

    pub open spec fn user_index_of(&self, user: Address, token: Address) -> i128 {
        map_get_or(self.borrow_index@, spec_pair_key(user, token), SCALE)
    }

    pub open spec fn index_of(&self, token: Address) -> i128 {
        map_get_or(self.global_index@, token, SCALE)
    }

    pub open spec fn rate_of(&self, token: Address) -> i128 {
        map_get_or(self.borrow_rate@, token, 0i128)
    }

    pub open spec fn total_borrows_of(&self, token: Address) -> i128 {
        map_get_or(self.total_borrows@, token, 0i128)
    }

    pub open spec fn last_ts(&self, token: Address, now: u64) -> u64 {
        map_get_or(self.last_update@, token, now)
    }

    /// Time has passed since the index of `token` was last brought forward.
    pub open spec fn accrual_due(&self, token: Address, now: u64) -> bool {
        now > self.last_ts(token, now)
    }

    /// Growth of the index of `token` up to `now`:
    /// `index * rate * elapsed / (BPS * SECS_PER_YEAR)`, truncated.
    pub open spec fn accrual_delta(&self, token: Address, now: u64) -> int {
        spec_trunc_div(
            self.index_of(token) * self.rate_of(token) * (now - self.last_ts(token, now)),
            BPS * SECS_PER_YEAR,
        )
    }

    /// Bringing the index of `token` forward to `now` stays within `i128`.
    pub open spec fn accrual_fits(&self, token: Address, now: u64) -> bool {
        !self.accrual_due(token, now) || self.rate_of(token) == 0 || {
            &&& fits_i128(self.index_of(token) * self.rate_of(token))
            &&& fits_i128(self.index_of(token) * self.rate_of(token) * (now - self.last_ts(token, now)))
            &&& fits_i128(self.index_of(token) + self.accrual_delta(token, now))
        }
    }

    /// The index of `token` once brought forward to `now`.
    pub open spec fn index_after(&self, token: Address, now: u64) -> i128 {
        if self.accrual_due(token, now) && self.rate_of(token) != 0 {
            (self.index_of(token) + self.accrual_delta(token, now)) as i128
        } else {
            self.index_of(token)
        }
    }

    pub open spec fn global_index_after(&self, token: Address, now: u64) -> Map<Address, i128> {
        if self.accrual_due(token, now) && self.rate_of(token) != 0 {
            self.global_index@.insert(token, self.index_after(token, now))
        } else {
            self.global_index@
        }
    }

    pub open spec fn last_update_after(&self, token: Address, now: u64) -> Map<Address, u64> {
        if self.accrual_due(token, now) { self.last_update@.insert(token, now) } else { self.last_update@ }
    }

    /// The debt of `user` in `token` once the index is brought to `now`.
    pub open spec fn debt_after(&self, user: Address, token: Address, now: u64) -> int {
        rebased_debt(self.principal_of(user, token), self.index_after(token, now), self.user_index_of(user, token))
    }

    /// Everything a borrow or repay computes before its own checks fits.
    pub open spec fn accrue_fits(&self, user: Address, token: Address, now: u64) -> bool {
        &&& self.accrual_fits(token, now)
        &&& rebase_fits(self.principal_of(user, token), self.index_after(token, now), self.user_index_of(user, token))
    }

    /// Collateral factor of `token` in basis points; 7 500 where unset.
    pub open spec fn cf_of(&self, token: Address) -> i128 {
        map_get_or(self.collateral_factor@, token, 7_500i128)
    }

    /// Minimum collateral ratio in basis points; 15 000 where unset.
    pub open spec fn min_ratio(&self) -> i128 {
        match self.min_coll_ratio {
            Some(m) => m,
            None => 15_000i128,
        }
    }

    /// Liquidation bonus in basis points; 500 where unset.
    pub open spec fn bonus(&self) -> i128 {
        match self.liq_bonus {
            Some(b) => b,
            None => 500i128,
        }
    }

    /// Value of `coll` units of `coll_token` at `coll_price`, weighted by
    /// the token's collateral factor: `coll * coll_price * cf / BPS`.
    pub open spec fn adjusted_collateral(&self, coll: i128, coll_token: Address, coll_price: i128) -> int {
        spec_trunc_div(coll * coll_price * self.cf_of(coll_token), BPS as int)
    }

    /// Collateral value that a debt of `debt` at `debt_price` calls for:
    /// `debt * debt_price * min_ratio / BPS`.
    pub open spec fn required_collateral(&self, debt: int, debt_price: i128) -> int {
        spec_trunc_div(debt * debt_price * self.min_ratio(), BPS as int)
    }

    /// Outcome of the health check of one (collateral, debt) pair: a
    /// position without debt is healthy; otherwise the oracle must be set
    /// and both prices positive, and the weighted collateral must cover the
    /// required collateral.
    pub open spec fn pair_refusal(
        &self,
        coll: i128,
        coll_token: Address,
        debt: int,
        coll_price: i128,
        debt_price: i128,
    ) -> Option<LendingError> {
        if debt == 0 {
            None
        } else if self.oracle is None {
            Some(LendingError::NotInitialized)
        } else if coll_price <= 0 || debt_price <= 0 {
            Some(LendingError::OracleStale)
        } else if self.adjusted_collateral(coll, coll_token, coll_price) < self.required_collateral(debt, debt_price) {
            Some(LendingError::BelowMinCollRatio)
        } else {
            None
        }
    }

    /// The health check of a pair computes its values without overflow.
    pub open spec fn pair_fits(
        &self,
        coll: i128,
        coll_token: Address,
        debt: int,
        coll_price: i128,
        debt_price: i128,
    ) -> bool {
        debt == 0 || self.oracle is None || coll_price <= 0 || debt_price <= 0 || {
            &&& fits_i128(coll * coll_price)
            &&& fits_i128(coll * coll_price * self.cf_of(coll_token))
            &&& fits_i128(debt * debt_price)
            &&& fits_i128(debt * debt_price * self.min_ratio())
        }
    }

    /// The index map once `t1` and then `t2` are brought forward to `now`.
    pub open spec fn global_index_after2(&self, t1: Address, t2: Address, now: u64) -> Map<Address, i128> {
        if t2 != t1 && self.accrual_due(t2, now) && self.rate_of(t2) != 0 {
            self.global_index_after(t1, now).insert(t2, self.index_after(t2, now))
        } else {
            self.global_index_after(t1, now)
        }
    }

    /// The update times once `t1` and then `t2` are brought forward to `now`.
    pub open spec fn last_update_after2(&self, t1: Address, t2: Address, now: u64) -> Map<Address, u64> {
        if t2 != t1 && self.accrual_due(t2, now) {
            self.last_update_after(t1, now).insert(t2, now)
        } else {
            self.last_update_after(t1, now)
        }
    }

    /// Collateral of `coll_token` seized for repaying `repay` of a debt token
    /// priced `debt_price`, with the bonus:
    /// `repay * debt_price * (BPS + bonus) / (coll_price * BPS)`.
    pub open spec fn seize_for(&self, repay: i128, debt_price: i128, coll_price: i128) -> int {
        spec_trunc_div(repay * debt_price * (BPS + self.bonus()), coll_price * BPS)
    }

    /// The seized amount can be computed without overflow.
    pub open spec fn seize_fits(&self, repay: i128, debt_price: i128, coll_price: i128) -> bool {
        &&& fits_i128(repay * debt_price)
        &&& fits_i128(BPS + self.bonus())
        &&& fits_i128(repay * debt_price * (BPS + self.bonus()))
        &&& fits_i128(coll_price * BPS)
    }

    /// Outcome of a liquidation of `borrower` at `now`, before any change:
    /// the error it is refused with, or the amounts repaid and seized.
    pub open spec fn liquidation(
        &self,
        borrower: Address,
        debt_token: Address,
        collateral_token: Address,
        repay_amount: i128,
        now: u64,
        debt_price: i128,
        coll_price: i128,
    ) -> Result<(i128, i128), LendingError> {
        let d = self.debt_after(borrower, debt_token, now);
        let coll = self.collateral_spec(borrower, collateral_token);
        if repay_amount <= 0 {
            Err(LendingError::ZeroAmount)
        } else {
            match self.pair_refusal(coll, collateral_token, d, coll_price, debt_price) {
                None => Err(LendingError::PositionHealthy),
                Some(LendingError::BelowMinCollRatio) => {
                    if !self.seize_fits(repay_amount, debt_price, coll_price) {
                        Err(LendingError::Overflow)
                    } else {
                        let seize = self.seize_for(repay_amount, debt_price, coll_price);
                        let repaid = if repay_amount > d { d } else { repay_amount as int };
                        let seized = if seize > coll { coll as int } else { seize };
                        if !fits_i128(coll - seized) {
                            Err(LendingError::Overflow)
                        } else {
                            Ok((repaid as i128, seized as i128))
                        }
                    }
                },
                Some(e) => Err(e),
            }
        }
    }

    /// Fresh, uninitialised storage.
    pub fn new() -> (c: Self)
        ensures
            c.admin is None && c.oracle is None && c.min_coll_ratio is None && c.liq_bonus is None,
            c.collateral_factor@ == Map::<Address, i128>::empty(),
            c.borrow_rate@ == Map::<Address, i128>::empty(),
            c.collateral@ == Map::<u128, i128>::empty(),
            c.borrow_principal@ == Map::<u128, i128>::empty(),
            c.borrow_index@ == Map::<u128, i128>::empty(),
            c.global_index@ == Map::<Address, i128>::empty(),
            c.last_update@ == Map::<Address, u64>::empty(),
            c.total_borrows@ == Map::<Address, i128>::empty(),
    {
        LendingContract {
            admin: None,
            oracle: None,
            min_coll_ratio: None,
            liq_bonus: None,
            collateral_factor: HashMap::new(),
            borrow_rate: HashMap::new(),
            collateral: HashMap::new(),
            borrow_principal: HashMap::new(),
            borrow_index: HashMap::new(),
            global_index: HashMap::new(),
            last_update: HashMap::new(),
            total_borrows: HashMap::new(),
        }
    }

    /// Record the admin, the price oracle, the minimum collateral ratio and
    /// the liquidation bonus (both in basis points).
    pub fn initialize(&mut self, admin: Address, oracle: Address, min_coll_ratio: i128, liq_bonus: i128) -> (r: Result<(), LendingError>)
        ensures
            r == (if old(self).admin is Some { Err(LendingError::AlreadyInitialized) } else { Ok(()) }),
            r is Err ==> *final(self) == *old(self),
            r is Ok ==> *final(self) == (LendingContract {
                admin: Some(admin),
                oracle: Some(oracle),
                min_coll_ratio: Some(min_coll_ratio),
                liq_bonus: Some(liq_bonus),
                ..*old(self)
            }),
    {
        if self.admin.is_some() {
            return Err(LendingError::AlreadyInitialized);
        }
        self.admin = Some(admin);
        self.oracle = Some(oracle);
        self.min_coll_ratio = Some(min_coll_ratio);
        self.liq_bonus = Some(liq_bonus);
        Ok(())
    }

    /// The admin lists `token` at time `now`; a token listed for the first
    /// time starts its index at `SCALE` and its total borrows at 0.
    pub fn add_asset(&mut self, token: Address, collateral_factor: i128, borrow_rate_bps: i128, now: u64) -> (r: Result<(), LendingError>)
        ensures
            r == (if old(self).admin is None { Err(LendingError::NotInitialized) } else { Ok(()) }),
            r is Err ==> *final(self) == *old(self),
            r is Ok ==> {
                let fresh = !old(self).global_index@.contains_key(token);
                &&& *final(self) == (LendingContract {
                    collateral_factor: final(self).collateral_factor,
                    borrow_rate: final(self).borrow_rate,
                    global_index: final(self).global_index,
                    last_update: final(self).last_update,
                    total_borrows: final(self).total_borrows,
                    ..*old(self)
                })
                &&& final(self).collateral_factor@ == old(self).collateral_factor@.insert(token, collateral_factor)
                &&& final(self).borrow_rate@ == old(self).borrow_rate@.insert(token, borrow_rate_bps)
                &&& final(self).global_index@ == if fresh { old(self).global_index@.insert(token, SCALE) } else { old(self).global_index@ }
                &&& final(self).last_update@ == if fresh { old(self).last_update@.insert(token, now) } else { old(self).last_update@ }
                &&& final(self).total_borrows@ == if fresh { old(self).total_borrows@.insert(token, 0i128) } else { old(self).total_borrows@ }
            },
    {
        if self.admin.is_none() {
            return Err(LendingError::NotInitialized);
        }
        self.collateral_factor.insert(token, collateral_factor);
        self.borrow_rate.insert(token, borrow_rate_bps);
        if !self.global_index.contains_key(&token) {
            self.global_index.insert(token, SCALE);
            self.last_update.insert(token, now);
            self.total_borrows.insert(token, 0);
        }
        Ok(())
    }

    /// Deposit `amount` of `token` as collateral of `user`.
    pub fn deposit_collateral(&mut self, user: Address, token: Address, amount: i128) -> (r: Result<(), LendingError>)
        ensures
            r == (if amount <= 0 {
                Err(LendingError::ZeroAmount)
            } else if !old(self).is_supported(token) {
                Err(LendingError::TokenNotSupported)
            } else if !fits_i128(old(self).collateral_spec(user, token) + amount) {
                Err(LendingError::Overflow)
            } else {
                Ok(())
            }),
            r is Err ==> *final(self) == *old(self),
            r is Ok ==> *final(self) == (LendingContract { collateral: final(self).collateral, ..*old(self) })
                && final(self).collateral@ == old(self).collateral@.insert(
                    spec_pair_key(user, token), (old(self).collateral_spec(user, token) + amount) as i128),
    {
        if amount <= 0 {
            return Err(LendingError::ZeroAmount);
        }
        if !self.collateral_factor.contains_key(&token) {
            return Err(LendingError::TokenNotSupported);
        }
        let key = pair_key(user, token);
        let prev = get_or(&self.collateral, &key, 0i128);
        let next = match prev.checked_add(amount) {
            Some(v) => v,
            None => return Err(LendingError::Overflow),
        };
        self.collateral.insert(key, next);
        Ok(())
    }

    /// The index of `token` brought forward to `now`, without storing it.
    fn index_at(&self, token: Address, now: u64) -> (g: i128)
        requires
            self.accrual_fits(token, now),
        ensures
            g == self.index_after(token, now),
    {
        let last_ts = get_or(&self.last_update, &token, now);
        if now <= last_ts {
            return get_or(&self.global_index, &token, SCALE);
        }
        let elapsed = (now - last_ts) as i128;
        let rate = get_or(&self.borrow_rate, &token, 0i128);
        let old_idx = get_or(&self.global_index, &token, SCALE);
        if rate == 0 {
            return old_idx;
        }
        let delta = old_idx * rate * elapsed / (BPS * SECS_PER_YEAR);
        old_idx + delta
    }

    /// Store the index of `token` brought forward to `now`, as
    /// `index_after` describes it.
    fn apply_accrual(&mut self, token: Address, now: u64)
        requires
            old(self).accrual_fits(token, now),
        ensures
            *final(self) == (LendingContract {
                global_index: final(self).global_index,
                last_update: final(self).last_update,
                ..*old(self)
            }),
            final(self).global_index@ == old(self).global_index_after(token, now),
            final(self).last_update@ == old(self).last_update_after(token, now),
    {
        let g = self.index_at(token, now);
        let last_ts = get_or(&self.last_update, &token, now);
        if now <= last_ts {
            return;
        }
        let rate = get_or(&self.borrow_rate, &token, 0i128);
        if rate != 0 {
            self.global_index.insert(token, g);
        }
        self.last_update.insert(token, now);
    }

    /// The principal `p` rebased from index `u` to index `g`.
    fn rebase(p: i128, g: i128, u: i128) -> (r: i128)
        requires
            rebase_fits(p, g, u),
        ensures
            r == rebased_debt(p, g, u),
    {
        if p != 0 && g > u {
            proof {
                lemma_trunc_div_fits(p * g, u as int);
            }
            p * g / u
        } else {
            p
        }
    }

    /// The health check of one (collateral, debt) pair, as `pair_refusal`
    /// states it.
    fn pair_check(&self, coll: i128, coll_token: Address, debt: i128, coll_price: i128, debt_price: i128) -> (r: Result<(), LendingError>)
        requires
            self.pair_fits(coll, coll_token, debt as int, coll_price, debt_price),
        ensures
            r == (match self.pair_refusal(coll, coll_token, debt as int, coll_price, debt_price) {
                Some(e) => Err(e),
                None => Ok(()),
            }),
    {
        if debt == 0 {
            return Ok(());
        }
        if self.oracle.is_none() {
            return Err(LendingError::NotInitialized);
        }
        if coll_price <= 0 || debt_price <= 0 {
            return Err(LendingError::OracleStale);
        }
        let cf = get_or(&self.collateral_factor, &coll_token, 7_500i128);
        let min_ratio = match self.min_coll_ratio {
            Some(m) => m,
            None => 15_000i128,
        };
        let weighted = coll * coll_price * cf;
        let owed = debt * debt_price * min_ratio;
        proof {
            lemma_trunc_div_fits(weighted as int, BPS as int);
            lemma_trunc_div_fits(owed as int, BPS as int);
        }
        let adj = weighted / BPS;
        let req = owed / BPS;
        if adj < req {
            Err(LendingError::BelowMinCollRatio)
        } else {
            Ok(())
        }
    }

    /// Borrow `amount` of `token` for `user` at time `now`, against the
    /// user's collateral in `collateral_token`, with the oracle prices
    /// `coll_price` and `debt_price`: the index and the user's debt are
    /// brought forward and the amount added, and the position must then
    /// still hold the minimum collateral ratio.
    pub fn borrow(
        &mut self,
        user: Address,
        token: Address,
        amount: i128,
        now: u64,
        collateral_token: Address,
        coll_price: i128,
        debt_price: i128,
    ) -> (r: Result<(), LendingError>)
        requires
            amount > 0 && old(self).is_supported(token) ==> {
                let nd = old(self).debt_after(user, token, now) + amount;
                &&& old(self).accrue_fits(user, token, now)
                &&& fits_i128(nd) && fits_i128(old(self).total_borrows_of(token) + amount) ==> old(self).pair_fits(
                    old(self).collateral_spec(user, collateral_token), collateral_token, nd, coll_price, debt_price)
            },
        ensures
            r == (if amount <= 0 {
                Err(LendingError::ZeroAmount)
            } else if !old(self).is_supported(token) {
                Err(LendingError::TokenNotSupported)
            } else if !fits_i128(old(self).debt_after(user, token, now) + amount)
                || !fits_i128(old(self).total_borrows_of(token) + amount) {
                Err(LendingError::Overflow)
            } else {
                match old(self).pair_refusal(
                    old(self).collateral_spec(user, collateral_token),
                    collateral_token,
                    old(self).debt_after(user, token, now) + amount,
                    coll_price,
                    debt_price,
                ) {
                    Some(e) => Err(e),
                    None => Ok(()),
                }
            }),
            r is Err ==> *final(self) == *old(self),
            r is Ok ==> {
                let key = spec_pair_key(user, token);
                &&& *final(self) == (LendingContract {
                    global_index: final(self).global_index,
                    last_update: final(self).last_update,
                    borrow_principal: final(self).borrow_principal,
                    borrow_index: final(self).borrow_index,
                    total_borrows: final(self).total_borrows,
                    ..*old(self)
                })
                &&& final(self).global_index@ == old(self).global_index_after(token, now)
                &&& final(self).last_update@ == old(self).last_update_after(token, now)
                &&& final(self).borrow_principal@ == old(self).borrow_principal@.insert(
                    key, (old(self).debt_after(user, token, now) + amount) as i128)
                &&& final(self).borrow_index@ == old(self).borrow_index@.insert(key, old(self).index_after(token, now))
                &&& final(self).total_borrows@ == old(self).total_borrows@.insert(
                    token, (old(self).total_borrows_of(token) + amount) as i128)
            },
    {
        if amount <= 0 {
            return Err(LendingError::ZeroAmount);
        }
        if !self.collateral_factor.contains_key(&token) {
            return Err(LendingError::TokenNotSupported);
        }
        let key = pair_key(user, token);
        let g = self.index_at(token, now);
        let p = get_or(&self.borrow_principal, &key, 0i128);
        let u = get_or(&self.borrow_index, &key, SCALE);
        let debt = Self::rebase(p, g, u);
        let new_debt = match debt.checked_add(amount) {
            Some(v) => v,
            None => return Err(LendingError::Overflow),
        };
        let tb = get_or(&self.total_borrows, &token, 0i128);
        let new_tb = match tb.checked_add(amount) {
            Some(v) => v,
            None => return Err(LendingError::Overflow),
        };
        let coll = get_or(&self.collateral, &pair_key(user, collateral_token), 0i128);
        self.pair_check(coll, collateral_token, new_debt, coll_price, debt_price)?;
        self.apply_accrual(token, now);
        self.borrow_principal.insert(key, new_debt);
        self.borrow_index.insert(key, g);
        self.total_borrows.insert(token, new_tb);
        Ok(())
    }

    /// Repay up to `amount` of the debt of `user` in `token` at time `now`.
    /// Returns the amount actually repaid: never more than the debt. A
    /// repayment of 0 only brings the index and the debt forward.
    pub fn repay(&mut self, user: Address, token: Address, amount: i128, now: u64) -> (r: Result<i128, LendingError>)
        requires
            amount >= 0 && old(self).is_supported(token) ==> {
                let d = old(self).debt_after(user, token, now);
                let paid = if amount > d { d } else { amount as int };
                let tb = old(self).total_borrows_of(token);
                &&& old(self).accrue_fits(user, token, now)
                &&& tb > paid ==> fits_i128(tb - paid)
            },
        ensures
            r is Err <==> (amount < 0 || !old(self).is_supported(token)),
            amount < 0 ==> r == Err::<i128, LendingError>(LendingError::ZeroAmount),
            amount >= 0 && !old(self).is_supported(token) ==> r == Err::<i128, LendingError>(LendingError::TokenNotSupported),
            r is Err ==> *final(self) == *old(self),
            r matches Ok(paid) ==> {
                let key = spec_pair_key(user, token);
                let p = old(self).principal_of(user, token);
                let g = old(self).index_after(token, now);
                let u = old(self).user_index_of(user, token);
                let d = old(self).debt_after(user, token, now);
                let tb = old(self).total_borrows_of(token);
                &&& paid == (if amount > d { d } else { amount as int })
                &&& *final(self) == (LendingContract {
                    global_index: final(self).global_index,
                    last_update: final(self).last_update,
                    borrow_principal: final(self).borrow_principal,
                    borrow_index: final(self).borrow_index,
                    total_borrows: final(self).total_borrows,
                    ..*old(self)
                })
                &&& final(self).global_index@ == old(self).global_index_after(token, now)
                &&& final(self).last_update@ == old(self).last_update_after(token, now)
                &&& final(self).borrow_principal@ == old(self).borrow_principal@.insert(key, (d - paid) as i128)
                &&& final(self).borrow_index@ == if p != 0 && g > u {
                    old(self).borrow_index@.insert(key, g)
                } else {
                    old(self).borrow_index@
                }
                &&& final(self).total_borrows@ == old(self).total_borrows@.insert(
                    token, if tb > paid { (tb - paid) as i128 } else { 0i128 })
            },
    {
        if amount < 0 {
            return Err(LendingError::ZeroAmount);
        }
        if !self.collateral_factor.contains_key(&token) {
            return Err(LendingError::TokenNotSupported);
        }
        let key = pair_key(user, token);
        let g = self.index_at(token, now);
        let p = get_or(&self.borrow_principal, &key, 0i128);
        let u = get_or(&self.borrow_index, &key, SCALE);
        let debt = Self::rebase(p, g, u);
        let paid = if amount > debt { debt } else { amount };
        let tb = get_or(&self.total_borrows, &token, 0i128);
        let new_tb = if tb > paid { tb - paid } else { 0 };
        self.apply_accrual(token, now);
        if p != 0 && g > u {
            self.borrow_index.insert(key, g);
        }
        self.borrow_principal.insert(key, debt - paid);
        self.total_borrows.insert(token, new_tb);
        Ok(paid)
    }

    /// Withdraw `amount` of `user`'s collateral in `token`; the position
    /// against the user's debt in `debt_token` must still hold the minimum
    /// collateral ratio at the oracle prices `coll_price` and `debt_price`.
    pub fn withdraw_collateral(
        &mut self,
        user: Address,
        token: Address,
        amount: i128,
        debt_token: Address,
        coll_price: i128,
        debt_price: i128,
    ) -> (r: Result<(), LendingError>)
        requires
            0 < amount <= old(self).collateral_spec(user, token) ==> old(self).pair_fits(
                (old(self).collateral_spec(user, token) - amount) as i128, token,
                old(self).principal_of(user, debt_token) as int, coll_price, debt_price),
        ensures
            r == (if amount <= 0 {
                Err(LendingError::ZeroAmount)
            } else if amount > old(self).collateral_spec(user, token) {
                Err(LendingError::InsufficientCollateral)
            } else {
                match old(self).pair_refusal(
                    (old(self).collateral_spec(user, token) - amount) as i128, token,
                    old(self).principal_of(user, debt_token) as int, coll_price, debt_price,
                ) {
                    Some(e) => Err(e),
                    None => Ok(()),
                }
            }),
            r is Err ==> *final(self) == *old(self),
            r is Ok ==> *final(self) == (LendingContract { collateral: final(self).collateral, ..*old(self) })
                && final(self).collateral@ == old(self).collateral@.insert(
                    spec_pair_key(user, token), (old(self).collateral_spec(user, token) - amount) as i128),
    {
        if amount <= 0 {
            return Err(LendingError::ZeroAmount);
        }
        let key = pair_key(user, token);
        let balance = get_or(&self.collateral, &key, 0i128);
        if amount > balance {
            return Err(LendingError::InsufficientCollateral);
        }
        let debt = get_or(&self.borrow_principal, &pair_key(user, debt_token), 0i128);
        self.pair_check(balance - amount, token, debt, coll_price, debt_price)?;
        self.collateral.insert(key, balance - amount);
        Ok(())
    }

    /// A liquidator repays up to `repay_amount` of `borrower`'s debt in
    /// `debt_token` at time `now` and seizes collateral in `collateral_token`
    /// worth the repayment plus the liquidation bonus, at the oracle prices
    /// `debt_price` and `coll_price`. Both indexes and the borrower's debt
    /// are brought forward first; a position that holds the minimum
    /// collateral ratio is refused with `PositionHealthy`. The repayment is
    /// capped at the debt and the seizure at the collateral. Returns the
    /// amounts repaid and seized.
    pub fn liquidate(
        &mut self,
        liquidator: Address,
        borrower: Address,
        debt_token: Address,
        collateral_token: Address,
        repay_amount: i128,
        now: u64,
        debt_price: i128,
        coll_price: i128,
    ) -> (r: Result<(i128, i128), LendingError>)
        requires
            repay_amount > 0 ==> {
                let d = old(self).debt_after(borrower, debt_token, now);
                let tb = old(self).total_borrows_of(debt_token);
                &&& old(self).accrue_fits(borrower, debt_token, now)
                &&& old(self).accrual_fits(collateral_token, now)
                &&& old(self).pair_fits(old(self).collateral_spec(borrower, collateral_token), collateral_token,
                    d, coll_price, debt_price)
                &&& (old(self).liquidation(borrower, debt_token, collateral_token, repay_amount, now, debt_price,
                    coll_price) matches Ok((repaid, _)) ==> (tb > repaid ==> fits_i128(tb - repaid)))
            },
        ensures
            r == old(self).liquidation(borrower, debt_token, collateral_token, repay_amount, now, debt_price, coll_price),
            r is Err ==> *final(self) == *old(self),
            r matches Ok((repaid, seized)) ==> {
                let dkey = spec_pair_key(borrower, debt_token);
                let ckey = spec_pair_key(borrower, collateral_token);
                let p = old(self).principal_of(borrower, debt_token);
                let g = old(self).index_after(debt_token, now);
                let u = old(self).user_index_of(borrower, debt_token);
                let d = old(self).debt_after(borrower, debt_token, now);
                let tb = old(self).total_borrows_of(debt_token);
                &&& *final(self) == (LendingContract {
                    global_index: final(self).global_index,
                    last_update: final(self).last_update,
                    borrow_principal: final(self).borrow_principal,
                    borrow_index: final(self).borrow_index,
                    total_borrows: final(self).total_borrows,
                    collateral: final(self).collateral,
                    ..*old(self)
                })
                &&& final(self).global_index@ == old(self).global_index_after2(debt_token, collateral_token, now)
                &&& final(self).last_update@ == old(self).last_update_after2(debt_token, collateral_token, now)
                &&& final(self).borrow_principal@ == old(self).borrow_principal@.insert(dkey, (d - repaid) as i128)
                &&& final(self).borrow_index@ == if p != 0 && g > u {
                    old(self).borrow_index@.insert(dkey, g)
                } else {
                    old(self).borrow_index@
                }
                &&& final(self).total_borrows@ == old(self).total_borrows@.insert(
                    debt_token, if tb > repaid { (tb - repaid) as i128 } else { 0i128 })
                &&& final(self).collateral@ == old(self).collateral@.insert(
                    ckey, (old(self).collateral_spec(borrower, collateral_token) - seized) as i128)
            },
    {
        if repay_amount <= 0 {
            return Err(LendingError::ZeroAmount);
        }
        let dkey = pair_key(borrower, debt_token);
        let ckey = pair_key(borrower, collateral_token);
        let g = self.index_at(debt_token, now);
        let p = get_or(&self.borrow_principal, &dkey, 0i128);
        let u = get_or(&self.borrow_index, &dkey, SCALE);
        let debt = Self::rebase(p, g, u);
        let coll = get_or(&self.collateral, &ckey, 0i128);
        match self.pair_check(coll, collateral_token, debt, coll_price, debt_price) {
            Ok(()) => return Err(LendingError::PositionHealthy),
            Err(LendingError::BelowMinCollRatio) => {},
            Err(e) => return Err(e),
        }
        let bonus = match self.liq_bonus {
            Some(b) => b,
            None => 500i128,
        };
        let a = match repay_amount.checked_mul(debt_price) {
            Some(v) => v,
            None => return Err(LendingError::Overflow),
        };
        let b = match BPS.checked_add(bonus) {
            Some(v) => v,
            None => return Err(LendingError::Overflow),
        };
        let numerator = match a.checked_mul(b) {
            Some(v) => v,
            None => return Err(LendingError::Overflow),
        };
        let denominator = match coll_price.checked_mul(BPS) {
            Some(v) => v,
            None => return Err(LendingError::Overflow),
        };
        proof {
            lemma_trunc_div_fits(numerator as int, denominator as int);
        }
        let seize = numerator / denominator;
        let repaid = if repay_amount > debt { debt } else { repay_amount };
        let seized = if seize > coll { coll } else { seize };
        let new_coll = match coll.checked_sub(seized) {
            Some(v) => v,
            None => return Err(LendingError::Overflow),
        };
        let tb = get_or(&self.total_borrows, &debt_token, 0i128);
        let new_tb = if tb > repaid { tb - repaid } else { 0 };
        self.apply_accrual(debt_token, now);
        if collateral_token != debt_token {
            self.apply_accrual(collateral_token, now);
        }
        if p != 0 && g > u {
            self.borrow_index.insert(dkey, g);
        }
        self.borrow_principal.insert(dkey, debt - repaid);
        self.total_borrows.insert(debt_token, new_tb);
        self.collateral.insert(ckey, new_coll);
        Ok((repaid, seized))
    }

    /// Collateral of `user` in `token`.
    pub fn collateral_of(&self, user: Address, token: Address) -> (r: i128)
        ensures
            r == self.collateral_spec(user, token),
    {
        get_or(&self.collateral, &pair_key(user, token), 0i128)
    }

    /// Debt of `user` in `token` at the stored index:
    /// `principal * index / user_index`, or 0 without principal.
    pub fn debt_of(&self, user: Address, token: Address) -> (r: i128)
        requires
            self.principal_of(user, token) != 0 ==> {
                let p = self.principal_of(user, token);
                let g = self.index_of(token);
                let u = self.user_index_of(user, token);
                u != 0 && fits_i128(p * g) && !(p * g == i128::MIN && u == -1)
            },
        ensures
            r == (if self.principal_of(user, token) == 0 {
                0
            } else {
                spec_trunc_div(self.principal_of(user, token) * self.index_of(token), self.user_index_of(user, token) as int)
            }),
    {
        let key = pair_key(user, token);
        let p = get_or(&self.borrow_principal, &key, 0i128);
        if p == 0 {
            return 0;
        }
        let g = get_or(&self.global_index, &token, SCALE);
        let u = get_or(&self.borrow_index, &key, SCALE);
        proof {
            lemma_trunc_div_fits(p * g, u as int);
        }
        p * g / u
    }

    /// Health of `user`'s position of collateral in `collateral_token`
    /// against debt in `debt_token`, at the oracle prices: `Ok(true)` when it
    /// holds the minimum collateral ratio (always, without debt), `Ok(false)`
    /// when it does not, and the oracle's refusal otherwise.
    pub fn health_check(
        &self,
        user: Address,
        collateral_token: Address,
        debt_token: Address,
        coll_price: i128,
        debt_price: i128,
    ) -> (r: Result<bool, LendingError>)
        requires
            self.pair_fits(self.collateral_spec(user, collateral_token), collateral_token,
                self.principal_of(user, debt_token) as int, coll_price, debt_price),
        ensures
            r == (match self.pair_refusal(self.collateral_spec(user, collateral_token), collateral_token,
                self.principal_of(user, debt_token) as int, coll_price, debt_price) {
                None => Ok(true),
                Some(LendingError::BelowMinCollRatio) => Ok(false),
                Some(e) => Err(e),
            }),
    {
        let coll = get_or(&self.collateral, &pair_key(user, collateral_token), 0i128);
        let debt = get_or(&self.borrow_principal, &pair_key(user, debt_token), 0i128);
        match self.pair_check(coll, collateral_token, debt, coll_price, debt_price) {
            Ok(()) => Ok(true),
            Err(LendingError::BelowMinCollRatio) => Ok(false),
            Err(e) => Err(e),
        }
    }
}

/// Interest only accrues: with a non-negative rate, the index of a token
/// never falls when it is brought forward in time.
pub proof fn lemma_index_never_decreases(c: LendingContract, token: Address, now: u64)
    requires
        c.rate_of(token) >= 0,
        c.index_of(token) >= 0,
        c.accrual_fits(token, now),
    ensures
        c.index_after(token, now) >= c.index_of(token),
{
    if c.accrual_due(token, now) && c.rate_of(token) != 0 {
        let i = c.index_of(token) as int;
        let r = c.rate_of(token) as int;
        let e = (now - c.last_ts(token, now)) as int;
        assert(i * r * e >= 0) by (nonlinear_arith)
            requires
                i >= 0,
                r >= 0,
                e >= 0,
        ;
        assert((i * r * e) / (BPS * SECS_PER_YEAR) >= 0) by (nonlinear_arith)
            requires
                i * r * e >= 0,
        ;
    }
}

/// Bringing a positive principal onto a higher index never lowers it.
pub proof fn lemma_rebase_never_lowers(p: i128, g: i128, u: i128)
    requires
        p > 0,
        u > 0,
    ensures
        rebased_debt(p, g, u) >= p,
{
    if g > u {
        assert(p * g >= p * u) by (nonlinear_arith)
            requires
                p > 0,
                g > u,
        ;
        assert((p * g) / (u as int) >= p) by (nonlinear_arith)
            requires
                p * g >= p * u,
                u > 0,
                p > 0,
        ;
    }
}

} // verus!
