//! Token staking with a reward rate shared pro rata over effective stake.
//! Locking for longer raises the effective stake (1x up to 2x); leaving a
//! lock early costs a 10% penalty on principal and all unclaimed rewards.
use std::collections::HashMap;
use vstd::prelude::*;
use crate::common::{
    Address, sat_add_u128, sat_mul_u128, sat_sub_u128, spec_sat_add_u128, spec_sat_mul_u128, spec_sat_sub_u128,
};

verus! {

broadcast use vstd::std_specs::hash::group_hash_axioms;

/// 1e18 precision for reward calculations.
pub const PRECISION: u128 = 1_000_000_000_000_000_000;
/// One year in seconds (max lock duration).
pub const MAX_LOCK_DURATION: u64 = 31_536_000;
/// Penalty in basis points applied to principal for early withdrawal.
pub const EARLY_WITHDRAWAL_PENALTY_BPS: u128 = 1_000;

/// A staker's position.
#[derive(Copy, Clone, Debug, PartialEq, Eq, Structural)]
pub struct UserPosition {
    /// Raw token balance deposited.
    pub balance: u128,
    /// Effective balance after applying the lock duration multiplier.
    pub effective_balance: u128,
    /// Unix timestamp when the lock expires.
    pub lock_end: u64,
    /// Snapshot of the reward per token when the user last updated.
    pub user_reward_per_token_paid: u128,
    /// Accumulated, unclaimed rewards.
    pub rewards: u128,
}

/// Reasons for which the staking contract refuses a call.
#[derive(Copy, Clone, Debug, PartialEq, Eq, Structural)]
pub enum StakingError {
    AlreadyInitialized,
    NotInitialized,
    Unauthorized,
    InvalidAmount,
    InvalidLockDuration,
    InsufficientBalance,
    Reentrant,
}

/// Rewards a position earned since its last snapshot, at reward-per-token `rpt`.
pub open spec fn spec_newly_earned(p: UserPosition, rpt: u128) -> u128 {
    (spec_sat_mul_u128(p.effective_balance, spec_sat_sub_u128(rpt, p.user_reward_per_token_paid)) / PRECISION) as u128
}

/// A position brought up to date at reward-per-token `rpt`.
pub open spec fn spec_settled(p: UserPosition, rpt: u128) -> UserPosition {
    UserPosition {
        rewards: spec_sat_add_u128(p.rewards, spec_newly_earned(p, rpt)),
        user_reward_per_token_paid: rpt,
        ..p
    }
}

/// Effective stake of `amount` locked for `lock` seconds.
pub open spec fn spec_effective_amount(amount: u128, lock: u64) -> u128 {
    let bonus = (spec_sat_mul_u128(lock as u128, PRECISION) / (MAX_LOCK_DURATION as u128)) as u128;
    let multiplier = spec_sat_add_u128(PRECISION, bonus);
    (spec_sat_mul_u128(amount, multiplier) / PRECISION) as u128
}

/// The empty position.
pub open spec fn empty_position() -> UserPosition {
    UserPosition { balance: 0, effective_balance: 0, lock_end: 0, user_reward_per_token_paid: 0, rewards: 0 }
}

/// Storage of the staking contract.
pub struct DynamicStakingContract {
    pub admin: Option<Address>,
    pub staking_token: Address,
    pub reward_token: Address,
    pub reward_rate: u128,
    pub total_effective_supply: u128,
    pub reward_per_token_stored: u128,
    pub last_update_time: u64,
    pub positions: HashMap<Address, UserPosition>,
    pub locked: bool,
}

impl DynamicStakingContract {
    /// Reward per effective token accrued up to time `now`.
    pub open spec fn spec_reward_per_token(&self, now: u64) -> u128 {
        if self.total_effective_supply == 0 {
            self.reward_per_token_stored
        } else {
            let delta = if now >= self.last_update_time { (now - self.last_update_time) as u128 } else { 0u128 };
            let accrued = (spec_sat_mul_u128(spec_sat_mul_u128(delta, self.reward_rate), PRECISION)
                / self.total_effective_supply) as u128;
            spec_sat_add_u128(self.reward_per_token_stored, accrued)
        }
    }

    /// Global accumulator brought up to `now`.
    pub open spec fn spec_global_updated(&self, now: u64) -> Self {
        DynamicStakingContract {
            reward_per_token_stored: self.spec_reward_per_token(now),
            last_update_time: now,
            ..*self
        }
    }

    /// Rewards `account` could claim at time `now`.
    pub open spec fn spec_earned(&self, account: Address, now: u64) -> u128 {
        if !self.positions@.contains_key(account) {
            0
        } else {
            let p = self.positions@[account];
            spec_sat_add_u128(p.rewards, spec_newly_earned(p, self.spec_reward_per_token(now)))
        }
    }

    /// Fresh, uninitialised storage.
    pub fn new() -> (c: Self)
        ensures
            c.admin is None,
            c.total_effective_supply == 0,
            c.reward_per_token_stored == 0,
            c.positions@ == Map::<Address, UserPosition>::empty(),
            !c.locked,
    {
        DynamicStakingContract {
            admin: None,
            staking_token: 0,
            reward_token: 0,
            reward_rate: 0,
            total_effective_supply: 0,
            reward_per_token_stored: 0,
            last_update_time: 0,
            positions: HashMap::new(),
            locked: false,
        }
    }

    /// Initialise the staking contract at time `now`.
    pub fn initialize(
        &mut self,
        admin: Address,
        staking_token: Address,
        reward_token: Address,
        reward_rate: u128,
        now: u64,
    ) -> (r: Result<(), StakingError>)
        ensures
            r == (if old(self).admin is Some { Err::<(), StakingError>(StakingError::AlreadyInitialized) } else { Ok(()) }),
            r is Err ==> *final(self) == *old(self),
            r is Ok ==> *final(self) == (DynamicStakingContract {
                admin: Some(admin),
                staking_token,
                reward_token,
                reward_rate,
                total_effective_supply: 0,
                reward_per_token_stored: 0,
                last_update_time: now,
                locked: false,
                ..*old(self)
            }),
    {
        if self.admin.is_some() {
            return Err(StakingError::AlreadyInitialized);
        }
        self.admin = Some(admin);
        self.staking_token = staking_token;
        self.reward_token = reward_token;
        self.reward_rate = reward_rate;
        self.total_effective_supply = 0;
        self.reward_per_token_stored = 0;
        self.last_update_time = now;
        self.locked = false;
        Ok(())
    }

    /// Reward per effective token accrued up to `now`.
    pub fn reward_per_token(&self, now: u64) -> (r: u128)
        ensures
            r == self.spec_reward_per_token(now),
    {
        if self.total_effective_supply == 0 {
            return self.reward_per_token_stored;
        }
        let time_delta = now.saturating_sub(self.last_update_time) as u128;
        let accrued = sat_mul_u128(sat_mul_u128(time_delta, self.reward_rate), PRECISION)
            / self.total_effective_supply;
        sat_add_u128(self.reward_per_token_stored, accrued)
    }

    fn update_reward_global(&mut self, now: u64)
        ensures
            *final(self) == old(self).spec_global_updated(now),
    {
        let rpt = self.reward_per_token(now);
        self.reward_per_token_stored = rpt;
        self.last_update_time = now;
    }

    fn settle(p: UserPosition, rpt: u128) -> (r: UserPosition)
        ensures
            r == spec_settled(p, rpt),
    {
        let newly = sat_mul_u128(p.effective_balance, sat_sub_u128(rpt, p.user_reward_per_token_paid)) / PRECISION;
        UserPosition { rewards: sat_add_u128(p.rewards, newly), user_reward_per_token_paid: rpt, ..p }
    }

    /// Stake `amount` locked for `lock_duration_seconds`, at time `now`.
    /// Returns the amount the caller pays in.
    pub fn stake(&mut self, caller: Address, amount: u128, lock_duration_seconds: u64, now: u64) -> (r: Result<u128, StakingError>)
        ensures
            r == (if old(self).admin is None {
                Err(StakingError::NotInitialized)
            } else if old(self).locked {
                Err(StakingError::Reentrant)
            } else if amount == 0 {
                Err(StakingError::InvalidAmount)
            } else if lock_duration_seconds > MAX_LOCK_DURATION {
                Err(StakingError::InvalidLockDuration)
            } else {
                Ok(amount)
            }),
            r is Err ==> *final(self) == *old(self),
            r is Ok ==> {
                let g = old(self).spec_global_updated(now);
                let rpt = g.reward_per_token_stored;
                let p0 = if old(self).positions@.contains_key(caller) {
                    spec_settled(old(self).positions@[caller], rpt)
                } else {
                    empty_position()
                };
                let eff = spec_effective_amount(amount, lock_duration_seconds);
                let new_end = if now as int + lock_duration_seconds as int > u64::MAX { u64::MAX } else {
                    (now + lock_duration_seconds) as u64 };
                &&& final(self).positions@ == old(self).positions@.insert(caller, UserPosition {
                    balance: spec_sat_add_u128(p0.balance, amount),
                    effective_balance: spec_sat_add_u128(p0.effective_balance, eff),
                    lock_end: if new_end > p0.lock_end { new_end } else { p0.lock_end },
                    user_reward_per_token_paid: rpt,
                    rewards: p0.rewards,
                })
                &&& *final(self) == (DynamicStakingContract {
                    total_effective_supply: spec_sat_add_u128(old(self).total_effective_supply, eff),
                    positions: final(self).positions,
                    ..g
                })
            },
    {
        if self.admin.is_none() {
            return Err(StakingError::NotInitialized);
        }
        if self.locked {
            return Err(StakingError::Reentrant);
        }
        if amount == 0 {
            return Err(StakingError::InvalidAmount);
        }
        if lock_duration_seconds > MAX_LOCK_DURATION {
            return Err(StakingError::InvalidLockDuration);
        }
        self.locked = true;
        self.update_reward_global(now);
        let rpt = self.reward_per_token_stored;
        proof {
            assert(spec_sat_mul_u128(0, self.reward_rate) == 0);
            assert(spec_sat_mul_u128(0, PRECISION) == 0);
            assert(self.spec_reward_per_token(now) == rpt);
        }
        let bonus = sat_mul_u128(lock_duration_seconds as u128, PRECISION) / (MAX_LOCK_DURATION as u128);
        let multiplier = sat_add_u128(PRECISION, bonus);
        let effective_amount = sat_mul_u128(amount, multiplier) / PRECISION;
        let mut position = match self.positions.get(&caller) {
            Some(p) => Self::settle(*p, rpt),
            None => UserPosition {
                balance: 0,
                effective_balance: 0,
                lock_end: 0,
                user_reward_per_token_paid: 0,
                rewards: 0,
            },
        };
        let new_lock_end = now.saturating_add(lock_duration_seconds);
        if new_lock_end > position.lock_end {
            position.lock_end = new_lock_end;
        }
        position.balance = sat_add_u128(position.balance, amount);
        position.effective_balance = sat_add_u128(position.effective_balance, effective_amount);
        position.user_reward_per_token_paid = self.reward_per_token(now);
        self.total_effective_supply = sat_add_u128(self.total_effective_supply, effective_amount);
        self.positions.insert(caller, position);
        self.locked = false;
        Ok(amount)
    }

    /// Withdraw `amount` of principal at time `now`. Returns the amount paid
    /// out: the principal less the penalty when the lock has not ended.
    pub fn unstake(&mut self, caller: Address, amount: u128, now: u64) -> (r: Result<u128, StakingError>)
        ensures
            r is Err ==> *final(self) == *old(self),
            ({
                let o = old(self);
                let present = o.positions@.contains_key(caller);
                let p = o.positions@[caller];
                r is Err <==> (o.admin is None || o.locked || amount == 0 || !present || p.balance < amount)
            }),
            old(self).admin is None ==> r == Err::<u128, StakingError>(StakingError::NotInitialized),
            old(self).admin is Some && old(self).locked ==> r == Err::<u128, StakingError>(StakingError::Reentrant),
            old(self).admin is Some && !old(self).locked && amount == 0 ==> r == Err::<u128, StakingError>(
                StakingError::InvalidAmount),
            old(self).admin is Some && !old(self).locked && amount != 0 && (!old(self).positions@.contains_key(caller)
                || old(self).positions@[caller].balance < amount) ==> r == Err::<u128, StakingError>(
                StakingError::InsufficientBalance),
            r matches Ok(paid) ==> {
                let g = old(self).spec_global_updated(now);
                let rpt = g.reward_per_token_stored;
                let p = spec_settled(old(self).positions@[caller], rpt);
                let proportion = (spec_sat_mul_u128(amount, PRECISION) / p.balance) as u128;
                let remove = (spec_sat_mul_u128(p.effective_balance, proportion) / PRECISION) as u128;
                let early = now < p.lock_end;
                let penalty = (spec_sat_mul_u128(amount, EARLY_WITHDRAWAL_PENALTY_BPS) / 10_000) as u128;
                &&& paid == if early { spec_sat_sub_u128(amount, penalty) } else { amount }
                &&& final(self).positions@ == old(self).positions@.insert(caller, UserPosition {
                    balance: spec_sat_sub_u128(p.balance, amount),
                    effective_balance: spec_sat_sub_u128(p.effective_balance, remove),
                    rewards: if early { 0 } else { p.rewards },
                    ..p
                })
                &&& *final(self) == (DynamicStakingContract {
                    total_effective_supply: spec_sat_sub_u128(old(self).total_effective_supply, remove),
                    positions: final(self).positions,
                    ..g
                })
            },
    {
        if self.admin.is_none() {
            return Err(StakingError::NotInitialized);
        }
        if self.locked {
            return Err(StakingError::Reentrant);
        }
        if amount == 0 {
            return Err(StakingError::InvalidAmount);
        }
        let current = match self.positions.get(&caller) {
            Some(p) => *p,
            None => return Err(StakingError::InsufficientBalance),
        };
        if current.balance < amount {
            return Err(StakingError::InsufficientBalance);
        }
        self.locked = true;
        self.update_reward_global(now);
        let rpt = self.reward_per_token_stored;
        let mut position = Self::settle(current, rpt);
        let proportion = sat_mul_u128(amount, PRECISION) / position.balance;
        let effective_remove = sat_mul_u128(position.effective_balance, proportion) / PRECISION;
        position.balance = sat_sub_u128(position.balance, amount);
        position.effective_balance = sat_sub_u128(position.effective_balance, effective_remove);
        let is_early = now < position.lock_end;
        let mut final_transfer_amount = amount;
        if is_early {
            let penalty = sat_mul_u128(amount, EARLY_WITHDRAWAL_PENALTY_BPS) / 10_000;
            final_transfer_amount = sat_sub_u128(amount, penalty);
            position.rewards = 0;
        }
        self.total_effective_supply = sat_sub_u128(self.total_effective_supply, effective_remove);
        self.positions.insert(caller, position);
        self.locked = false;
        Ok(final_transfer_amount)
    }

    /// Claim accumulated rewards at time `now`. Returns the rewards paid
    /// (nothing is paid when they are zero).
    pub fn claim_rewards(&mut self, caller: Address, now: u64) -> (r: Result<u128, StakingError>)
        ensures
            r == (if old(self).admin is None {
                Err(StakingError::NotInitialized)
            } else if old(self).locked {
                Err(StakingError::Reentrant)
            } else if !old(self).positions@.contains_key(caller) {
                Err(StakingError::InsufficientBalance)
            } else {
                Ok(old(self).spec_earned(caller, now))
            }),
            r is Err ==> *final(self) == *old(self),
            r is Ok ==> {
                let g = old(self).spec_global_updated(now);
                let p = spec_settled(old(self).positions@[caller], g.reward_per_token_stored);
                &&& final(self).positions@ == old(self).positions@.insert(caller, UserPosition { rewards: 0, ..p })
                &&& *final(self) == (DynamicStakingContract { positions: final(self).positions, ..g })
            },
    {
        if self.admin.is_none() {
            return Err(StakingError::NotInitialized);
        }
        if self.locked {
            return Err(StakingError::Reentrant);
        }
        let current = match self.positions.get(&caller) {
            Some(p) => *p,
            None => return Err(StakingError::InsufficientBalance),
        };
        self.locked = true;
        self.update_reward_global(now);
        let mut position = Self::settle(current, self.reward_per_token_stored);
        let rewards = position.rewards;
        position.rewards = 0;
        self.positions.insert(caller, position);
        self.locked = false;
        Ok(rewards)
    }

    /// Pending rewards of `account` at time `now`.
    pub fn earned(&self, account: Address, now: u64) -> (r: u128)
        ensures
            r == self.spec_earned(account, now),
    {
        let position = match self.positions.get(&account) {
            Some(p) => *p,
            None => return 0,
        };
        let current = self.reward_per_token(now);
        let new_rewards = sat_mul_u128(
            position.effective_balance,
            sat_sub_u128(current, position.user_reward_per_token_paid),
        ) / PRECISION;
        sat_add_u128(position.rewards, new_rewards)
    }

    /// Admin: change the reward rate at time `now`, after settling the accumulator.
    pub fn set_reward_rate(&mut self, caller: Address, rate: u128, now: u64) -> (r: Result<(), StakingError>)
        ensures
            r == (match old(self).admin {
                None => Err(StakingError::NotInitialized),
                Some(a) => if a == caller { Ok(()) } else { Err(StakingError::Unauthorized) },
            }),
            r is Err ==> *final(self) == *old(self),
            r is Ok ==> *final(self) == (DynamicStakingContract {
                reward_rate: rate, ..old(self).spec_global_updated(now) }),
    {
        match self.admin {
            None => return Err(StakingError::NotInitialized),
            Some(a) => if a != caller {
                return Err(StakingError::Unauthorized);
            },
        }
        self.update_reward_global(now);
        self.reward_rate = rate;
        Ok(())
    }
}

/// Lock weighting: staking `amount` for `lock` seconds (at most a year)
/// adds `amount * (1 + lock / MAX_LOCK_DURATION)` of effective stake, the
/// fraction kept to 18 decimals and the product rounded down. It is never
/// below the amount nor above twice the amount, and a half-year lock gives
/// one and a half times the amount.
pub proof fn lemma_lock_weighting(amount: u128, lock: u64)
    requires
        lock <= MAX_LOCK_DURATION,
        amount * (2 * PRECISION) <= u128::MAX,
    ensures
        spec_effective_amount(amount, lock) as int
            == amount * (PRECISION + (lock * PRECISION) / (MAX_LOCK_DURATION as int)) / (PRECISION as int),
        amount <= spec_effective_amount(amount, lock) <= 2 * amount,
        lock == MAX_LOCK_DURATION / 2 ==> spec_effective_amount(amount, lock) == amount + amount / 2,
        lock == MAX_LOCK_DURATION ==> spec_effective_amount(amount, lock) == 2 * amount,
{
    let p = PRECISION as int;
    let m = MAX_LOCK_DURATION as int;
    let l = lock as int;
    let a = amount as int;
    assert(l * p <= m * p) by (nonlinear_arith) requires l <= m, p > 0;
    assert(l * p >= 0) by (nonlinear_arith) requires l >= 0, p > 0;
    let bonus = (l * p) / m;
    assert(0 <= bonus <= p) by (nonlinear_arith) requires 0 <= l * p <= m * p, m > 0, bonus == (l * p) / m;
    assert(l * p <= u128::MAX);
    assert(spec_sat_mul_u128(lock as u128, PRECISION) == l * p);
    assert(spec_sat_add_u128(PRECISION, bonus as u128) == p + bonus);
    assert(a * (p + bonus) <= a * (2 * p)) by (nonlinear_arith) requires a >= 0, p + bonus <= 2 * p;
    assert(a * (p + bonus) >= a * p) by (nonlinear_arith) requires a >= 0, bonus >= 0;
    assert(spec_sat_mul_u128(amount, (p + bonus) as u128) == a * (p + bonus));
    assert(a * (p + bonus) / p >= a) by (nonlinear_arith) requires a * (p + bonus) >= a * p, p > 0;
    assert(a * (p + bonus) / p <= 2 * a) by (nonlinear_arith) requires a * (p + bonus) <= a * (2 * p), p > 0;
    if lock == MAX_LOCK_DURATION / 2 {
        assert(bonus == p / 2);
        assert(a * (p + p / 2) / p == a + a / 2) by (nonlinear_arith)
            requires p == 1_000_000_000_000_000_000, a >= 0;
    }
    if lock == MAX_LOCK_DURATION {
        assert(bonus == p);
        assert(a * (p + p) / p == 2 * a) by (nonlinear_arith) requires p > 0;
    }
}

/// A longer lock never gives less effective stake.
pub proof fn lemma_lock_weighting_monotone(amount: u128, l1: u64, l2: u64)
    requires
        l1 <= l2 <= MAX_LOCK_DURATION,
        amount * (2 * PRECISION) <= u128::MAX,
    ensures
        spec_effective_amount(amount, l1) <= spec_effective_amount(amount, l2),
{
    lemma_lock_weighting(amount, l1);
    lemma_lock_weighting(amount, l2);
    let p = PRECISION as int;
    let m = MAX_LOCK_DURATION as int;
    let a = amount as int;
    let b1 = (l1 * p) / m;
    let b2 = (l2 * p) / m;
    assert(l1 * p <= l2 * p) by (nonlinear_arith) requires l1 <= l2, p > 0;
    assert(b1 <= b2) by (nonlinear_arith) requires l1 * p <= l2 * p, m > 0, b1 == (l1 * p) / m, b2 == (l2 * p) / m;
    assert(a * (p + b1) <= a * (p + b2)) by (nonlinear_arith) requires a >= 0, b1 <= b2;
    assert(a * (p + b1) / p <= a * (p + b2) / p) by (nonlinear_arith) requires a * (p + b1) <= a * (p + b2), p > 0;
}

} // verus!
