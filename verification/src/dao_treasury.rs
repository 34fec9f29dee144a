//! DAO treasury: spending is limited to allowances that governance grants
//! per proposal and token; an emergency sweep of a whole token balance is
//! possible only after a timelock.
use std::collections::HashMap;
use vstd::prelude::*;
use crate::common::{Address, Payout, get_or, map_get_or, pair_key, spec_pair_key};

verus! {

broadcast use vstd::std_specs::hash::group_hash_axioms;

/// Delay between announcing and executing a sweep, in seconds (a day).
pub const SWEEP_TIMELOCK_DURATION: u64 = 86400;

/// A pending sweep of one token.
#[derive(Copy, Clone, Debug, PartialEq, Eq, Structural)]
pub struct SweepInfo {
    pub target: Address,
    pub unlock_timestamp: u64,
}

#[derive(Copy, Clone, Debug, PartialEq, Eq, Structural)]
pub enum TreasuryError {
    AlreadyInitialized,
    NotInitialized,
    Unauthorized,
    InsufficientAllowance,
    Reentrant,
    TimelockNotExpired,
    NoActiveSweep,
    InvalidAmount,
}

/// Storage of the treasury.
pub struct DaoTreasuryContract {
    pub admin: Option<Address>,
    /// Allowance per `(proposal_id, token)`, keyed by `pair_key`.
    pub allowances: HashMap<u128, i128>,
    /// Pending sweep per token.
    pub sweeps: HashMap<Address, SweepInfo>,
    /// Set while a transfer is in progress.
    pub locked: bool,
}

impl DaoTreasuryContract {
    pub open spec fn allowance(&self, proposal_id: u64, token: Address) -> i128 {
        map_get_or(self.allowances@, spec_pair_key(proposal_id, token), 0i128)
    }

    /// No allowance is negative: spending can never run past what
    /// governance granted.
    pub open spec fn allowances_nonneg(&self) -> bool {
        forall|k: u128| #[trigger] self.allowances@.contains_key(k) ==> self.allowances@[k] >= 0
    }

    /// Why an admin-only call by `caller` is refused, if it is.
    pub open spec fn admin_refusal(&self, caller: Address) -> Option<TreasuryError> {
        match self.admin {
            None => Some(TreasuryError::NotInitialized),
            Some(a) => if a != caller { Some(TreasuryError::Unauthorized) } else { None },
        }
    }

    /// Fresh, uninitialised storage.
    pub fn new() -> (c: Self)
        ensures
            c.admin is None,
            c.allowances@ == Map::<u128, i128>::empty(),
            c.sweeps@ == Map::<Address, SweepInfo>::empty(),
            !c.locked,
            c.allowances_nonneg(),
    {
        DaoTreasuryContract { admin: None, allowances: HashMap::new(), sweeps: HashMap::new(), locked: false }
    }

    pub fn initialize(&mut self, admin: Address) -> (r: Result<(), TreasuryError>)
        ensures
            r == (if old(self).admin is Some { Err(TreasuryError::AlreadyInitialized) } else { Ok(()) }),
            r is Err ==> *final(self) == *old(self),
            r is Ok ==> *final(self) == (DaoTreasuryContract { admin: Some(admin), locked: false, ..*old(self) }),
    {
        if self.admin.is_some() {
            return Err(TreasuryError::AlreadyInitialized);
        }
        self.admin = Some(admin);
        self.locked = false;
        Ok(())
    }

    fn require_admin(&self, caller: Address) -> (r: Result<(), TreasuryError>)
        ensures
            r == (match self.admin_refusal(caller) { Some(e) => Err(e), None => Ok(()) }),
    {
        match self.admin {
            None => Err(TreasuryError::NotInitialized),
            Some(a) => if a != caller { Err(TreasuryError::Unauthorized) } else { Ok(()) },
        }
    }

    /// The admin sets the allowance of a proposal in a token.
    pub fn set_proposal_allowance(&mut self, caller: Address, proposal_id: u64, token: Address, amount: i128) -> (r: Result<(), TreasuryError>)
        ensures
            r == (match old(self).admin_refusal(caller) {
                Some(e) => Err(e),
                None => if amount < 0 { Err(TreasuryError::InvalidAmount) } else { Ok(()) },
            }),
            r is Err ==> *final(self) == *old(self),
            r is Ok ==> *final(self) == (DaoTreasuryContract { allowances: final(self).allowances, ..*old(self) })
                && final(self).allowances@ == old(self).allowances@.insert(spec_pair_key(proposal_id, token), amount),
            old(self).allowances_nonneg() ==> final(self).allowances_nonneg(),
    {
        self.require_admin(caller)?;
        if amount < 0 {
            return Err(TreasuryError::InvalidAmount);
        }
        self.allowances.insert(pair_key(proposal_id, token), amount);
        Ok(())
    }

    /// Spend `amount` of `token` to `to` out of a proposal's allowance.
    /// Returns the transfer to make.
    pub fn execute_proposal_transfer(&mut self, proposal_id: u64, token: Address, to: Address, amount: i128) -> (r: Result<Payout, TreasuryError>)
        ensures
            r == (if amount <= 0 {
                Err(TreasuryError::InvalidAmount)
            } else if old(self).locked {
                Err(TreasuryError::Reentrant)
            } else if old(self).allowance(proposal_id, token) < amount {
                Err(TreasuryError::InsufficientAllowance)
            } else {
                Ok(Payout { to, amount })
            }),
            r is Err ==> *final(self) == *old(self),
            r is Ok ==> *final(self) == (DaoTreasuryContract { allowances: final(self).allowances, ..*old(self) })
                && final(self).allowances@ == old(self).allowances@.insert(
                    spec_pair_key(proposal_id, token), (old(self).allowance(proposal_id, token) - amount) as i128),
            old(self).allowances_nonneg() ==> final(self).allowances_nonneg(),
    {
        if amount <= 0 {
            return Err(TreasuryError::InvalidAmount);
        }
        if self.locked {
            return Err(TreasuryError::Reentrant);
        }
        let key = pair_key(proposal_id, token);
        let current = get_or(&self.allowances, &key, 0i128);
        if current < amount {
            return Err(TreasuryError::InsufficientAllowance);
        }
        self.allowances.insert(key, current - amount);
        Ok(Payout { to, amount })
    }

    /// The admin announces at time `now` a sweep of `token` to `target`,
    /// executable a day later.
    pub fn initiate_sweep(&mut self, caller: Address, token: Address, target: Address, now: u64) -> (r: Result<(), TreasuryError>)
        ensures
            r == (match old(self).admin_refusal(caller) { Some(e) => Err(e), None => Ok(()) }),
            r is Err ==> *final(self) == *old(self),
            r is Ok ==> *final(self) == (DaoTreasuryContract { sweeps: final(self).sweeps, ..*old(self) })
                && final(self).sweeps@ == old(self).sweeps@.insert(token, SweepInfo {
                    target,
                    unlock_timestamp: if now + SWEEP_TIMELOCK_DURATION > u64::MAX {
                        u64::MAX
                    } else {
                        (now + SWEEP_TIMELOCK_DURATION) as u64
                    },
                }),
    {
        self.require_admin(caller)?;
        let unlock_timestamp = now.saturating_add(SWEEP_TIMELOCK_DURATION);
        self.sweeps.insert(token, SweepInfo { target, unlock_timestamp });
        Ok(())
    }

    /// Execute the pending sweep of `token` at time `now`, given the
    /// treasury's `balance` of it: the whole balance goes to the target.
    /// Returns the transfer, none where the balance is not positive.
    pub fn execute_sweep(&mut self, token: Address, now: u64, balance: i128) -> (r: Result<Option<Payout>, TreasuryError>)
        ensures
            r == (if old(self).locked {
                Err(TreasuryError::Reentrant)
            } else if !old(self).sweeps@.contains_key(token) {
                Err(TreasuryError::NoActiveSweep)
            } else if now < old(self).sweeps@[token].unlock_timestamp {
                Err(TreasuryError::TimelockNotExpired)
            } else if balance > 0 {
                Ok(Some(Payout { to: old(self).sweeps@[token].target, amount: balance }))
            } else {
                Ok(None)
            }),
            r is Err ==> *final(self) == *old(self),
            r is Ok ==> *final(self) == (DaoTreasuryContract { sweeps: final(self).sweeps, ..*old(self) })
                && final(self).sweeps@ == old(self).sweeps@.remove(token),
    {
        if self.locked {
            return Err(TreasuryError::Reentrant);
        }
        let info = match self.sweeps.get(&token) {
            Some(i) => *i,
            None => return Err(TreasuryError::NoActiveSweep),
        };
        if now < info.unlock_timestamp {
            return Err(TreasuryError::TimelockNotExpired);
        }
        self.sweeps.remove(&token);
        if balance > 0 {
            Ok(Some(Payout { to: info.target, amount: balance }))
        } else {
            Ok(None)
        }
    }

    /// The allowance of a proposal in a token; 0 where none was set.
    pub fn get_proposal_allowance(&self, proposal_id: u64, token: Address) -> (r: i128)
        ensures
            r == self.allowance(proposal_id, token),
    {
        get_or(&self.allowances, &pair_key(proposal_id, token), 0i128)
    }
}

} // verus!
