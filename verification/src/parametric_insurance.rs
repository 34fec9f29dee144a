//! Parametric insurance: underwriters pool capital, buyers take policies
//! that pay a fixed amount when an oracle reports that the policy's trigger
//! fired before expiry. Every payout is reserved when the policy is sold, so
//! the pool always covers what it owes.
use std::collections::HashMap;
use vstd::prelude::*;
use crate::bytes_map::BytesMap;
use crate::common::{Address, get_or, map_get_or};
use crate::security_primitives::{fits_i128, lemma_trunc_div_fits, spec_trunc_div};

verus! {

broadcast use vstd::std_specs::hash::group_hash_axioms;

/// A policy sold to a buyer.
#[derive(Clone, Debug, PartialEq, Eq)]
pub struct Policy {
    pub id: u64,
    pub buyer: Address,
    /// Name of the event the oracle reports on.
    pub trigger_key: String,
    pub premium: i128,
    pub payout: i128,
    pub expires_at: u64,
    pub claimed: bool,
}

#[derive(Copy, Clone, Debug, PartialEq, Eq, Structural)]
pub enum InsuranceError {
    AlreadyInitialized,
    NotInitialized,
    Unauthorized,
    InvalidAmount,
    Insolvent,
    PolicyMissing,
    TriggerNotMet,
    Expired,
    AlreadyClaimed,
}

/// The key under which the oracle's report on a trigger is stored: the
/// UTF-8 bytes of its name.
pub open spec fn trigger_bytes(trigger_key: Seq<char>) -> Seq<u8> {
    vstd::utf8::encode_utf8(trigger_key)
}

/// Storage of the insurance pool.
pub struct ParametricInsuranceContract {
    pub admin: Option<Address>,
    pub oracle: Option<Address>,
    /// Capital in the pool: underwriting and premiums, less payouts.
    pub total_capital: i128,
    /// Payouts the pool has promised on policies not yet claimed.
    pub locked_liability: i128,
    pub underwriter_balance: HashMap<Address, i128>,
    pub policies: HashMap<u64, Policy>,
    pub next_policy_id: u64,
    /// The oracle's latest report per trigger.
    pub signals: BytesMap<bool>,
    /// Payouts owed per buyer.
    pub claimable: HashMap<Address, i128>,
}

impl ParametricInsuranceContract {
    pub open spec fn wf(&self) -> bool {
        self.signals.wf()
    }

    /// The pool covers every promised payout.
    pub open spec fn solvent(&self) -> bool {
        self.total_capital >= self.locked_liability
    }

    pub open spec fn fired(&self, trigger_key: Seq<char>) -> bool {
        self.signals.view().contains_key(trigger_bytes(trigger_key)) && self.signals.view()[trigger_bytes(trigger_key)]
    }

    pub open spec fn balance_of(&self, underwriter: Address) -> i128 {
        map_get_or(self.underwriter_balance@, underwriter, 0i128)
    }

    pub open spec fn claimable_of(&self, buyer: Address) -> i128 {
        map_get_or(self.claimable@, buyer, 0i128)
    }

    /// Fresh, uninitialised storage.
    pub fn new() -> (c: Self)
        ensures
            c.wf(),
            c.admin is None && c.oracle is None,
            c.total_capital == 0 && c.locked_liability == 0,
            c.next_policy_id == 1,
            c.underwriter_balance@ == Map::<Address, i128>::empty(),
            c.policies@ == Map::<u64, Policy>::empty(),
            c.signals.view() == Map::<Seq<u8>, bool>::empty(),
            c.claimable@ == Map::<Address, i128>::empty(),
            c.solvent(),
    {
        ParametricInsuranceContract {
            admin: None,
            oracle: None,
            total_capital: 0,
            locked_liability: 0,
            underwriter_balance: HashMap::new(),
            policies: HashMap::new(),
            next_policy_id: 1,
            signals: BytesMap::new(),
            claimable: HashMap::new(),
        }
    }

    /// Record the admin and the oracle; the pool starts empty.
    pub fn initialize(&mut self, admin: Address, oracle: Address) -> (r: Result<(), InsuranceError>)
        ensures
            r == (if old(self).admin is Some { Err(InsuranceError::AlreadyInitialized) } else { Ok(()) }),
            r is Err ==> *final(self) == *old(self),
            r is Ok ==> *final(self) == (ParametricInsuranceContract {
                admin: Some(admin),
                oracle: Some(oracle),
                total_capital: 0,
                locked_liability: 0,
                next_policy_id: 1,
                ..*old(self)
            }),
    {
        if self.admin.is_some() {
            return Err(InsuranceError::AlreadyInitialized);
        }
        self.admin = Some(admin);
        self.oracle = Some(oracle);
        self.total_capital = 0;
        self.locked_liability = 0;
        self.next_policy_id = 1;
        Ok(())
    }

    /// An underwriter adds `amount` to the pool.
    pub fn underwrite(&mut self, underwriter: Address, amount: i128) -> (r: Result<(), InsuranceError>)
        requires
            old(self).admin is Some && amount > 0 ==> {
                &&& old(self).total_capital + amount <= i128::MAX
                &&& old(self).balance_of(underwriter) + amount <= i128::MAX
            },
        ensures
            r == (if old(self).admin is None {
                Err(InsuranceError::NotInitialized)
            } else if amount <= 0 {
                Err(InsuranceError::InvalidAmount)
            } else {
                Ok(())
            }),
            r is Err ==> *final(self) == *old(self),
            r is Ok ==> *final(self) == (ParametricInsuranceContract {
                total_capital: (old(self).total_capital + amount) as i128,
                underwriter_balance: final(self).underwriter_balance,
                ..*old(self)
            }) && final(self).underwriter_balance@ == old(self).underwriter_balance@.insert(
                underwriter, (old(self).balance_of(underwriter) + amount) as i128),
            old(self).solvent() ==> final(self).solvent(),
    {
        if self.admin.is_none() {
            return Err(InsuranceError::NotInitialized);
        }
        if amount <= 0 {
            return Err(InsuranceError::InvalidAmount);
        }
        self.total_capital = self.total_capital + amount;
        let bal = get_or(&self.underwriter_balance, &underwriter, 0i128);
        self.underwriter_balance.insert(underwriter, bal + amount);
        Ok(())
    }

    /// Sell a policy at time `now`: the premium joins the pool and the
    /// payout is reserved. Returns the policy id.
    pub fn buy_policy(
        &mut self,
        buyer: Address,
        premium: i128,
        payout: i128,
        expires_at: u64,
        trigger_key: String,
        now: u64,
    ) -> (r: Result<u64, InsuranceError>)
        requires
            old(self).admin is Some && premium > 0 && payout > 0 && expires_at > now ==> {
                &&& old(self).total_capital + premium <= i128::MAX
                &&& old(self).locked_liability + payout <= i128::MAX
                &&& old(self).next_policy_id < u64::MAX
            },
        ensures
            r == (if old(self).admin is None {
                Err(InsuranceError::NotInitialized)
            } else if premium <= 0 || payout <= 0 || expires_at <= now {
                Err(InsuranceError::InvalidAmount)
            } else if old(self).total_capital + premium < old(self).locked_liability + payout {
                Err(InsuranceError::Insolvent)
            } else {
                Ok(old(self).next_policy_id)
            }),
            r is Err ==> *final(self) == *old(self),
            r matches Ok(id) ==> {
                &&& *final(self) == (ParametricInsuranceContract {
                    total_capital: (old(self).total_capital + premium) as i128,
                    locked_liability: (old(self).locked_liability + payout) as i128,
                    next_policy_id: (id + 1) as u64,
                    policies: final(self).policies,
                    ..*old(self)
                })
                &&& final(self).policies@.dom() == old(self).policies@.dom().insert(id)
                &&& forall|p: u64| p != id && #[trigger] old(self).policies@.contains_key(p) ==> final(self).policies@[p] == old(self).policies@[p]
                &&& ({
                    let pol = final(self).policies@[id];
                    &&& pol.id == id && pol.buyer == buyer && pol.trigger_key@ == trigger_key@
                    &&& pol.premium == premium && pol.payout == payout && pol.expires_at == expires_at && !pol.claimed
                })
            },
            old(self).solvent() ==> final(self).solvent(),
    {
        if self.admin.is_none() {
            return Err(InsuranceError::NotInitialized);
        }
        if premium <= 0 || payout <= 0 || expires_at <= now {
            return Err(InsuranceError::InvalidAmount);
        }
        let total = self.total_capital + premium;
        let locked = self.locked_liability + payout;
        if total < locked {
            return Err(InsuranceError::Insolvent);
        }
        let id = self.next_policy_id;
        self.policies.insert(id, Policy { id, buyer, trigger_key, premium, payout, expires_at, claimed: false });
        self.total_capital = total;
        self.locked_liability = locked;
        self.next_policy_id = id + 1;
        Ok(id)
    }

    /// The oracle reports whether the event `trigger_key` fired.
    pub fn post_oracle_signal(&mut self, oracle: Address, trigger_key: String, fired: bool) -> (r: Result<(), InsuranceError>)
        requires
            old(self).wf(),
        ensures
            final(self).wf(),
            r == (if old(self).admin is None || old(self).oracle is None {
                Err(InsuranceError::NotInitialized)
            } else if old(self).oracle != Some(oracle) {
                Err(InsuranceError::Unauthorized)
            } else {
                Ok(())
            }),
            r is Err ==> *final(self) == *old(self),
            r is Ok ==> *final(self) == (ParametricInsuranceContract { signals: final(self).signals, ..*old(self) })
                && final(self).signals.view() == old(self).signals.view().insert(trigger_bytes(trigger_key@), fired),
    {
        if self.admin.is_none() {
            return Err(InsuranceError::NotInitialized);
        }
        let expected = match self.oracle {
            Some(o) => o,
            None => return Err(InsuranceError::NotInitialized),
        };
        if oracle != expected {
            return Err(InsuranceError::Unauthorized);
        }
        let key = trigger_key.as_str().as_bytes_vec();
        self.signals.insert(key, fired);
        Ok(())
    }

    /// The buyer claims policy `policy_id` at time `now`: the payout leaves
    /// the pool and its reservation, and is owed to the buyer. Returns it.
    pub fn claim(&mut self, buyer: Address, policy_id: u64, now: u64) -> (r: Result<i128, InsuranceError>)
        requires
            old(self).wf(),
            old(self).policies@.contains_key(policy_id) ==> {
                let p = old(self).policies@[policy_id].payout;
                &&& fits_i128(old(self).total_capital - p)
                &&& fits_i128(old(self).locked_liability - p)
                &&& fits_i128(old(self).claimable_of(buyer) + p)
            },
        ensures
            final(self).wf(),
            r == (if old(self).admin is None {
                Err(InsuranceError::NotInitialized)
            } else if !old(self).policies@.contains_key(policy_id) {
                Err(InsuranceError::PolicyMissing)
            } else if old(self).policies@[policy_id].buyer != buyer {
                Err(InsuranceError::Unauthorized)
            } else if old(self).policies@[policy_id].claimed {
                Err(InsuranceError::AlreadyClaimed)
            } else if now > old(self).policies@[policy_id].expires_at {
                Err(InsuranceError::Expired)
            } else if !old(self).fired(old(self).policies@[policy_id].trigger_key@) {
                Err(InsuranceError::TriggerNotMet)
            } else {
                Ok(old(self).policies@[policy_id].payout)
            }),
            r is Err ==> *final(self) == *old(self),
            r matches Ok(p) ==> {
                &&& *final(self) == (ParametricInsuranceContract {
                    total_capital: (old(self).total_capital - p) as i128,
                    locked_liability: (old(self).locked_liability - p) as i128,
                    policies: final(self).policies,
                    claimable: final(self).claimable,
                    ..*old(self)
                })
                &&& final(self).policies@.dom() == old(self).policies@.dom()
                &&& forall|q: u64| q != policy_id && #[trigger] old(self).policies@.contains_key(q) ==> final(self).policies@[q] == old(self).policies@[q]
                &&& final(self).policies@[policy_id] == (Policy { claimed: true, ..old(self).policies@[policy_id] })
                &&& final(self).claimable@ == old(self).claimable@.insert(buyer, (old(self).claimable_of(buyer) + p) as i128)
            },
            old(self).solvent() ==> final(self).solvent(),
    {
        if self.admin.is_none() {
            return Err(InsuranceError::NotInitialized);
        }
        let policy = match self.policies.get(&policy_id) {
            Some(p) => p,
            None => return Err(InsuranceError::PolicyMissing),
        };
        if policy.buyer != buyer {
            return Err(InsuranceError::Unauthorized);
        }
        if policy.claimed {
            return Err(InsuranceError::AlreadyClaimed);
        }
        if now > policy.expires_at {
            return Err(InsuranceError::Expired);
        }
        let key = policy.trigger_key.as_str().as_bytes_vec();
        let fired = match self.signals.get(key.as_slice()) {
            Some(f) => *f,
            None => false,
        };
        if !fired {
            return Err(InsuranceError::TriggerNotMet);
        }
        let payout = policy.payout;
        let mut updated = match self.policies.remove(&policy_id) {
            Some(p) => p,
            None => return Err(InsuranceError::PolicyMissing),
        };
        updated.claimed = true;
        self.policies.insert(policy_id, updated);
        self.total_capital = self.total_capital - payout;
        self.locked_liability = self.locked_liability - payout;
        let owed = get_or(&self.claimable, &buyer, 0i128);
        self.claimable.insert(buyer, owed + payout);
        Ok(payout)
    }

    /// An underwriter takes `amount` back, if the pool still covers what
    /// it owes afterwards.
    pub fn withdraw_underwriting(&mut self, underwriter: Address, amount: i128) -> (r: Result<(), InsuranceError>)
        requires
            old(self).admin is Some && amount > 0 ==> old(self).total_capital - amount >= i128::MIN,
        ensures
            r == (if old(self).admin is None {
                Err(InsuranceError::NotInitialized)
            } else if amount <= 0 || old(self).balance_of(underwriter) < amount {
                Err(InsuranceError::InvalidAmount)
            } else if old(self).total_capital - amount < old(self).locked_liability {
                Err(InsuranceError::Insolvent)
            } else {
                Ok(())
            }),
            r is Err ==> *final(self) == *old(self),
            r is Ok ==> *final(self) == (ParametricInsuranceContract {
                total_capital: (old(self).total_capital - amount) as i128,
                underwriter_balance: final(self).underwriter_balance,
                ..*old(self)
            }) && final(self).underwriter_balance@ == old(self).underwriter_balance@.insert(
                underwriter, (old(self).balance_of(underwriter) - amount) as i128),
            old(self).solvent() ==> final(self).solvent(),
    {
        if self.admin.is_none() {
            return Err(InsuranceError::NotInitialized);
        }
        if amount <= 0 {
            return Err(InsuranceError::InvalidAmount);
        }
        let current = get_or(&self.underwriter_balance, &underwriter, 0i128);
        if current < amount {
            return Err(InsuranceError::InvalidAmount);
        }
        let total = self.total_capital;
        if total - amount < self.locked_liability {
            return Err(InsuranceError::Insolvent);
        }
        self.underwriter_balance.insert(underwriter, current - amount);
        self.total_capital = total - amount;
        Ok(())
    }

    pub fn get_policy(&self, policy_id: u64) -> (r: Option<&Policy>)
        ensures
            r is Some <==> self.policies@.contains_key(policy_id),
            r matches Some(p) ==> *p == self.policies@[policy_id],
    {
        self.policies.get(&policy_id)
    }

    /// Capital over promised payouts, in basis points; 100 000 where
    /// nothing is promised.
    pub fn solvency_ratio_bps(&self) -> (r: i128)
        requires
            self.locked_liability != 0 ==> {
                &&& i128::MIN <= self.total_capital * 10_000 <= i128::MAX
                &&& !(self.total_capital * 10_000 == i128::MIN && self.locked_liability == -1)
            },
        ensures
            r == (if self.locked_liability == 0 {
                100_000
            } else {
                spec_trunc_div(self.total_capital * 10_000, self.locked_liability as int)
            }),
    {
        if self.locked_liability == 0 {
            return 100_000;
        }
        proof {
            lemma_trunc_div_fits(self.total_capital * 10_000, self.locked_liability as int);
        }
        (self.total_capital * 10_000) / self.locked_liability
    }
}

/// A claim keeps the pool solvent: paying a payout out of both the capital
/// and the reservation leaves a pool that covered its promised payouts
/// still covering them.
pub proof fn lemma_claim_keeps_solvent(
    before: ParametricInsuranceContract,
    after: ParametricInsuranceContract,
    payout: i128,
)
    requires
        before.solvent(),
        after.total_capital == before.total_capital - payout,
        after.locked_liability == before.locked_liability - payout,
    ensures
        after.solvent(),
{
}

} // verus!
