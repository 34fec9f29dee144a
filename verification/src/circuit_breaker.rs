//! Pause switch with multi-signature resume. Any registered admin pauses at
//! once; resuming needs approvals from a threshold of guardians, collected
//! per pause round so that a new pause discards earlier approvals.
use std::collections::HashMap;
use vstd::prelude::*;
use crate::common::{Address, contains_address};

verus! {

broadcast use vstd::std_specs::hash::group_hash_axioms;

/// Storage keys of the circuit breaker, as the host lays them out.
#[derive(Copy, Clone, Debug, PartialEq, Eq, Structural)]
pub enum CBKey {
    Paused,
    Nonce,
    Admins,
    Guardians,
    Threshold,
    Approvals(u32),
    PausedAt,
    PausedBy,
}

#[derive(Copy, Clone, Debug, PartialEq, Eq, Structural)]
pub enum CBError {
    AlreadyInitialized,
    NotInitialized,
    Unauthorized,
    /// A guarded function was called while paused.
    ContractPaused,
    /// Tried to resume a contract that is not paused.
    NotPaused,
    /// The guardian already approved this round.
    AlreadyApproved,
    /// Not enough approvals to resume.
    InsufficientApprovals,
    /// Threshold is zero or exceeds the guardian count.
    InvalidThreshold,
}

/// Storage of the circuit breaker.
pub struct CircuitBreakerContract {
    /// `None` until initialised.
    pub paused: Option<bool>,
    /// Pause round; approvals are collected per round.
    pub nonce: u32,
    pub admins: Vec<Address>,
    pub guardians: Vec<Address>,
    /// Approvals needed to resume; read as 1 where unset.
    pub threshold: Option<u32>,
    /// Guardians that approved, per round.
    pub approvals: HashMap<u32, Vec<Address>>,
    pub paused_at: Option<u64>,
    pub paused_by: Option<Address>,
}

/// The number that follows `n`, or 0 where `n` is the largest `u32`.
pub open spec fn next_nonce(n: u32) -> u32 {
    if n == u32::MAX { 0 } else { (n + 1) as u32 }
}

impl CircuitBreakerContract {
    pub open spec fn is_paused_spec(&self) -> bool {
        self.paused == Some(true)
    }

    /// Approvals collected in round `n`.
    pub open spec fn approvals_of(&self, n: u32) -> Seq<Address> {
        if self.approvals@.contains_key(n) { self.approvals@[n]@ } else { Seq::empty() }
    }

    pub open spec fn threshold_or_one(&self) -> u32 {
        match self.threshold { Some(t) => t, None => 1 }
    }

    /// Every approval of every round is from a registered guardian, and no
    /// guardian appears twice in one round.
    pub open spec fn approvals_sound(&self) -> bool {
        forall|n: u32| {
            &&& (#[trigger] self.approvals_of(n)).no_duplicates()
            &&& forall|i: int| 0 <= i < self.approvals_of(n).len() ==> self.guardians@.contains(self.approvals_of(n)[i])
        }
    }

    /// Fresh, uninitialised storage.
    pub fn new() -> (c: Self)
        ensures
            c.paused is None,
            c.nonce == 0,
            c.admins@ == Seq::<Address>::empty(),
            c.guardians@ == Seq::<Address>::empty(),
            c.threshold is None,
            c.approvals@ == Map::<u32, Vec<Address>>::empty(),
            c.paused_at is None,
            c.paused_by is None,
            c.approvals_sound(),
    {
        let c = CircuitBreakerContract {
            paused: None,
            nonce: 0,
            admins: Vec::new(),
            guardians: Vec::new(),
            threshold: None,
            approvals: HashMap::new(),
            paused_at: None,
            paused_by: None,
        };
        proof {
            assert forall|n: u32| #[trigger] c.approvals_of(n) == Seq::<Address>::empty() by {}
        }
        c
    }

    /// Register admins and guardians and the approval threshold.
    pub fn initialize(&mut self, admins: Vec<Address>, guardians: Vec<Address>, threshold: u32) -> (r: Result<(), CBError>)
        ensures
            r == (if old(self).paused is Some {
                Err(CBError::AlreadyInitialized)
            } else if threshold == 0 || threshold > guardians.len() {
                Err(CBError::InvalidThreshold)
            } else {
                Ok(())
            }),
            r is Err ==> *final(self) == *old(self),
            r is Ok ==> *final(self) == (CircuitBreakerContract {
                paused: Some(false),
                nonce: 0,
                admins,
                guardians,
                threshold: Some(threshold),
                ..*old(self)
            }),
    {
        if self.paused.is_some() {
            return Err(CBError::AlreadyInitialized);
        }
        if threshold == 0 || threshold as usize > guardians.len() {
            return Err(CBError::InvalidThreshold);
        }
        self.paused = Some(false);
        self.nonce = 0;
        self.admins = admins;
        self.guardians = guardians;
        self.threshold = Some(threshold);
        Ok(())
    }

    /// An admin pauses at time `now`. The round advances and the new round
    /// starts with no approvals.
    pub fn pause(&mut self, caller: Address, now: u64) -> (r: Result<(), CBError>)
        ensures
            r == (if old(self).admins@.contains(caller) { Ok(()) } else { Err(CBError::Unauthorized) }),
            r is Err ==> *final(self) == *old(self),
            r is Ok ==> {
                &&& *final(self) == (CircuitBreakerContract {
                    paused: Some(true),
                    nonce: next_nonce(old(self).nonce),
                    paused_at: Some(now),
                    paused_by: Some(caller),
                    approvals: final(self).approvals,
                    ..*old(self)
                })
                &&& final(self).approvals@ == old(self).approvals@.remove(next_nonce(old(self).nonce))
                &&& final(self).approvals_of(final(self).nonce) == Seq::<Address>::empty()
            },
            old(self).approvals_sound() ==> final(self).approvals_sound(),
    {
        if !contains_address(&self.admins, caller) {
            return Err(CBError::Unauthorized);
        }
        self.paused = Some(true);
        self.paused_at = Some(now);
        self.paused_by = Some(caller);
        let new_nonce: u32 = match self.nonce.checked_add(1) {
            Some(n) => n,
            None => 0,
        };
        self.nonce = new_nonce;
        self.approvals.remove(&new_nonce);
        proof {
            assert forall|n: u32| n != new_nonce implies #[trigger] self.approvals_of(n) == old(self).approvals_of(n) by {}
            assert(self.approvals_of(new_nonce) == Seq::<Address>::empty());
        }
        Ok(())
    }

    /// A guardian approves resuming in the current round.
    pub fn approve_unpause(&mut self, guardian: Address) -> (r: Result<(), CBError>)
        ensures
            r == (if !old(self).is_paused_spec() {
                Err(CBError::NotPaused)
            } else if !old(self).guardians@.contains(guardian) {
                Err(CBError::Unauthorized)
            } else if old(self).approvals_of(old(self).nonce).contains(guardian) {
                Err(CBError::AlreadyApproved)
            } else {
                Ok(())
            }),
            r is Err ==> *final(self) == *old(self),
            r is Ok ==> {
                &&& *final(self) == (CircuitBreakerContract { approvals: final(self).approvals, ..*old(self) })
                &&& final(self).approvals@.dom() == old(self).approvals@.dom().insert(old(self).nonce)
                &&& final(self).approvals_of(old(self).nonce) == old(self).approvals_of(old(self).nonce).push(guardian)
                &&& forall|n: u32| n != old(self).nonce ==> #[trigger] final(self).approvals_of(n) == old(self).approvals_of(n)
            },
            old(self).approvals_sound() ==> final(self).approvals_sound(),
    {
        let paused = match self.paused {
            Some(p) => p,
            None => false,
        };
        if !paused {
            return Err(CBError::NotPaused);
        }
        if !contains_address(&self.guardians, guardian) {
            return Err(CBError::Unauthorized);
        }
        let nonce = self.nonce;
        let already = match self.approvals.get(&nonce) {
            Some(v) => contains_address(v, guardian),
            None => false,
        };
        if already {
            return Err(CBError::AlreadyApproved);
        }
        let mut list = match self.approvals.remove(&nonce) {
            Some(v) => v,
            None => Vec::new(),
        };
        list.push(guardian);
        self.approvals.insert(nonce, list);
        proof {
            assert forall|n: u32| n != nonce implies #[trigger] self.approvals_of(n) == old(self).approvals_of(n) by {}
            if old(self).approvals_sound() {
                assert forall|n: u32| {
                    &&& (#[trigger] self.approvals_of(n)).no_duplicates()
                    &&& forall|i: int| 0 <= i < self.approvals_of(n).len() ==> self.guardians@.contains(self.approvals_of(n)[i])
                } by {
                    if n == nonce {
                        let s = old(self).approvals_of(nonce);
                        assert(self.approvals_of(n) == s.push(guardian));
                        assert forall|i: int, j: int| 0 <= i < j < s.push(guardian).len() implies
                            s.push(guardian)[i] != s.push(guardian)[j] by {
                            if j == s.len() {
                                assert(s[i] == s.push(guardian)[i]);
                            }
                        }
                    }
                }
            }
        }
        Ok(())
    }

    /// Resume once the current round holds enough approvals.
    pub fn execute_unpause(&mut self) -> (r: Result<(), CBError>)
        ensures
            r == (if !old(self).is_paused_spec() {
                Err(CBError::NotPaused)
            } else if old(self).approvals_of(old(self).nonce).len() < old(self).threshold_or_one() {
                Err(CBError::InsufficientApprovals)
            } else {
                Ok(())
            }),
            r is Err ==> *final(self) == *old(self),
            r is Ok ==> {
                &&& *final(self) == (CircuitBreakerContract {
                    paused: Some(false),
                    approvals: final(self).approvals,
                    ..*old(self)
                })
                &&& final(self).approvals@ == old(self).approvals@.remove(old(self).nonce)
            },
            old(self).approvals_sound() ==> final(self).approvals_sound(),
    {
        let paused = match self.paused {
            Some(p) => p,
            None => false,
        };
        if !paused {
            return Err(CBError::NotPaused);
        }
        let nonce = self.nonce;
        let count: usize = match self.approvals.get(&nonce) {
            Some(v) => v.len(),
            None => 0,
        };
        let threshold: u32 = match self.threshold {
            Some(t) => t,
            None => 1,
        };
        if count < threshold as usize {
            return Err(CBError::InsufficientApprovals);
        }
        self.paused = Some(false);
        self.approvals.remove(&nonce);
        proof {
            assert forall|n: u32| n != nonce implies #[trigger] self.approvals_of(n) == old(self).approvals_of(n) by {}
            assert(self.approvals_of(nonce) == Seq::<Address>::empty());
        }
        Ok(())
    }

    /// An admin registers another admin; one already listed is not added twice.
    pub fn add_admin(&mut self, caller: Address, new_admin: Address) -> (r: Result<(), CBError>)
        ensures
            r == (if old(self).admins@.contains(caller) { Ok(()) } else { Err(CBError::Unauthorized) }),
            r is Err ==> *final(self) == *old(self),
            r is Ok ==> *final(self) == (CircuitBreakerContract { admins: final(self).admins, ..*old(self) })
                && final(self).admins@ == if old(self).admins@.contains(new_admin) {
                    old(self).admins@
                } else {
                    old(self).admins@.push(new_admin)
                },
    {
        if !contains_address(&self.admins, caller) {
            return Err(CBError::Unauthorized);
        }
        if !contains_address(&self.admins, new_admin) {
            self.admins.push(new_admin);
        }
        Ok(())
    }

    /// An admin registers another guardian; one already listed is not added twice.
    pub fn add_guardian(&mut self, caller: Address, new_guardian: Address) -> (r: Result<(), CBError>)
        ensures
            r == (if old(self).admins@.contains(caller) { Ok(()) } else { Err(CBError::Unauthorized) }),
            r is Err ==> *final(self) == *old(self),
            r is Ok ==> *final(self) == (CircuitBreakerContract { guardians: final(self).guardians, ..*old(self) })
                && final(self).guardians@ == if old(self).guardians@.contains(new_guardian) {
                    old(self).guardians@
                } else {
                    old(self).guardians@.push(new_guardian)
                },
            old(self).approvals_sound() ==> final(self).approvals_sound(),
    {
        if !contains_address(&self.admins, caller) {
            return Err(CBError::Unauthorized);
        }
        if !contains_address(&self.guardians, new_guardian) {
            self.guardians.push(new_guardian);
            proof {
                assert forall|a: Address| old(self).guardians@.contains(a) implies #[trigger] self.guardians@.contains(a) by {
                    let i = choose|i: int| 0 <= i < old(self).guardians@.len() && old(self).guardians@[i] == a;
                    assert(self.guardians@[i] == a);
                }
                if old(self).approvals_sound() {
                    assert forall|n: u32| {
                        &&& (#[trigger] self.approvals_of(n)).no_duplicates()
                        &&& forall|i: int| 0 <= i < self.approvals_of(n).len() ==> self.guardians@.contains(self.approvals_of(n)[i])
                    } by {
                        assert(self.approvals_of(n) == old(self).approvals_of(n));
                        assert forall|i: int| 0 <= i < self.approvals_of(n).len() implies self.guardians@.contains(self.approvals_of(n)[i]) by {
                            assert(old(self).guardians@.contains(old(self).approvals_of(n)[i]));
                        }
                    }
                }
            }
        }
        Ok(())
    }

    /// An admin changes the approval threshold.
    pub fn set_threshold(&mut self, caller: Address, threshold: u32) -> (r: Result<(), CBError>)
        ensures
            r == (if !old(self).admins@.contains(caller) {
                Err(CBError::Unauthorized)
            } else if threshold == 0 || threshold > old(self).guardians.len() {
                Err(CBError::InvalidThreshold)
            } else {
                Ok(())
            }),
            r is Err ==> *final(self) == *old(self),
            r is Ok ==> *final(self) == (CircuitBreakerContract { threshold: Some(threshold), ..*old(self) }),
    {
        if !contains_address(&self.admins, caller) {
            return Err(CBError::Unauthorized);
        }
        if threshold == 0 || threshold as usize > self.guardians.len() {
            return Err(CBError::InvalidThreshold);
        }
        self.threshold = Some(threshold);
        Ok(())
    }

    pub fn is_paused(&self) -> (b: bool)
        ensures
            b == self.is_paused_spec(),
    {
        match self.paused {
            Some(p) => p,
            None => false,
        }
    }

    /// The current pause round.
    pub fn nonce(&self) -> (n: u32)
        ensures
            n == self.nonce,
    {
        self.nonce
    }

    /// Approvals collected in the current round.
    pub fn approval_count(&self) -> (n: usize)
        ensures
            n == self.approvals_of(self.nonce).len(),
    {
        match self.approvals.get(&self.nonce) {
            Some(v) => v.len(),
            None => 0,
        }
    }
}

/// Guard for state-changing operations elsewhere: fails while paused.
pub fn assert_not_paused(cb: &CircuitBreakerContract) -> (r: Result<(), CBError>)
    ensures
        r == (if cb.is_paused_spec() { Err(CBError::ContractPaused) } else { Ok(()) }),
{
    if cb.is_paused() {
        Err(CBError::ContractPaused)
    } else {
        Ok(())
    }
}

} // verus!
