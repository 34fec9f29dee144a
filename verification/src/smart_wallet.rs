//! Smart wallet with account abstraction: the owner and co-signers run
//! operations in nonce order; session keys run them within an expiry and a
//! spending limit; guardians can move ownership to a new key.
use std::collections::HashMap;
use vstd::prelude::*;
use crate::common::{Address, contains_address, get_or, map_get_or};

verus! {

broadcast use vstd::std_specs::hash::group_hash_axioms;

/// A delegated key: valid up to a ledger sequence number, spending at most
/// `spend_limit` in total where that is positive.
#[derive(Copy, Clone, Debug, PartialEq, Eq, Structural)]
pub struct SessionKeyInfo {
    pub expiry_ledger: u32,
    pub spend_limit: i128,
    pub spent: i128,
}

/// An operation the wallet runs.
#[derive(Clone, Debug, PartialEq, Eq)]
pub struct UserOperation {
    pub wallet: Address,
    pub target: Address,
    pub function: String,
    pub value: i128,
    pub nonce: u64,
}

/// An ownership change proposed by a guardian.
#[derive(Copy, Clone, Debug, PartialEq, Eq, Structural)]
pub struct PendingRecovery {
    pub new_owner: Address,
    pub approvals: u32,
}

#[derive(Copy, Clone, Debug, PartialEq, Eq, Structural)]
pub enum WalletError {
    AlreadyInitialized,
    NotInitialized,
    Unauthorized,
    InvalidThreshold,
    SessionKeyExpired,
    SessionKeySpendLimitExceeded,
    InvalidNonce,
    WalletLocked,
}

/// Storage of the wallet.
pub struct SmartWalletContract {
    pub owner: Option<Address>,
    pub threshold: Option<u32>,
    pub signers: Vec<Address>,
    /// Number of the next operation.
    pub nonce: u64,
    pub locked: bool,
    pub guardian_count: u32,
    /// Guardian approvals a recovery needs; read as 1 where unset.
    pub recovery_threshold: Option<u32>,
    pub guardians: HashMap<Address, bool>,
    pub session_keys: HashMap<Address, SessionKeyInfo>,
    pub pending_recovery: Option<PendingRecovery>,
}

impl SmartWalletContract {
    pub open spec fn is_signer_spec(&self, a: Address) -> bool {
        self.signers@.contains(a)
    }

    pub open spec fn is_guardian(&self, a: Address) -> bool {
        map_get_or(self.guardians@, a, false)
    }

    /// Why a call that needs the owner or a signer is refused, if it is.
    pub open spec fn owner_or_signer_refusal(&self, caller: Address) -> Option<WalletError> {
        match self.owner {
            None => Some(WalletError::NotInitialized),
            Some(o) => if caller != o && !self.is_signer_spec(caller) { Some(WalletError::Unauthorized) } else { None },
        }
    }

    /// No session key with a positive limit has spent beyond it.
    pub open spec fn spending_within_limits(&self) -> bool {
        forall|k: Address| #[trigger] self.session_keys@.contains_key(k) && self.session_keys@[k].spend_limit > 0
            ==> self.session_keys@[k].spent <= self.session_keys@[k].spend_limit
    }

    /// Fresh, uninitialised storage.
    pub fn new() -> (c: Self)
        ensures
            c.owner is None && c.threshold is None && c.recovery_threshold is None,
            c.signers@ == Seq::<Address>::empty(),
            c.nonce == 0 && !c.locked && c.guardian_count == 0,
            c.guardians@ == Map::<Address, bool>::empty(),
            c.session_keys@ == Map::<Address, SessionKeyInfo>::empty(),
            c.pending_recovery is None,
            c.spending_within_limits(),
    {
        SmartWalletContract {
            owner: None,
            threshold: None,
            signers: Vec::new(),
            nonce: 0,
            locked: false,
            guardian_count: 0,
            recovery_threshold: None,
            guardians: HashMap::new(),
            session_keys: HashMap::new(),
            pending_recovery: None,
        }
    }

    /// Set up the wallet: owner, co-signers with an approval threshold, and
    /// guardians with a recovery threshold.
    pub fn initialize(
        &mut self,
        owner: Address,
        signers: Vec<Address>,
        threshold: u32,
        guardians: Vec<Address>,
        recovery_threshold: u32,
    ) -> (r: Result<(), WalletError>)
        requires
            guardians.len() <= u32::MAX,
        ensures
            r == (if old(self).owner is Some {
                Err(WalletError::AlreadyInitialized)
            } else if threshold == 0 || threshold > signers.len() + 1 {
                Err(WalletError::InvalidThreshold)
            } else {
                Ok(())
            }),
            r is Err ==> *final(self) == *old(self),
            r is Ok ==> {
                &&& final(self).owner == Some(owner)
                &&& final(self).threshold == Some(threshold)
                &&& final(self).signers == signers
                &&& final(self).nonce == 0 && !final(self).locked
                &&& final(self).guardian_count == guardians.len()
                &&& final(self).recovery_threshold == Some(recovery_threshold)
                &&& final(self).guardians@.dom() == old(self).guardians@.dom() + guardians@.to_set()
                &&& forall|g: Address| #[trigger] final(self).guardians@.contains_key(g) ==>
                    final(self).guardians@[g] == (if guardians@.contains(g) { true } else { old(self).guardians@[g] })
                &&& final(self).session_keys == old(self).session_keys
                &&& final(self).pending_recovery == old(self).pending_recovery
            },
    {
        if self.owner.is_some() {
            return Err(WalletError::AlreadyInitialized);
        }
        if threshold == 0 || (threshold - 1) as usize > signers.len() {
            return Err(WalletError::InvalidThreshold);
        }
        let ghost start = self.guardians@;
        let mut i: usize = 0;
        while i < guardians.len()
            invariant
                0 <= i <= guardians.len(),
                *self == (SmartWalletContract { guardians: self.guardians, ..*old(self) }),
                self.guardians@.dom() == start.dom() + guardians@.take(i as int).to_set(),
                forall|g: Address| #[trigger] self.guardians@.contains_key(g) ==>
                    self.guardians@[g] == (if guardians@.take(i as int).contains(g) { true } else { start[g] }),
            decreases guardians.len() - i,
        {
            let g = guardians[i];
            self.guardians.insert(g, true);
            proof {
                let t0 = guardians@.take(i as int);
                let t1 = guardians@.take(i + 1);
                assert(t1 =~= t0.push(g));
                assert(t1.to_set() =~= t0.to_set().insert(g)) by {
                    assert forall|x: Address| t1.to_set().contains(x) <==> t0.to_set().insert(g).contains(x) by {
                        if t1.contains(x) {
                            let j = choose|j: int| 0 <= j < t1.len() && t1[j] == x;
                            if j < t0.len() {
                                assert(t0[j] == x);
                            }
                        }
                        if t0.contains(x) {
                            let j = choose|j: int| 0 <= j < t0.len() && t0[j] == x;
                            assert(t1[j] == x);
                        }
                        if x == g {
                            assert(t1[t0.len() as int] == x);
                        }
                    }
                }
                assert(self.guardians@.dom() =~= start.dom() + t1.to_set());
                assert forall|x: Address| #[trigger] self.guardians@.contains_key(x) implies
                    self.guardians@[x] == (if t1.contains(x) { true } else { start[x] }) by {
                    if x == g {
                        assert(t1[t0.len() as int] == x);
                    } else {
                        if t1.contains(x) {
                            let j = choose|j: int| 0 <= j < t1.len() && t1[j] == x;
                            assert(t0[j] == x);
                        }
                        if t0.contains(x) {
                            let j = choose|j: int| 0 <= j < t0.len() && t0[j] == x;
                            assert(t1[j] == x);
                        }
                    }
                }
            }
            i = i + 1;
        }
        assert(guardians@.take(guardians.len() as int) =~= guardians@);
        self.owner = Some(owner);
        self.threshold = Some(threshold);
        self.signers = signers;
        self.nonce = 0;
        self.locked = false;
        self.guardian_count = guardians.len() as u32;
        self.recovery_threshold = Some(recovery_threshold);
        Ok(())
    }

    fn assert_owner_or_signer(&self, caller: Address) -> (r: Result<(), WalletError>)
        ensures
            r == (match self.owner_or_signer_refusal(caller) { Some(e) => Err(e), None => Ok(()) }),
    {
        match self.owner {
            None => Err(WalletError::NotInitialized),
            Some(o) => if caller != o && !contains_address(&self.signers, caller) {
                Err(WalletError::Unauthorized)
            } else {
                Ok(())
            },
        }
    }

    /// The owner or a signer grants `session_key` until ledger
    /// `expiry_ledger` with a spending limit.
    pub fn add_session_key(&mut self, caller: Address, session_key: Address, expiry_ledger: u32, spend_limit: i128) -> (r: Result<(), WalletError>)
        ensures
            r == (match old(self).owner_or_signer_refusal(caller) {
                Some(e) => Err(e),
                None => if old(self).locked { Err(WalletError::WalletLocked) } else { Ok(()) },
            }),
            r is Err ==> *final(self) == *old(self),
            r is Ok ==> *final(self) == (SmartWalletContract { session_keys: final(self).session_keys, ..*old(self) })
                && final(self).session_keys@ == old(self).session_keys@.insert(
                    session_key, SessionKeyInfo { expiry_ledger, spend_limit, spent: 0 }),
            old(self).spending_within_limits() ==> final(self).spending_within_limits(),
    {
        self.assert_owner_or_signer(caller)?;
        if self.locked {
            return Err(WalletError::WalletLocked);
        }
        self.session_keys.insert(session_key, SessionKeyInfo { expiry_ledger, spend_limit, spent: 0 });
        Ok(())
    }

    /// The owner or a signer revokes `session_key`.
    pub fn revoke_session_key(&mut self, caller: Address, session_key: Address) -> (r: Result<(), WalletError>)
        ensures
            r == (match old(self).owner_or_signer_refusal(caller) { Some(e) => Err(e), None => Ok(()) }),
            r is Err ==> *final(self) == *old(self),
            r is Ok ==> *final(self) == (SmartWalletContract { session_keys: final(self).session_keys, ..*old(self) })
                && final(self).session_keys@ == old(self).session_keys@.remove(session_key),
            old(self).spending_within_limits() ==> final(self).spending_within_limits(),
    {
        self.assert_owner_or_signer(caller)?;
        self.session_keys.remove(&session_key);
        Ok(())
    }

    /// Why an operation by `caller` at ledger `sequence` is refused, if it is.
    pub open spec fn op_refusal(&self, caller: Address, op_nonce: u64, value: i128, sequence: u32) -> Option<WalletError> {
        if self.locked {
            Some(WalletError::WalletLocked)
        } else if op_nonce != self.nonce {
            Some(WalletError::InvalidNonce)
        } else if self.owner is None {
            Some(WalletError::NotInitialized)
        } else if caller == self.owner->0 || self.is_signer_spec(caller) {
            None
        } else if !self.session_keys@.contains_key(caller) {
            Some(WalletError::Unauthorized)
        } else if sequence > self.session_keys@[caller].expiry_ledger {
            Some(WalletError::SessionKeyExpired)
        } else if self.session_keys@[caller].spend_limit > 0
            && self.session_keys@[caller].spent + value > self.session_keys@[caller].spend_limit {
            Some(WalletError::SessionKeySpendLimitExceeded)
        } else {
            None
        }
    }

    /// An operation by `caller` reaches the spending check of its session key.
    pub open spec fn spends_session(&self, caller: Address, op_nonce: u64, sequence: u32) -> bool {
        &&& !self.locked
        &&& op_nonce == self.nonce
        &&& self.owner is Some
        &&& caller != self.owner->0 && !self.is_signer_spec(caller)
        &&& self.session_keys@.contains_key(caller)
        &&& sequence <= self.session_keys@[caller].expiry_ledger
    }

    /// Run operation `op` on behalf of `caller` at ledger `sequence`. A
    /// session key's spending grows by the operation's value.
    pub fn execute_user_op(&mut self, caller: Address, op: UserOperation, sequence: u32) -> (r: Result<(), WalletError>)
        requires
            old(self).op_refusal(caller, op.nonce, op.value, sequence) is None ==> old(self).nonce < u64::MAX,
            old(self).spends_session(caller, op.nonce, sequence) ==>
                i128::MIN <= old(self).session_keys@[caller].spent + op.value <= i128::MAX,
        ensures
            r == (match old(self).op_refusal(caller, op.nonce, op.value, sequence) { Some(e) => Err(e), None => Ok(()) }),
            r is Err ==> *final(self) == *old(self),
            r is Ok ==> {
                let session = !(caller == old(self).owner->0 || old(self).is_signer_spec(caller));
                &&& *final(self) == (SmartWalletContract {
                    nonce: (old(self).nonce + 1) as u64,
                    session_keys: final(self).session_keys,
                    ..*old(self)
                })
                &&& final(self).session_keys@ == if session {
                    old(self).session_keys@.insert(caller, SessionKeyInfo {
                        spent: (old(self).session_keys@[caller].spent + op.value) as i128,
                        ..old(self).session_keys@[caller]
                    })
                } else {
                    old(self).session_keys@
                }
            },
            old(self).spending_within_limits() ==> final(self).spending_within_limits(),
    {
        if self.locked {
            return Err(WalletError::WalletLocked);
        }
        let stored_nonce = self.nonce;
        if op.nonce != stored_nonce {
            return Err(WalletError::InvalidNonce);
        }
        let owner = match self.owner {
            Some(o) => o,
            None => return Err(WalletError::NotInitialized),
        };
        if caller != owner && !contains_address(&self.signers, caller) {
            let info = match self.session_keys.get(&caller) {
                Some(i) => *i,
                None => return Err(WalletError::Unauthorized),
            };
            if sequence > info.expiry_ledger {
                return Err(WalletError::SessionKeyExpired);
            }
            if info.spend_limit > 0 && info.spent + op.value > info.spend_limit {
                return Err(WalletError::SessionKeySpendLimitExceeded);
            }
            self.session_keys.insert(caller, SessionKeyInfo { spent: info.spent + op.value, ..info });
        }
        self.nonce = stored_nonce + 1;
        Ok(())
    }

    /// The owner or a signer runs a batch of operations, numbered on from
    /// the current nonce.
    pub fn execute_batch(&mut self, caller: Address, ops: Vec<UserOperation>) -> (r: Result<(), WalletError>)
        requires
            old(self).nonce + ops.len() <= u64::MAX,
        ensures
            r == (if old(self).locked {
                Err(WalletError::WalletLocked)
            } else {
                match old(self).owner_or_signer_refusal(caller) {
                    Some(e) => Err(e),
                    None => if forall|i: int| 0 <= i < ops@.len() ==> #[trigger] ops@[i].nonce == old(self).nonce + i {
                        Ok(())
                    } else {
                        Err(WalletError::InvalidNonce)
                    },
                }
            }),
            r is Err ==> *final(self) == *old(self),
            r is Ok ==> *final(self) == (SmartWalletContract { nonce: (old(self).nonce + ops.len()) as u64, ..*old(self) }),
    {
        if self.locked {
            return Err(WalletError::WalletLocked);
        }
        self.assert_owner_or_signer(caller)?;
        let mut nonce = self.nonce;
        let mut i: usize = 0;
        while i < ops.len()
            invariant
                0 <= i <= ops.len(),
                nonce == old(self).nonce + i,
                old(self).nonce + ops.len() <= u64::MAX,
                *self == *old(self),
                !old(self).locked,
                old(self).owner_or_signer_refusal(caller) is None,
                forall|j: int| 0 <= j < i ==> #[trigger] ops@[j].nonce == old(self).nonce + j,
            decreases ops.len() - i,
        {
            if ops[i].nonce != nonce {
                proof {
                    assert(!(ops@[i as int].nonce == old(self).nonce + i));
                }
                return Err(WalletError::InvalidNonce);
            }
            nonce = nonce + 1;
            i = i + 1;
        }
        self.nonce = nonce;
        Ok(())
    }

    /// A guardian proposes `new_owner`. With a recovery threshold of at most
    /// one approval the owner changes at once and the wallet unlocks;
    /// otherwise the proposal is recorded and the wallet locks.
    pub fn propose_recovery(&mut self, guardian: Address, new_owner: Address) -> (r: Result<(), WalletError>)
        ensures
            r == (if old(self).is_guardian(guardian) { Ok(()) } else { Err(WalletError::Unauthorized) }),
            r is Err ==> *final(self) == *old(self),
            r is Ok ==> {
                let t = match old(self).recovery_threshold { Some(t) => t, None => 1u32 };
                if 1 >= t {
                    *final(self) == (SmartWalletContract { owner: Some(new_owner), locked: false, ..*old(self) })
                } else {
                    *final(self) == (SmartWalletContract {
                        pending_recovery: Some(PendingRecovery { new_owner, approvals: 1 }),
                        locked: true,
                        ..*old(self)
                    })
                }
            },
    {
        if !get_or(&self.guardians, &guardian, false) {
            return Err(WalletError::Unauthorized);
        }
        let pending = PendingRecovery { new_owner, approvals: 1 };
        let threshold: u32 = match self.recovery_threshold {
            Some(t) => t,
            None => 1,
        };
        if pending.approvals >= threshold {
            self.owner = Some(new_owner);
            self.locked = false;
        } else {
            self.pending_recovery = Some(pending);
            self.locked = true;
        }
        Ok(())
    }

    pub fn get_owner(&self) -> (r: Result<Address, WalletError>)
        ensures
            r == (match self.owner { Some(o) => Ok(o), None => Err(WalletError::NotInitialized) }),
    {
        match self.owner {
            Some(o) => Ok(o),
            None => Err(WalletError::NotInitialized),
        }
    }

    pub fn get_nonce(&self) -> (r: u64)
        ensures
            r == self.nonce,
    {
        self.nonce
    }

    pub fn is_locked(&self) -> (r: bool)
        ensures
            r == self.locked,
    {
        self.locked
    }
}

} // verus!
