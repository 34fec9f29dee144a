//! Merkle airdrop: a claim pays the allocation whose leaf the proof leads to
//! the root, once per user, before the deadline, subject to a blacklist and
//! an optional identity check.
use std::collections::HashMap;
use vstd::prelude::*;
use crate::common::{Address, get_or, map_get_or};
use crate::merkle_distributor::{compute_leaf, merkle_fold, proof_view, spec_leaf, verify};

verus! {

broadcast use vstd::std_specs::hash::group_hash_axioms;

/// Reasons for which the airdrop refuses a call.
#[derive(Copy, Clone, Debug, PartialEq, Eq, Structural)]
pub enum AirdropError {
    AlreadyInitialized,
    NotInitialized,
    Unauthorized,
    InvalidProof,
    AlreadyClaimed,
    DeadlineExceeded,
    Blacklisted,
    IdentityNotVerified,
    DeadlineNotReached,
}

/// Storage of the airdrop.
pub struct AirdropManager {
    pub admin: Option<Address>,
    pub token: Address,
    pub token_id: u32,
    pub merkle_root: Vec<u8>,
    pub deadline: u64,
    pub claimed: HashMap<Address, bool>,
    pub blacklist: HashMap<Address, bool>,
    pub verified: HashMap<Address, bool>,
    pub require_verification: bool,
}

impl AirdropManager {
    /// The refusal a claim meets before its proof is looked at, if any.
    pub open spec fn spec_precheck(&self, user: Address, now: u64) -> Option<AirdropError> {
        if now > self.deadline {
            Some(AirdropError::DeadlineExceeded)
        } else if map_get_or(self.blacklist@, user, false) {
            Some(AirdropError::Blacklisted)
        } else if self.require_verification && !map_get_or(self.verified@, user, false) {
            Some(AirdropError::IdentityNotVerified)
        } else if map_get_or(self.claimed@, user, false) {
            Some(AirdropError::AlreadyClaimed)
        } else {
            None
        }
    }

    /// Fresh, uninitialised storage.
    pub fn new() -> (c: Self)
        ensures
            c.admin is None,
            c.claimed@ == Map::<Address, bool>::empty(),
            c.blacklist@ == Map::<Address, bool>::empty(),
            c.verified@ == Map::<Address, bool>::empty(),
            !c.require_verification,
    {
        AirdropManager {
            admin: None,
            token: 0,
            token_id: 0,
            merkle_root: Vec::new(),
            deadline: 0,
            claimed: HashMap::new(),
            blacklist: HashMap::new(),
            verified: HashMap::new(),
            require_verification: false,
        }
    }

    pub fn init(
        &mut self,
        admin: Address,
        token: Address,
        token_id: u32,
        merkle_root: Vec<u8>,
        deadline: u64,
    ) -> (r: Result<(), AirdropError>)
        ensures
            r == (if old(self).admin is Some { Err::<(), AirdropError>(AirdropError::AlreadyInitialized) } else { Ok(()) }),
            r is Err ==> *final(self) == *old(self),
            r is Ok ==> *final(self) == (AirdropManager {
                admin: Some(admin),
                token,
                token_id,
                merkle_root,
                deadline,
                require_verification: true,
                ..*old(self)
            }),
    {
        if self.admin.is_some() {
            return Err(AirdropError::AlreadyInitialized);
        }
        self.admin = Some(admin);
        self.token = token;
        self.token_id = token_id;
        self.merkle_root = merkle_root;
        self.deadline = deadline;
        self.require_verification = true;
        Ok(())
    }

    /// A claim of `amount` by `user` at time `now`, given whether its proof
    /// is valid. Returns the amount to pay.
    pub fn claim_verified(&mut self, user: Address, amount: i128, proof_valid: bool, now: u64) -> (r: Result<i128, AirdropError>)
        ensures
            r == (match old(self).spec_precheck(user, now) {
                Some(e) => Err(e),
                None => if !proof_valid { Err(AirdropError::InvalidProof) } else { Ok(amount) },
            }),
            r is Err ==> *final(self) == *old(self),
            r is Ok ==> *final(self) == (AirdropManager { claimed: final(self).claimed, ..*old(self) })
                && final(self).claimed@ == old(self).claimed@.insert(user, true),
    {
        if now > self.deadline {
            return Err(AirdropError::DeadlineExceeded);
        }
        if get_or(&self.blacklist, &user, false) {
            return Err(AirdropError::Blacklisted);
        }
        if self.require_verification {
            if !get_or(&self.verified, &user, false) {
                return Err(AirdropError::IdentityNotVerified);
            }
        }
        if get_or(&self.claimed, &user, false) {
            return Err(AirdropError::AlreadyClaimed);
        }
        if !proof_valid {
            return Err(AirdropError::InvalidProof);
        }
        self.claimed.insert(user, true);
        Ok(amount)
    }

    /// Claim `amount` for `user` with `proof`, at time `now`. The leaf is
    /// that of `user_encoding` and `amount`, where `user_encoding` is the
    /// ledger encoding of `user`'s address: the host derives it from the
    /// address it authenticated, so the leaf is always the claimant's own.
    /// Returns the amount to pay.
    pub fn claim(
        &mut self,
        user: Address,
        user_encoding: &[u8],
        amount: i128,
        proof: &Vec<Vec<u8>>,
        now: u64,
    ) -> (r: Result<i128, AirdropError>)
        requires
            old(self).admin is Some,
        ensures
            r == (match old(self).spec_precheck(user, now) {
                Some(e) => Err(e),
                None => if merkle_fold(spec_leaf(user_encoding@, amount), proof_view(proof@)) != old(self).merkle_root@ {
                    Err(AirdropError::InvalidProof)
                } else {
                    Ok(amount)
                },
            }),
            r is Err ==> *final(self) == *old(self),
            r is Ok ==> *final(self) == (AirdropManager { claimed: final(self).claimed, ..*old(self) })
                && final(self).claimed@ == old(self).claimed@.insert(user, true),
    {
        let leaf = compute_leaf(user_encoding, amount);
        let valid = verify(proof, &self.merkle_root, &leaf);
        self.claim_verified(user, amount, valid, now)
    }

    fn assert_admin(&self, caller: Address) -> (r: Result<(), AirdropError>)
        requires
            self.admin is Some,
        ensures
            r == (if self.admin == Some(caller) { Ok(()) } else { Err(AirdropError::Unauthorized) }),
    {
        match self.admin {
            Some(a) => if a == caller { Ok(()) } else { Err(AirdropError::Unauthorized) },
            None => Err(AirdropError::Unauthorized),
        }
    }

    pub fn set_merkle_root(&mut self, caller: Address, new_root: Vec<u8>) -> (r: Result<(), AirdropError>)
        requires
            old(self).admin is Some,
        ensures
            r == (if old(self).admin == Some(caller) { Ok(()) } else { Err(AirdropError::Unauthorized) }),
            r is Err ==> *final(self) == *old(self),
            r is Ok ==> *final(self) == (AirdropManager { merkle_root: new_root, ..*old(self) }),
    {
        self.assert_admin(caller)?;
        self.merkle_root = new_root;
        Ok(())
    }

    pub fn set_blacklist(&mut self, caller: Address, user: Address, blacklisted: bool) -> (r: Result<(), AirdropError>)
        requires
            old(self).admin is Some,
        ensures
            r == (if old(self).admin == Some(caller) { Ok(()) } else { Err(AirdropError::Unauthorized) }),
            r is Err ==> *final(self) == *old(self),
            r is Ok ==> *final(self) == (AirdropManager { blacklist: final(self).blacklist, ..*old(self) })
                && final(self).blacklist@ == old(self).blacklist@.insert(user, blacklisted),
    {
        self.assert_admin(caller)?;
        self.blacklist.insert(user, blacklisted);
        Ok(())
    }

    pub fn set_verified(&mut self, caller: Address, user: Address, verified: bool) -> (r: Result<(), AirdropError>)
        requires
            old(self).admin is Some,
        ensures
            r == (if old(self).admin == Some(caller) { Ok(()) } else { Err(AirdropError::Unauthorized) }),
            r is Err ==> *final(self) == *old(self),
            r is Ok ==> *final(self) == (AirdropManager { verified: final(self).verified, ..*old(self) })
                && final(self).verified@ == old(self).verified@.insert(user, verified),
    {
        self.assert_admin(caller)?;
        self.verified.insert(user, verified);
        Ok(())
    }

    pub fn set_require_verification(&mut self, caller: Address, required: bool) -> (r: Result<(), AirdropError>)
        requires
            old(self).admin is Some,
        ensures
            r == (if old(self).admin == Some(caller) { Ok(()) } else { Err(AirdropError::Unauthorized) }),
            r is Err ==> *final(self) == *old(self),
            r is Ok ==> *final(self) == (AirdropManager { require_verification: required, ..*old(self) }),
    {
        self.assert_admin(caller)?;
        self.require_verification = required;
        Ok(())
    }

    /// After the deadline, the admin sweeps what is left: given the
    /// contract's token balance, returns the amount to send to the recipient
    /// (nothing when the balance is not positive).
    pub fn withdraw_remaining(&self, caller: Address, now: u64, balance: i128) -> (r: Result<i128, AirdropError>)
        requires
            self.admin is Some,
        ensures
            r == (if self.admin != Some(caller) {
                Err(AirdropError::Unauthorized)
            } else if now <= self.deadline {
                Err(AirdropError::DeadlineNotReached)
            } else if balance > 0 {
                Ok(balance)
            } else {
                Ok(0i128)
            }),
    {
        self.assert_admin(caller)?;
        if now <= self.deadline {
            return Err(AirdropError::DeadlineNotReached);
        }
        if balance > 0 {
            Ok(balance)
        } else {
            Ok(0)
        }
    }
}

/// Each user claims at most once: after a claim is recorded, every further
/// claim by the same user is refused before its proof is looked at.
pub proof fn lemma_claim_once(c: AirdropManager, user: Address, now: u64)
    requires
        map_get_or(c.claimed@, user, false),
    ensures
        c.spec_precheck(user, now) is Some,
{
}

} // verus!
