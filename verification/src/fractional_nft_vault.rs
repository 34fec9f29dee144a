//! A vault that splits one NFT into shares: holders trade shares, vote by
//! share weight on a buyout offer, and after an approved buyout each holder
//! claims the offer pro rata to their shares, once.
use std::collections::HashMap;
use vstd::prelude::*;
use crate::common::{Address, get_or, map_get_or};
use crate::security_primitives::{fits_i128, lemma_trunc_div_fits, spec_trunc_div};

verus! {

broadcast use vstd::std_specs::hash::group_hash_axioms;

/// A buyout offer under vote.
#[derive(Copy, Clone, Debug, PartialEq, Eq, Structural)]
pub struct BuyoutProposal {
    pub proposer: Address,
    pub offer_amount: i128,
    pub voting_deadline: u64,
    pub yes_votes: i128,
    pub no_votes: i128,
}

#[derive(Copy, Clone, Debug, PartialEq, Eq, Structural)]
pub enum VaultError {
    AlreadyInitialized,
    NotInitialized,
    Unauthorized,
    InvalidAmount,
    ProposalMissing,
    ProposalActive,
    AlreadyVoted,
    BuyoutNotApproved,
    AlreadyFinalized,
    AlreadyClaimed,
    NoShares,
}

/// Storage of the vault.
pub struct FractionalNftVaultContract {
    pub admin: Option<Address>,
    pub nft_contract: Option<Address>,
    pub token_id: Option<[u8; 32]>,
    pub total_shares: i128,
    pub shares: HashMap<Address, i128>,
    pub proposal: Option<BuyoutProposal>,
    /// Holders who voted on a buyout.
    pub votes: HashMap<Address, bool>,
    /// The buyout amount to distribute.
    pub treasury: i128,
    pub finalized: bool,
    pub payout_claimed: HashMap<Address, bool>,
}

impl FractionalNftVaultContract {
    pub open spec fn share_of(&self, a: Address) -> i128 {
        map_get_or(self.shares@, a, 0i128)
    }

    /// Why a change to an open vault is refused, if it is.
    pub open spec fn open_refusal(&self) -> Option<VaultError> {
        if self.admin is None {
            Some(VaultError::NotInitialized)
        } else if self.finalized {
            Some(VaultError::AlreadyFinalized)
        } else {
            None
        }
    }

    /// Fresh, uninitialised storage.
    pub fn new() -> (c: Self)
        ensures
            c.admin is None && c.nft_contract is None && c.token_id is None && c.proposal is None,
            c.total_shares == 0 && c.treasury == 0 && !c.finalized,
            c.shares@ == Map::<Address, i128>::empty(),
            c.votes@ == Map::<Address, bool>::empty(),
            c.payout_claimed@ == Map::<Address, bool>::empty(),
    {
        FractionalNftVaultContract {
            admin: None,
            nft_contract: None,
            token_id: None,
            total_shares: 0,
            shares: HashMap::new(),
            proposal: None,
            votes: HashMap::new(),
            treasury: 0,
            finalized: false,
            payout_claimed: HashMap::new(),
        }
    }

    /// Record the admin and the NFT held; no shares yet.
    pub fn initialize(&mut self, admin: Address, nft_contract: Address, token_id: [u8; 32]) -> (r: Result<(), VaultError>)
        ensures
            r == (if old(self).admin is Some { Err(VaultError::AlreadyInitialized) } else { Ok(()) }),
            r is Err ==> *final(self) == *old(self),
            r is Ok ==> *final(self) == (FractionalNftVaultContract {
                admin: Some(admin),
                nft_contract: Some(nft_contract),
                token_id: Some(token_id),
                total_shares: 0,
                treasury: 0,
                finalized: false,
                ..*old(self)
            }),
    {
        if self.admin.is_some() {
            return Err(VaultError::AlreadyInitialized);
        }
        self.admin = Some(admin);
        self.nft_contract = Some(nft_contract);
        self.token_id = Some(token_id);
        self.total_shares = 0;
        self.treasury = 0;
        self.finalized = false;
        Ok(())
    }

    /// The admin splits the NFT into `total_shares` shares, all its own.
    pub fn fractionalize(&mut self, owner: Address, total_shares: i128) -> (r: Result<(), VaultError>)
        ensures
            r == (match old(self).open_refusal() {
                Some(e) => Err(e),
                None => if total_shares <= 0 {
                    Err(VaultError::InvalidAmount)
                } else if old(self).admin != Some(owner) {
                    Err(VaultError::Unauthorized)
                } else {
                    Ok(())
                },
            }),
            r is Err ==> *final(self) == *old(self),
            r is Ok ==> *final(self) == (FractionalNftVaultContract {
                total_shares,
                shares: final(self).shares,
                ..*old(self)
            }) && final(self).shares@ == old(self).shares@.insert(owner, total_shares),
    {
        if self.admin.is_none() {
            return Err(VaultError::NotInitialized);
        }
        if self.finalized {
            return Err(VaultError::AlreadyFinalized);
        }
        if total_shares <= 0 {
            return Err(VaultError::InvalidAmount);
        }
        if self.admin != Some(owner) {
            return Err(VaultError::Unauthorized);
        }
        self.total_shares = total_shares;
        self.shares.insert(owner, total_shares);
        Ok(())
    }

    /// Move `shares` from `from` to `to`. Both balances are read before
    /// either is written.
    pub fn transfer_shares(&mut self, from: Address, to: Address, shares: i128) -> (r: Result<(), VaultError>)
        requires
            old(self).open_refusal() is None && shares > 0 && old(self).share_of(from) >= shares
                ==> fits_i128(old(self).share_of(to) + shares),
        ensures
            r == (match old(self).open_refusal() {
                Some(e) => Err(e),
                None => if shares <= 0 {
                    Err(VaultError::InvalidAmount)
                } else if old(self).share_of(from) < shares {
                    Err(VaultError::NoShares)
                } else {
                    Ok(())
                },
            }),
            r is Err ==> *final(self) == *old(self),
            r is Ok ==> *final(self) == (FractionalNftVaultContract { shares: final(self).shares, ..*old(self) })
                && final(self).shares@ == old(self).shares@
                    .insert(from, (old(self).share_of(from) - shares) as i128)
                    .insert(to, (old(self).share_of(to) + shares) as i128),
    {
        if self.admin.is_none() {
            return Err(VaultError::NotInitialized);
        }
        if self.finalized {
            return Err(VaultError::AlreadyFinalized);
        }
        if shares <= 0 {
            return Err(VaultError::InvalidAmount);
        }
        let from_balance = get_or(&self.shares, &from, 0i128);
        if from_balance < shares {
            return Err(VaultError::NoShares);
        }
        let to_balance = get_or(&self.shares, &to, 0i128);
        self.shares.insert(from, from_balance - shares);
        self.shares.insert(to, to_balance + shares);
        Ok(())
    }

    /// Propose a buyout at time `now`, replacing any earlier proposal.
    pub fn propose_buyout(&mut self, proposer: Address, offer_amount: i128, voting_deadline: u64, now: u64) -> (r: Result<(), VaultError>)
        ensures
            r == (match old(self).open_refusal() {
                Some(e) => Err(e),
                None => if offer_amount <= 0 || voting_deadline <= now { Err(VaultError::InvalidAmount) } else { Ok(()) },
            }),
            r is Err ==> *final(self) == *old(self),
            r is Ok ==> *final(self) == (FractionalNftVaultContract {
                proposal: Some(BuyoutProposal { proposer, offer_amount, voting_deadline, yes_votes: 0, no_votes: 0 }),
                ..*old(self)
            }),
    {
        if self.admin.is_none() {
            return Err(VaultError::NotInitialized);
        }
        if self.finalized {
            return Err(VaultError::AlreadyFinalized);
        }
        if offer_amount <= 0 || voting_deadline <= now {
            return Err(VaultError::InvalidAmount);
        }
        self.proposal = Some(BuyoutProposal { proposer, offer_amount, voting_deadline, yes_votes: 0, no_votes: 0 });
        Ok(())
    }

    /// A holder votes at time `now` with the weight of their shares; each
    /// holder votes once.
    pub fn vote_buyout(&mut self, voter: Address, support: bool, now: u64) -> (r: Result<(), VaultError>)
        requires
            old(self).open_refusal() is None && !old(self).votes@.contains_key(voter) && old(self).proposal is Some
                && now <= old(self).proposal->0.voting_deadline && old(self).share_of(voter) > 0 ==> {
                &&& support ==> fits_i128(old(self).proposal->0.yes_votes + old(self).share_of(voter))
                &&& !support ==> fits_i128(old(self).proposal->0.no_votes + old(self).share_of(voter))
            },
        ensures
            r == (match old(self).open_refusal() {
                Some(e) => Err(e),
                None => if old(self).votes@.contains_key(voter) {
                    Err(VaultError::AlreadyVoted)
                } else {
                    match old(self).proposal {
                        None => Err(VaultError::ProposalMissing),
                        Some(p) => if now > p.voting_deadline {
                            Err(VaultError::ProposalActive)
                        } else if old(self).share_of(voter) <= 0 {
                            Err(VaultError::NoShares)
                        } else {
                            Ok(())
                        },
                    }
                },
            }),
            r is Err ==> *final(self) == *old(self),
            r is Ok ==> {
                let p = old(self).proposal->0;
                let w = old(self).share_of(voter);
                &&& *final(self) == (FractionalNftVaultContract {
                    proposal: Some(if support {
                        BuyoutProposal { yes_votes: (p.yes_votes + w) as i128, ..p }
                    } else {
                        BuyoutProposal { no_votes: (p.no_votes + w) as i128, ..p }
                    }),
                    votes: final(self).votes,
                    ..*old(self)
                })
                &&& final(self).votes@ == old(self).votes@.insert(voter, true)
            },
    {
        if self.admin.is_none() {
            return Err(VaultError::NotInitialized);
        }
        if self.finalized {
            return Err(VaultError::AlreadyFinalized);
        }
        if self.votes.contains_key(&voter) {
            return Err(VaultError::AlreadyVoted);
        }
        let p = match self.proposal {
            Some(p) => p,
            None => return Err(VaultError::ProposalMissing),
        };
        if now > p.voting_deadline {
            return Err(VaultError::ProposalActive);
        }
        let power = get_or(&self.shares, &voter, 0i128);
        if power <= 0 {
            return Err(VaultError::NoShares);
        }
        if support {
            self.proposal = Some(BuyoutProposal { yes_votes: p.yes_votes + power, ..p });
        } else {
            self.proposal = Some(BuyoutProposal { no_votes: p.no_votes + power, ..p });
        }
        self.votes.insert(voter, true);
        Ok(())
    }

    /// The admin closes the vote at time `now`: the buyout passes with more
    /// than half of all shares in favour and more votes for than against.
    pub fn finalize_buyout(&mut self, caller: Address, now: u64) -> (r: Result<(), VaultError>)
        requires
            old(self).open_refusal() is None && old(self).admin == Some(caller) && old(self).proposal is Some
                && now > old(self).proposal->0.voting_deadline ==> fits_i128(old(self).proposal->0.yes_votes * 2),
        ensures
            r == (match old(self).open_refusal() {
                Some(e) => Err(e),
                None => if old(self).admin != Some(caller) {
                    Err(VaultError::Unauthorized)
                } else {
                    match old(self).proposal {
                        None => Err(VaultError::ProposalMissing),
                        Some(p) => if now <= p.voting_deadline {
                            Err(VaultError::ProposalActive)
                        } else if p.yes_votes * 2 <= old(self).total_shares || p.yes_votes <= p.no_votes {
                            Err(VaultError::BuyoutNotApproved)
                        } else {
                            Ok(())
                        },
                    }
                },
            }),
            r is Err ==> *final(self) == *old(self),
            r is Ok ==> *final(self) == (FractionalNftVaultContract {
                treasury: old(self).proposal->0.offer_amount,
                finalized: true,
                ..*old(self)
            }),
    {
        if self.admin.is_none() {
            return Err(VaultError::NotInitialized);
        }
        if self.finalized {
            return Err(VaultError::AlreadyFinalized);
        }
        if self.admin != Some(caller) {
            return Err(VaultError::Unauthorized);
        }
        let p = match self.proposal {
            Some(p) => p,
            None => return Err(VaultError::ProposalMissing),
        };
        if now <= p.voting_deadline {
            return Err(VaultError::ProposalActive);
        }
        if p.yes_votes * 2 <= self.total_shares || p.yes_votes <= p.no_votes {
            return Err(VaultError::BuyoutNotApproved);
        }
        self.treasury = p.offer_amount;
        self.finalized = true;
        Ok(())
    }

    /// After an approved buyout a holder claims, once,
    /// `treasury * shares / total_shares`, truncated.
    pub fn claim_buyout_payout(&mut self, holder: Address) -> (r: Result<i128, VaultError>)
        requires
            old(self).finalized && old(self).share_of(holder) > 0 ==> {
                &&& old(self).total_shares != 0
                &&& fits_i128(old(self).treasury * old(self).share_of(holder))
                &&& !(old(self).treasury * old(self).share_of(holder) == i128::MIN && old(self).total_shares == -1)
            },
        ensures
            r == (if old(self).admin is None {
                Err(VaultError::NotInitialized)
            } else if !old(self).finalized {
                Err(VaultError::BuyoutNotApproved)
            } else if old(self).payout_claimed@.contains_key(holder) {
                Err(VaultError::AlreadyClaimed)
            } else if old(self).share_of(holder) <= 0 {
                Err(VaultError::NoShares)
            } else {
                Ok(spec_trunc_div(old(self).treasury * old(self).share_of(holder), old(self).total_shares as int) as i128)
            }),
            r is Err ==> *final(self) == *old(self),
            r is Ok ==> *final(self) == (FractionalNftVaultContract { payout_claimed: final(self).payout_claimed, ..*old(self) })
                && final(self).payout_claimed@ == old(self).payout_claimed@.insert(holder, true),
    {
        if self.admin.is_none() {
            return Err(VaultError::NotInitialized);
        }
        if !self.finalized {
            return Err(VaultError::BuyoutNotApproved);
        }
        if self.payout_claimed.contains_key(&holder) {
            return Err(VaultError::AlreadyClaimed);
        }
        let holder_shares = get_or(&self.shares, &holder, 0i128);
        if holder_shares <= 0 {
            return Err(VaultError::NoShares);
        }
        proof {
            lemma_trunc_div_fits(self.treasury * holder_shares, self.total_shares as int);
        }
        let payout = (self.treasury * holder_shares) / self.total_shares;
        self.payout_claimed.insert(holder, true);
        Ok(payout)
    }

    pub fn share_balance(&self, owner: Address) -> (r: i128)
        ensures
            r == self.share_of(owner),
    {
        get_or(&self.shares, &owner, 0i128)
    }

    pub fn proposal(&self) -> (r: Option<BuyoutProposal>)
        ensures
            r == self.proposal,
    {
        self.proposal
    }

    /// The share balances of `accounts`, in order.
    pub fn shareholders(&self, accounts: &Vec<Address>) -> (r: Vec<(Address, i128)>)
        ensures
            r@.len() == accounts@.len(),
            forall|i: int| 0 <= i < accounts@.len() ==> #[trigger] r@[i] == (accounts@[i], self.share_of(accounts@[i])),
    {
        let mut out: Vec<(Address, i128)> = Vec::new();
        let mut i: usize = 0;
        while i < accounts.len()
            invariant
                0 <= i <= accounts.len(),
                out@.len() == i,
                forall|j: int| 0 <= j < i ==> #[trigger] out@[j] == (accounts@[j], self.share_of(accounts@[j])),
            decreases accounts.len() - i,
        {
            let a = accounts[i];
            out.push((a, get_or(&self.shares, &a, 0i128)));
            i = i + 1;
        }
        out
    }
}

} // verus!
