//! Proposal lifecycle (create, vote, finalise, execute) with quadratic
//! voting: a vote spending `c` credits weighs `isqrt(c)`.
use std::collections::HashMap;
use vstd::prelude::*;
use crate::common::{Address, get_or, map_get_or, pair_key, spec_pair_key};
use crate::security_primitives::{is_isqrt, isqrt, lemma_isqrt_of_square};

verus! {

broadcast use vstd::std_specs::hash::group_hash_axioms;

#[derive(Copy, Clone, Debug, PartialEq, Eq, Structural)]
pub enum ProposalStatus {
    Active,
    Passed,
    Failed,
    Executed,
}

/// Parameters for a treasury token transfer action.
#[derive(Copy, Clone, Debug, PartialEq, Eq, Structural)]
pub struct TransferTokenParams {
    pub token: Address,
    pub recipient: Address,
    pub amount: i128,
}

/// A structured action that executes when a proposal passes.
#[derive(Copy, Clone, Debug, PartialEq, Eq, Structural)]
pub enum ExecutableAction {
    /// Transfer `amount` of `token` to `recipient` from the treasury.
    TransferToken(TransferTokenParams),
    /// No operation: the proposal records intent only.
    NoOp,
}

#[derive(Debug)]
pub struct GovernanceProposal {
    pub id: u64,
    pub creator: Address,
    pub title: String,
    pub description: String,
    /// Voting closes after this timestamp.
    pub deadline: u64,
    /// Timestamp captured at creation.
    pub snapshot_timestamp: u64,
    pub status: ProposalStatus,
    /// Cumulative quadratic vote weight in favour.
    pub for_votes: i128,
    /// Cumulative quadratic vote weight against.
    pub against_votes: i128,
    /// Total raw credits spent across all voters.
    pub total_credits_spent: i128,
    pub action: ExecutableAction,
}

/// Two proposals hold the same values.
pub open spec fn same_proposal(a: GovernanceProposal, b: GovernanceProposal) -> bool {
    &&& a.id == b.id && a.creator == b.creator && a.title@ == b.title@ && a.description@ == b.description@
    &&& a.deadline == b.deadline && a.snapshot_timestamp == b.snapshot_timestamp && a.status == b.status
    &&& a.for_votes == b.for_votes && a.against_votes == b.against_votes
    &&& a.total_credits_spent == b.total_credits_spent && a.action == b.action
}

/// Per-vote record that prevents double voting.
#[derive(Copy, Clone, Debug, PartialEq, Eq, Structural)]
pub struct VoteRecord {
    pub voter: Address,
    pub credits_spent: i128,
    /// Quadratic weight contributed.
    pub vote_weight: i128,
    /// `true` = for, `false` = against.
    pub support: bool,
}

#[derive(Copy, Clone, Debug, PartialEq, Eq, Structural)]
pub enum GovernanceError {
    AlreadyInitialized,
    NotInitialized,
    Unauthorized,
    ProposalNotFound,
    ProposalNotActive,
    VotingClosed,
    AlreadyVoted,
    InsufficientCredits,
    ProposalNotPassed,
    AlreadyExecuted,
    InvalidAmount,
    VotingStillOpen,
}

/// Minimum credits a caller must hold to create a proposal.
pub const DEFAULT_PROPOSAL_THRESHOLD: i128 = 100;
/// Default voting window: 7 days in seconds.
pub const DEFAULT_VOTING_PERIOD: u64 = 604_800;

/// Storage of the governance contract.
pub struct GovernanceContract {
    pub admin: Option<Address>,
    pub gov_token: Address,
    pub next_proposal_id: u64,
    pub proposals: HashMap<u64, GovernanceProposal>,
    /// Vote records keyed by `pair_key(proposal_id, voter)`.
    pub votes: HashMap<u128, VoteRecord>,
    /// Remaining governance credits of each voter.
    pub credits: HashMap<Address, i128>,
    pub proposal_threshold: i128,
    pub voting_period: u64,
}

impl GovernanceContract {
    pub open spec fn credits_of(&self, a: Address) -> i128 {
        map_get_or(self.credits@, a, 0i128)
    }

    /// Why a vote is refused, if it is.
    pub open spec fn vote_refusal(&self, voter: Address, proposal_id: u64, credits_to_spend: i128, now: u64) -> Option<GovernanceError> {
        if credits_to_spend <= 0 {
            Some(GovernanceError::InvalidAmount)
        } else if !self.proposals@.contains_key(proposal_id) {
            Some(GovernanceError::ProposalNotFound)
        } else if self.proposals@[proposal_id].status != ProposalStatus::Active {
            Some(GovernanceError::ProposalNotActive)
        } else if now > self.proposals@[proposal_id].deadline {
            Some(GovernanceError::VotingClosed)
        } else if self.votes@.contains_key(spec_pair_key(proposal_id, voter)) {
            Some(GovernanceError::AlreadyVoted)
        } else if self.credits_of(voter) < credits_to_spend {
            Some(GovernanceError::InsufficientCredits)
        } else {
            None
        }
    }

    /// Everything but the proposals, votes and credits is unchanged.
    pub open spec fn same_settings(&self, o: &Self) -> bool {
        &&& self.admin == o.admin && self.gov_token == o.gov_token
        &&& self.proposal_threshold == o.proposal_threshold && self.voting_period == o.voting_period
    }

    /// Fresh, uninitialised storage.
    pub fn new() -> (c: Self)
        ensures
            c.admin is None,
            c.next_proposal_id == 0,
            c.proposals@ == Map::<u64, GovernanceProposal>::empty(),
            c.votes@ == Map::<u128, VoteRecord>::empty(),
            c.credits@ == Map::<Address, i128>::empty(),
            c.proposal_threshold == DEFAULT_PROPOSAL_THRESHOLD,
            c.voting_period == DEFAULT_VOTING_PERIOD,
    {
        GovernanceContract {
            admin: None,
            gov_token: 0,
            next_proposal_id: 0,
            proposals: HashMap::new(),
            votes: HashMap::new(),
            credits: HashMap::new(),
            proposal_threshold: DEFAULT_PROPOSAL_THRESHOLD,
            voting_period: DEFAULT_VOTING_PERIOD,
        }
    }

    pub fn initialize(&mut self, admin: Address, gov_token: Address) -> (r: Result<(), GovernanceError>)
        ensures
            r == (if old(self).admin is Some { Err::<(), GovernanceError>(GovernanceError::AlreadyInitialized) } else { Ok(()) }),
            r is Err ==> *final(self) == *old(self),
            r is Ok ==> *final(self) == (GovernanceContract {
                admin: Some(admin),
                gov_token,
                next_proposal_id: 0,
                proposal_threshold: DEFAULT_PROPOSAL_THRESHOLD,
                voting_period: DEFAULT_VOTING_PERIOD,
                ..*old(self)
            }),
    {
        if self.admin.is_some() {
            return Err(GovernanceError::AlreadyInitialized);
        }
        self.admin = Some(admin);
        self.gov_token = gov_token;
        self.next_proposal_id = 0;
        self.proposal_threshold = DEFAULT_PROPOSAL_THRESHOLD;
        self.voting_period = DEFAULT_VOTING_PERIOD;
        Ok(())
    }

    /// Record `amount` governance tokens deposited by `depositor` as credits.
    pub fn deposit_credits(&mut self, depositor: Address, amount: i128) -> (r: Result<(), GovernanceError>)
        requires
            amount > 0 ==> old(self).credits_of(depositor) + amount <= i128::MAX,
        ensures
            r == (if amount <= 0 {
                Err(GovernanceError::InvalidAmount)
            } else if old(self).admin is None {
                Err(GovernanceError::NotInitialized)
            } else {
                Ok(())
            }),
            r is Err ==> *final(self) == *old(self),
            r is Ok ==> *final(self) == (GovernanceContract { credits: final(self).credits, ..*old(self) })
                && final(self).credits@ == old(self).credits@.insert(
                    depositor, (old(self).credits_of(depositor) + amount) as i128),
    {
        if amount <= 0 {
            return Err(GovernanceError::InvalidAmount);
        }
        if self.admin.is_none() {
            return Err(GovernanceError::NotInitialized);
        }
        let prev = get_or(&self.credits, &depositor, 0i128);
        self.credits.insert(depositor, prev + amount);
        Ok(())
    }

    pub fn get_credits(&self, voter: Address) -> (r: i128)
        ensures
            r == self.credits_of(voter),
    {
        get_or(&self.credits, &voter, 0i128)
    }

    /// Create a proposal at time `now`; the creator must hold at least the
    /// threshold in credits (which are not spent). Returns its id.
    pub fn create_proposal(
        &mut self,
        creator: Address,
        title: String,
        description: String,
        action: ExecutableAction,
        now: u64,
    ) -> (r: Result<u64, GovernanceError>)
        requires
            old(self).next_proposal_id < u64::MAX,
            now + old(self).voting_period <= u64::MAX,
        ensures
            r == (if old(self).admin is None {
                Err(GovernanceError::NotInitialized)
            } else if old(self).credits_of(creator) < old(self).proposal_threshold {
                Err(GovernanceError::InsufficientCredits)
            } else {
                Ok(old(self).next_proposal_id)
            }),
            r is Err ==> *final(self) == *old(self),
            r matches Ok(id) ==> {
                &&& *final(self) == (GovernanceContract {
                    next_proposal_id: (id + 1) as u64, proposals: final(self).proposals, ..*old(self) })
                &&& final(self).proposals@ == old(self).proposals@.insert(id, GovernanceProposal {
                    id,
                    creator,
                    title,
                    description,
                    deadline: (now + old(self).voting_period) as u64,
                    snapshot_timestamp: now,
                    status: ProposalStatus::Active,
                    for_votes: 0,
                    against_votes: 0,
                    total_credits_spent: 0,
                    action,
                })
            },
    {
        if self.admin.is_none() {
            return Err(GovernanceError::NotInitialized);
        }
        let credits = get_or(&self.credits, &creator, 0i128);
        if credits < self.proposal_threshold {
            return Err(GovernanceError::InsufficientCredits);
        }
        let id = self.next_proposal_id;
        self.next_proposal_id = id + 1;
        let proposal = GovernanceProposal {
            id,
            creator,
            title,
            description,
            deadline: now + self.voting_period,
            snapshot_timestamp: now,
            status: ProposalStatus::Active,
            for_votes: 0,
            against_votes: 0,
            total_credits_spent: 0,
            action,
        };
        self.proposals.insert(id, proposal);
        Ok(id)
    }

    /// Cast a quadratic vote at time `now`: `credits_to_spend` credits are
    /// deducted and the vote weighs their integer square root.
    pub fn cast_vote(
        &mut self,
        voter: Address,
        proposal_id: u64,
        credits_to_spend: i128,
        support: bool,
        now: u64,
    ) -> (r: Result<(), GovernanceError>)
        requires
            old(self).vote_refusal(voter, proposal_id, credits_to_spend, now) is None ==> {
                let p = old(self).proposals@[proposal_id];
                &&& forall|w: int| #[trigger] is_isqrt(credits_to_spend as int, w) ==> if support {
                    p.for_votes + w <= i128::MAX
                } else {
                    p.against_votes + w <= i128::MAX
                }
                &&& p.total_credits_spent + credits_to_spend <= i128::MAX
            },
        ensures
            r == (match old(self).vote_refusal(voter, proposal_id, credits_to_spend, now) {
                Some(e) => Err(e),
                None => Ok(()),
            }),
            r is Err ==> *final(self) == *old(self),
            r is Ok ==> {
                let key = spec_pair_key(proposal_id, voter);
                let rec = final(self).votes@[key];
                let p = old(self).proposals@[proposal_id];
                let q = final(self).proposals@[proposal_id];
                &&& final(self).votes@ == old(self).votes@.insert(key, rec)
                &&& rec.voter == voter && rec.credits_spent == credits_to_spend && rec.support == support
                &&& is_isqrt(credits_to_spend as int, rec.vote_weight as int)
                &&& final(self).credits@ == old(self).credits@.insert(
                    voter, (old(self).credits_of(voter) - credits_to_spend) as i128)
                &&& final(self).proposals@.dom() == old(self).proposals@.dom()
                &&& forall|id: u64| id != proposal_id && #[trigger] old(self).proposals@.contains_key(id)
                    ==> final(self).proposals@[id] == old(self).proposals@[id]
                &&& same_proposal(q, GovernanceProposal {
                    for_votes: if support { (p.for_votes + rec.vote_weight) as i128 } else { p.for_votes },
                    against_votes: if support { p.against_votes } else { (p.against_votes + rec.vote_weight) as i128 },
                    total_credits_spent: (p.total_credits_spent + credits_to_spend) as i128,
                    ..p
                })
                &&& final(self).same_settings(old(self))
                &&& final(self).next_proposal_id == old(self).next_proposal_id
            },
    {
        if credits_to_spend <= 0 {
            return Err(GovernanceError::InvalidAmount);
        }
        let (status, deadline) = match self.proposals.get(&proposal_id) {
            Some(p) => (p.status, p.deadline),
            None => return Err(GovernanceError::ProposalNotFound),
        };
        if status != ProposalStatus::Active {
            return Err(GovernanceError::ProposalNotActive);
        }
        if now > deadline {
            return Err(GovernanceError::VotingClosed);
        }
        let vote_key = pair_key(proposal_id, voter);
        if self.votes.contains_key(&vote_key) {
            return Err(GovernanceError::AlreadyVoted);
        }
        let credits = get_or(&self.credits, &voter, 0i128);
        if credits < credits_to_spend {
            return Err(GovernanceError::InsufficientCredits);
        }
        self.credits.insert(voter, credits - credits_to_spend);
        let w = isqrt(credits_to_spend as u128);
        assert(w <= 0x1_0000_0000_0000_0000) by (nonlinear_arith)
            requires
                w * w <= credits_to_spend,
                credits_to_spend <= i128::MAX,
        ;
        let vote_weight = w as i128;
        assert(old(self).vote_refusal(voter, proposal_id, credits_to_spend, now) is None);
        assert(is_isqrt(credits_to_spend as int, w as int));
        let mut proposal = self.proposals.remove(&proposal_id).unwrap();
        if support {
            proposal.for_votes = proposal.for_votes + vote_weight;
        } else {
            proposal.against_votes = proposal.against_votes + vote_weight;
        }
        proposal.total_credits_spent = proposal.total_credits_spent + credits_to_spend;
        self.proposals.insert(proposal_id, proposal);
        let record = VoteRecord { voter, credits_spent: credits_to_spend, vote_weight, support };
        self.votes.insert(vote_key, record);
        proof {
            assert(self.proposals@.dom() =~= old(self).proposals@.dom());
        }
        Ok(())
    }

    /// Close voting on a proposal whose deadline passed (at time `now`):
    /// it passes when more weight is for than against.
    pub fn finalize_proposal(&mut self, proposal_id: u64, now: u64) -> (r: Result<(), GovernanceError>)
        ensures
            r == (if !old(self).proposals@.contains_key(proposal_id) {
                Err(GovernanceError::ProposalNotFound)
            } else if old(self).proposals@[proposal_id].status != ProposalStatus::Active {
                Err(GovernanceError::ProposalNotActive)
            } else if now <= old(self).proposals@[proposal_id].deadline {
                Err(GovernanceError::VotingStillOpen)
            } else {
                Ok(())
            }),
            r is Err ==> *final(self) == *old(self),
            r is Ok ==> {
                let p = old(self).proposals@[proposal_id];
                &&& *final(self) == (GovernanceContract { proposals: final(self).proposals, ..*old(self) })
                &&& final(self).proposals@.dom() == old(self).proposals@.dom()
                &&& forall|id: u64| id != proposal_id && #[trigger] old(self).proposals@.contains_key(id)
                    ==> final(self).proposals@[id] == old(self).proposals@[id]
                &&& same_proposal(final(self).proposals@[proposal_id], GovernanceProposal {
                    status: if p.for_votes > p.against_votes { ProposalStatus::Passed } else { ProposalStatus::Failed },
                    ..p
                })
            },
    {
        let (status, deadline) = match self.proposals.get(&proposal_id) {
            Some(p) => (p.status, p.deadline),
            None => return Err(GovernanceError::ProposalNotFound),
        };
        if status != ProposalStatus::Active {
            return Err(GovernanceError::ProposalNotActive);
        }
        if now <= deadline {
            return Err(GovernanceError::VotingStillOpen);
        }
        let mut proposal = self.proposals.remove(&proposal_id).unwrap();
        proposal.status = if proposal.for_votes > proposal.against_votes {
            ProposalStatus::Passed
        } else {
            ProposalStatus::Failed
        };
        self.proposals.insert(proposal_id, proposal);
        proof {
            assert(self.proposals@.dom() =~= old(self).proposals@.dom());
        }
        Ok(())
    }

    /// Mark a passed proposal executed and hand back its action to dispatch.
    pub fn execute_proposal(&mut self, proposal_id: u64) -> (r: Result<ExecutableAction, GovernanceError>)
        ensures
            r == (if !old(self).proposals@.contains_key(proposal_id) {
                Err(GovernanceError::ProposalNotFound)
            } else if old(self).proposals@[proposal_id].status != ProposalStatus::Passed {
                Err(GovernanceError::ProposalNotPassed)
            } else {
                Ok(old(self).proposals@[proposal_id].action)
            }),
            r is Err ==> *final(self) == *old(self),
            r is Ok ==> {
                let p = old(self).proposals@[proposal_id];
                &&& *final(self) == (GovernanceContract { proposals: final(self).proposals, ..*old(self) })
                &&& final(self).proposals@.dom() == old(self).proposals@.dom()
                &&& forall|id: u64| id != proposal_id && #[trigger] old(self).proposals@.contains_key(id)
                    ==> final(self).proposals@[id] == old(self).proposals@[id]
                &&& same_proposal(final(self).proposals@[proposal_id], GovernanceProposal {
                    status: ProposalStatus::Executed, ..p })
            },
    {
        let status = match self.proposals.get(&proposal_id) {
            Some(p) => p.status,
            None => return Err(GovernanceError::ProposalNotFound),
        };
        if status != ProposalStatus::Passed {
            return Err(GovernanceError::ProposalNotPassed);
        }
        let mut proposal = self.proposals.remove(&proposal_id).unwrap();
        proposal.status = ProposalStatus::Executed;
        let action = proposal.action;
        self.proposals.insert(proposal_id, proposal);
        proof {
            assert(self.proposals@.dom() =~= old(self).proposals@.dom());
        }
        Ok(action)
    }

    pub fn get_proposal(&self, proposal_id: u64) -> (r: Result<GovernanceProposal, GovernanceError>)
        ensures
            r is Err <==> !self.proposals@.contains_key(proposal_id),
            r is Err ==> r == Err::<GovernanceProposal, GovernanceError>(GovernanceError::ProposalNotFound),
            r matches Ok(p) ==> same_proposal(p, self.proposals@[proposal_id]),
    {
        match self.proposals.get(&proposal_id) {
            Some(p) => Ok(GovernanceProposal {
                id: p.id,
                creator: p.creator,
                title: p.title.clone(),
                description: p.description.clone(),
                deadline: p.deadline,
                snapshot_timestamp: p.snapshot_timestamp,
                status: p.status,
                for_votes: p.for_votes,
                against_votes: p.against_votes,
                total_credits_spent: p.total_credits_spent,
                action: p.action,
            }),
            None => Err(GovernanceError::ProposalNotFound),
        }
    }

    pub fn get_vote(&self, proposal_id: u64, voter: Address) -> (r: Result<VoteRecord, GovernanceError>)
        ensures
            r == (if self.votes@.contains_key(spec_pair_key(proposal_id, voter)) {
                Ok(self.votes@[spec_pair_key(proposal_id, voter)])
            } else {
                Err(GovernanceError::ProposalNotFound)
            }),
    {
        match self.votes.get(&pair_key(proposal_id, voter)) {
            Some(v) => Ok(*v),
            None => Err(GovernanceError::ProposalNotFound),
        }
    }

    fn assert_admin(&self, caller: Address) -> (r: Result<(), GovernanceError>)
        ensures
            r == (match self.admin {
                None => Err(GovernanceError::NotInitialized),
                Some(a) => if a == caller { Ok(()) } else { Err(GovernanceError::Unauthorized) },
            }),
    {
        match self.admin {
            None => Err(GovernanceError::NotInitialized),
            Some(a) => if a == caller { Ok(()) } else { Err(GovernanceError::Unauthorized) },
        }
    }

    pub fn set_proposal_threshold(&mut self, caller: Address, threshold: i128) -> (r: Result<(), GovernanceError>)
        ensures
            r == (match old(self).admin {
                None => Err(GovernanceError::NotInitialized),
                Some(a) => if a == caller { Ok(()) } else { Err(GovernanceError::Unauthorized) },
            }),
            r is Err ==> *final(self) == *old(self),
            r is Ok ==> *final(self) == (GovernanceContract { proposal_threshold: threshold, ..*old(self) }),
    {
        self.assert_admin(caller)?;
        self.proposal_threshold = threshold;
        Ok(())
    }

    pub fn set_voting_period(&mut self, caller: Address, period_secs: u64) -> (r: Result<(), GovernanceError>)
        ensures
            r == (match old(self).admin {
                None => Err(GovernanceError::NotInitialized),
                Some(a) => if a == caller { Ok(()) } else { Err(GovernanceError::Unauthorized) },
            }),
            r is Err ==> *final(self) == *old(self),
            r is Ok ==> *final(self) == (GovernanceContract { voting_period: period_secs, ..*old(self) }),
    {
        self.assert_admin(caller)?;
        self.voting_period = period_secs;
        Ok(())
    }
}

/// A voter votes at most once per proposal: once a vote is recorded, every
/// further vote of the same voter on that proposal is refused.
pub proof fn lemma_vote_once(c: GovernanceContract, voter: Address, proposal_id: u64, credits_to_spend: i128, now: u64)
    requires
        c.votes@.contains_key(spec_pair_key(proposal_id, voter)),
    ensures
        c.vote_refusal(voter, proposal_id, credits_to_spend, now) is Some,
{
}

/// Quadratic voting: spending `k * k` credits gives a vote weight of
/// exactly `k`.
pub proof fn lemma_quadratic_weight(k: int, weight: int)
    requires
        k >= 0,
        is_isqrt(k * k, weight),
    ensures
        weight == k,
{
    lemma_isqrt_of_square(k, weight);
}

} // verus!
