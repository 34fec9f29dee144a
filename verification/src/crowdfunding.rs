//! Crowdfunding campaigns with milestones: backers contribute before the
//! deadline; the campaign's milestones are then approved one at a time by
//! the backers' contribution-weighted votes (see `milestone_release`).
use std::collections::HashMap;
use vstd::prelude::*;
use crate::common::{Address, get_or, map_get_or, pair_key, spec_pair_key};

verus! {

broadcast use vstd::std_specs::hash::group_hash_axioms;

/// A stage of a campaign that backers approve before the next one.
#[derive(Debug)]
pub struct Milestone {
    pub description: String,
    pub amount: i128,
    pub approved: bool,
    /// Contributions of the backers who voted for it.
    pub votes_for: i128,
    /// Contributions of the backers who voted against it.
    pub votes_against: i128,
}

/// A campaign record.
#[derive(Debug)]
pub struct Campaign {
    pub id: u64,
    pub creator: Address,
    pub goal: i128,
    pub deadline: u64,
    pub total_funded: i128,
    pub milestones: Vec<Milestone>,
    /// The milestone now up for approval.
    pub current_milestone_index: u32,
    pub completed: bool,
    pub refunded: bool,
}

/// Why a crowdfunding call is refused.
#[derive(Copy, Clone, Debug, PartialEq, Eq, Structural)]
pub enum CrowdfundingError {
    CampaignNotFound,
    DeadlinePassed,
    CampaignInactive,
    /// Only backers may vote.
    NotBacker,
    AllMilestonesCompleted,
    MilestoneAlreadyApproved,
    /// The current milestone lacks the backers' majority.
    MilestoneNotApproved,
    NotEligibleForRefund,
    NoContribution,
}

/// Storage of the campaigns.
pub struct CrowdfundingStore {
    pub campaign_count: u64,
    pub campaigns: HashMap<u64, Campaign>,
    /// Contribution per `(campaign_id, contributor)`, keyed by `pair_key`.
    pub contributions: HashMap<u128, i128>,
}

impl CrowdfundingStore {
    pub open spec fn contribution(&self, campaign_id: u64, contributor: Address) -> i128 {
        map_get_or(self.contributions@, spec_pair_key(campaign_id, contributor), 0i128)
    }

    /// Fresh storage without campaigns.
    pub fn new() -> (s: Self)
        ensures
            s.campaign_count == 0,
            s.campaigns@ == Map::<u64, Campaign>::empty(),
            s.contributions@ == Map::<u128, i128>::empty(),
    {
        CrowdfundingStore { campaign_count: 0, campaigns: HashMap::new(), contributions: HashMap::new() }
    }
}

/// Create a campaign; returns its id, one more than the last.
pub fn create_campaign(store: &mut CrowdfundingStore, creator: Address, goal: i128, deadline: u64, milestones: Vec<Milestone>) -> (id: u64)
    requires
        old(store).campaign_count < u64::MAX,
    ensures
        id == old(store).campaign_count + 1,
        final(store).campaign_count == id,
        final(store).contributions == old(store).contributions,
        final(store).campaigns@ == old(store).campaigns@.insert(id, Campaign {
            id,
            creator,
            goal,
            deadline,
            total_funded: 0,
            milestones,
            current_milestone_index: 0,
            completed: false,
            refunded: false,
        }),
{
    let count = store.campaign_count + 1;
    store.campaigns.insert(count, Campaign {
        id: count,
        creator,
        goal,
        deadline,
        total_funded: 0,
        milestones,
        current_milestone_index: 0,
        completed: false,
        refunded: false,
    });
    store.campaign_count = count;
    count
}

/// `contributor` backs campaign `campaign_id` with `amount` at time `now`.
pub fn contribute(store: &mut CrowdfundingStore, contributor: Address, campaign_id: u64, amount: i128, now: u64) -> (r: Result<(), CrowdfundingError>)
    requires
        old(store).campaigns@.contains_key(campaign_id) && now <= old(store).campaigns@[campaign_id].deadline
            && !old(store).campaigns@[campaign_id].completed && !old(store).campaigns@[campaign_id].refunded ==> {
            &&& i128::MIN <= old(store).contribution(campaign_id, contributor) + amount <= i128::MAX
            &&& i128::MIN <= old(store).campaigns@[campaign_id].total_funded + amount <= i128::MAX
        },
    ensures
        r == (if !old(store).campaigns@.contains_key(campaign_id) {
            Err(CrowdfundingError::CampaignNotFound)
        } else if now > old(store).campaigns@[campaign_id].deadline {
            Err(CrowdfundingError::DeadlinePassed)
        } else if old(store).campaigns@[campaign_id].completed || old(store).campaigns@[campaign_id].refunded {
            Err(CrowdfundingError::CampaignInactive)
        } else {
            Ok(())
        }),
        r is Err ==> *final(store) == *old(store),
        r is Ok ==> {
            let c = old(store).campaigns@[campaign_id];
            &&& final(store).campaign_count == old(store).campaign_count
            &&& final(store).contributions@ == old(store).contributions@.insert(
                spec_pair_key(campaign_id, contributor), (old(store).contribution(campaign_id, contributor) + amount) as i128)
            &&& final(store).campaigns@ == old(store).campaigns@.insert(campaign_id, Campaign {
                total_funded: (c.total_funded + amount) as i128, ..c })
        },
{
    let (deadline, active) = match store.campaigns.get(&campaign_id) {
        Some(c) => (c.deadline, !(c.completed || c.refunded)),
        None => return Err(CrowdfundingError::CampaignNotFound),
    };
    if now > deadline {
        return Err(CrowdfundingError::DeadlinePassed);
    }
    if !active {
        return Err(CrowdfundingError::CampaignInactive);
    }
    let key = pair_key(campaign_id, contributor);
    let current = get_or(&store.contributions, &key, 0i128);
    store.contributions.insert(key, current + amount);
    let campaign = match store.campaigns.remove(&campaign_id) {
        Some(c) => c,
        None => return Err(CrowdfundingError::CampaignNotFound),
    };
    let total = campaign.total_funded + amount;
    store.campaigns.insert(campaign_id, Campaign { total_funded: total, ..campaign });
    Ok(())
}

} // verus!
