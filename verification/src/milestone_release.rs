//! Milestone approval of crowdfunding campaigns: backers vote on the current
//! milestone with the weight of their contribution; it is approved once the
//! votes for it exceed half of what the campaign raised; a failed campaign
//! refunds its backers.
use vstd::prelude::*;
use crate::common::{Address, get_or, pair_key, spec_pair_key};
use crate::crowdfunding::{Campaign, CrowdfundingError, CrowdfundingStore, Milestone};
use crate::security_primitives::spec_trunc_div;

verus! {

broadcast use vstd::std_specs::hash::group_hash_axioms;

/// Why the current milestone of campaign `c` cannot be worked on, if so.
pub open spec fn current_milestone_refusal(store: CrowdfundingStore, campaign_id: u64) -> Option<CrowdfundingError> {
    if !store.campaigns@.contains_key(campaign_id) {
        Some(CrowdfundingError::CampaignNotFound)
    } else if store.campaigns@[campaign_id].current_milestone_index >= store.campaigns@[campaign_id].milestones@.len() {
        Some(CrowdfundingError::AllMilestonesCompleted)
    } else {
        None
    }
}

/// The current milestone of a campaign.
pub open spec fn current_milestone(c: Campaign) -> Milestone {
    c.milestones@[c.current_milestone_index as int]
}

/// The campaign with milestone `i` carrying the given votes and approval.
fn update_milestone(c: Campaign, i: usize, votes_for: i128, votes_against: i128, approved: bool) -> (r: Campaign)
    requires
        i < c.milestones@.len(),
    ensures
        r == (Campaign {
            milestones: r.milestones,
            ..c
        }),
        r.milestones@ == c.milestones@.update(i as int, Milestone {
            votes_for,
            votes_against,
            approved,
            ..c.milestones@[i as int]
        }),
{
    let mut c = c;
    let mut ms = Vec::new();
    std::mem::swap(&mut ms, &mut c.milestones);
    let ghost old_ms = ms@;
    let m = ms.remove(i);
    ms.insert(i, Milestone { votes_for, votes_against, approved, ..m });
    assert(ms@ =~= old_ms.update(i as int, Milestone { votes_for, votes_against, approved, ..old_ms[i as int] }));
    Campaign { milestones: ms, ..c }
}

/// A backer votes on the current milestone of campaign `campaign_id` with
/// the weight of their contribution.
pub fn vote_on_milestone(store: &mut CrowdfundingStore, voter: Address, campaign_id: u64, approve: bool) -> (r: Result<(), CrowdfundingError>)
    requires
        old(store).campaigns@.contains_key(campaign_id) && current_milestone_refusal(*old(store), campaign_id) is None ==> {
            let m = current_milestone(old(store).campaigns@[campaign_id]);
            let w = old(store).contribution(campaign_id, voter);
            &&& approve ==> i128::MIN <= m.votes_for + w <= i128::MAX
            &&& !approve ==> i128::MIN <= m.votes_against + w <= i128::MAX
        },
    ensures
        r == (if old(store).contribution(campaign_id, voter) == 0 {
            Err(CrowdfundingError::NotBacker)
        } else {
            match current_milestone_refusal(*old(store), campaign_id) {
                Some(e) => Err(e),
                None => Ok(()),
            }
        }),
        r is Err ==> *final(store) == *old(store),
        r is Ok ==> {
            let c = old(store).campaigns@[campaign_id];
            let i = c.current_milestone_index as int;
            let m = c.milestones@[i];
            let w = old(store).contribution(campaign_id, voter);
            &&& final(store).campaign_count == old(store).campaign_count
            &&& final(store).contributions == old(store).contributions
            &&& final(store).campaigns@.dom() == old(store).campaigns@.dom()
            &&& forall|k: u64| k != campaign_id && #[trigger] old(store).campaigns@.contains_key(k)
                ==> final(store).campaigns@[k] == old(store).campaigns@[k]
            &&& final(store).campaigns@[campaign_id] == (Campaign { milestones: final(store).campaigns@[campaign_id].milestones, ..c })
            &&& final(store).campaigns@[campaign_id].milestones@ == c.milestones@.update(i, if approve {
                Milestone { votes_for: (m.votes_for + w) as i128, ..m }
            } else {
                Milestone { votes_against: (m.votes_against + w) as i128, ..m }
            })
        },
{
    let weight = get_or(&store.contributions, &pair_key(campaign_id, voter), 0i128);
    if weight == 0 {
        return Err(CrowdfundingError::NotBacker);
    }
    let (idx, len, vf, va, approved) = match store.campaigns.get(&campaign_id) {
        Some(c) => {
            let i = c.current_milestone_index as usize;
            if i < c.milestones.len() {
                (i, c.milestones.len(), c.milestones[i].votes_for, c.milestones[i].votes_against, c.milestones[i].approved)
            } else {
                (i, c.milestones.len(), 0, 0, false)
            }
        },
        None => return Err(CrowdfundingError::CampaignNotFound),
    };
    if idx >= len {
        return Err(CrowdfundingError::AllMilestonesCompleted);
    }
    let campaign = match store.campaigns.remove(&campaign_id) {
        Some(c) => c,
        None => return Err(CrowdfundingError::CampaignNotFound),
    };
    let updated = if approve {
        update_milestone(campaign, idx, vf + weight, va, approved)
    } else {
        update_milestone(campaign, idx, vf, va + weight, approved)
    };
    store.campaigns.insert(campaign_id, updated);
    proof {
        assert forall|k: u64| k != campaign_id && #[trigger] old(store).campaigns@.contains_key(k)
            implies store.campaigns@[k] == old(store).campaigns@[k] by {}
        assert(store.campaigns@.dom() =~= old(store).campaigns@.dom());
    }
    Ok(())
}

/// Approve the current milestone of campaign `campaign_id` once the votes
/// for it exceed half of what the campaign raised; the campaign then moves
/// to the next milestone, and is completed after the last.
pub fn release_milestone_funds(store: &mut CrowdfundingStore, campaign_id: u64) -> (r: Result<(), CrowdfundingError>)
    requires
        current_milestone_refusal(*old(store), campaign_id) is None
            && !current_milestone(old(store).campaigns@[campaign_id]).approved
            && current_milestone(old(store).campaigns@[campaign_id]).votes_for
                > spec_trunc_div(old(store).campaigns@[campaign_id].total_funded as int, 2)
            ==> old(store).campaigns@[campaign_id].current_milestone_index < u32::MAX,
    ensures
        r == (match current_milestone_refusal(*old(store), campaign_id) {
            Some(e) => Err(e),
            None => {
                let c = old(store).campaigns@[campaign_id];
                if current_milestone(c).approved {
                    Err(CrowdfundingError::MilestoneAlreadyApproved)
                } else if current_milestone(c).votes_for > spec_trunc_div(c.total_funded as int, 2) {
                    Ok(())
                } else {
                    Err(CrowdfundingError::MilestoneNotApproved)
                }
            },
        }),
        r is Err ==> *final(store) == *old(store),
        r is Ok ==> {
            let c = old(store).campaigns@[campaign_id];
            let i = c.current_milestone_index as int;
            let next = (c.current_milestone_index + 1) as u32;
            &&& final(store).campaign_count == old(store).campaign_count
            &&& final(store).contributions == old(store).contributions
            &&& final(store).campaigns@.dom() == old(store).campaigns@.dom()
            &&& forall|k: u64| k != campaign_id && #[trigger] old(store).campaigns@.contains_key(k)
                ==> final(store).campaigns@[k] == old(store).campaigns@[k]
            &&& final(store).campaigns@[campaign_id] == (Campaign {
                milestones: final(store).campaigns@[campaign_id].milestones,
                current_milestone_index: next,
                completed: if next == c.milestones@.len() { true } else { c.completed },
                ..c
            })
            &&& final(store).campaigns@[campaign_id].milestones@ == c.milestones@.update(i, Milestone {
                approved: true, ..c.milestones@[i] })
        },
{
    let (idx, len, total) = match store.campaigns.get(&campaign_id) {
        Some(c) => (c.current_milestone_index as usize, c.milestones.len(), c.total_funded),
        None => return Err(CrowdfundingError::CampaignNotFound),
    };
    if idx >= len {
        return Err(CrowdfundingError::AllMilestonesCompleted);
    }
    let (vf, va, approved) = match store.campaigns.get(&campaign_id) {
        Some(c) => (c.milestones[idx].votes_for, c.milestones[idx].votes_against, c.milestones[idx].approved),
        None => return Err(CrowdfundingError::CampaignNotFound),
    };
    if approved {
        return Err(CrowdfundingError::MilestoneAlreadyApproved);
    }
    if !(vf > total / 2) {
        return Err(CrowdfundingError::MilestoneNotApproved);
    }
    let campaign = match store.campaigns.remove(&campaign_id) {
        Some(c) => c,
        None => return Err(CrowdfundingError::CampaignNotFound),
    };
    let updated = update_milestone(campaign, idx, vf, va, true);
    let next = updated.current_milestone_index + 1;
    let completed = if next as usize == updated.milestones.len() { true } else { updated.completed };
    store.campaigns.insert(campaign_id, Campaign { current_milestone_index: next, completed, ..updated });
    proof {
        assert forall|k: u64| k != campaign_id && #[trigger] old(store).campaigns@.contains_key(k)
            implies store.campaigns@[k] == old(store).campaigns@[k] by {}
        assert(store.campaigns@.dom() =~= old(store).campaigns@.dom());
    }
    Ok(())
}

/// Refund `contributor`'s contribution to campaign `campaign_id` at time
/// `now`: possible once the campaign missed its goal by the deadline.
/// Returns the contribution, which is cleared.
pub fn process_refund(store: &mut CrowdfundingStore, contributor: Address, campaign_id: u64, now: u64) -> (r: Result<i128, CrowdfundingError>)
    ensures
        r == (if !old(store).campaigns@.contains_key(campaign_id) {
            Err(CrowdfundingError::CampaignNotFound)
        } else if !(now > old(store).campaigns@[campaign_id].deadline
            && old(store).campaigns@[campaign_id].total_funded < old(store).campaigns@[campaign_id].goal)
            && !old(store).campaigns@[campaign_id].refunded {
            Err(CrowdfundingError::NotEligibleForRefund)
        } else if old(store).contribution(campaign_id, contributor) == 0 {
            Err(CrowdfundingError::NoContribution)
        } else {
            Ok(old(store).contribution(campaign_id, contributor))
        }),
        r is Err ==> *final(store) == *old(store),
        r is Ok ==> final(store).campaign_count == old(store).campaign_count
            && final(store).campaigns == old(store).campaigns
            && final(store).contributions@ == old(store).contributions@.remove(spec_pair_key(campaign_id, contributor)),
{
    let eligible = match store.campaigns.get(&campaign_id) {
        Some(c) => (now > c.deadline && c.total_funded < c.goal) || c.refunded,
        None => return Err(CrowdfundingError::CampaignNotFound),
    };
    if !eligible {
        return Err(CrowdfundingError::NotEligibleForRefund);
    }
    let key = pair_key(campaign_id, contributor);
    let amount = get_or(&store.contributions, &key, 0i128);
    if amount == 0 {
        return Err(CrowdfundingError::NoContribution);
    }
    store.contributions.remove(&key);
    Ok(amount)
}

} // verus!
