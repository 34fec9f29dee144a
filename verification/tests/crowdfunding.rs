use contracts::crowdfunding::{contribute, create_campaign, CrowdfundingError, CrowdfundingStore, Milestone};
use contracts::milestone_release::{process_refund, release_milestone_funds, vote_on_milestone};

const CREATOR: u64 = 1;
const ALICE: u64 = 2;
const BOB: u64 = 3;

fn milestone(desc: &str, amount: i128) -> Milestone {
    Milestone { description: desc.to_string(), amount, approved: false, votes_for: 0, votes_against: 0 }
}

fn setup() -> (CrowdfundingStore, u64) {
    let mut s = CrowdfundingStore::new();
    let id = create_campaign(&mut s, CREATOR, 1_000, 100, vec![milestone("design", 400), milestone("build", 600)]);
    (s, id)
}

#[test]
fn crowdfunding_ids_and_contributions() {
    let (mut s, id) = setup();
    assert_eq!(id, 1);
    contribute(&mut s, ALICE, id, 600, 10).unwrap();
    contribute(&mut s, BOB, id, 500, 20).unwrap();
    assert_eq!(s.campaigns.get(&id).unwrap().total_funded, 1_100);
    assert_eq!(contribute(&mut s, ALICE, id, 1, 101), Err(CrowdfundingError::DeadlinePassed));
    assert_eq!(contribute(&mut s, ALICE, 9, 1, 0), Err(CrowdfundingError::CampaignNotFound));
}

#[test]
fn milestones_approved_in_order_by_majority() {
    let (mut s, id) = setup();
    contribute(&mut s, ALICE, id, 600, 10).unwrap();
    contribute(&mut s, BOB, id, 500, 10).unwrap();
    assert_eq!(vote_on_milestone(&mut s, CREATOR, id, true), Err(CrowdfundingError::NotBacker));
    vote_on_milestone(&mut s, BOB, id, true).unwrap();
    // 500 is not more than half of 1 100.
    assert_eq!(release_milestone_funds(&mut s, id), Err(CrowdfundingError::MilestoneNotApproved));
    vote_on_milestone(&mut s, ALICE, id, false).unwrap();
    vote_on_milestone(&mut s, ALICE, id, true).unwrap();
    release_milestone_funds(&mut s, id).unwrap();
    {
        let c = s.campaigns.get(&id).unwrap();
        assert_eq!(c.current_milestone_index, 1);
        assert!(c.milestones[0].approved);
        assert_eq!(c.milestones[0].votes_for, 1_100);
        assert_eq!(c.milestones[0].votes_against, 600);
        assert!(!c.completed);
    }
    vote_on_milestone(&mut s, ALICE, id, true).unwrap();
    release_milestone_funds(&mut s, id).unwrap();
    let c = s.campaigns.get(&id).unwrap();
    assert!(c.completed);
    assert_eq!(c.milestones[1].description, "build");
    assert_eq!(release_milestone_funds(&mut s, id), Err(CrowdfundingError::AllMilestonesCompleted));
    assert_eq!(vote_on_milestone(&mut s, ALICE, id, true), Err(CrowdfundingError::AllMilestonesCompleted));
    assert_eq!(contribute(&mut s, ALICE, id, 1, 0), Err(CrowdfundingError::CampaignInactive));
}

#[test]
fn refund_after_missed_goal() {
    let (mut s, id) = setup();
    contribute(&mut s, ALICE, id, 300, 10).unwrap();
    assert_eq!(process_refund(&mut s, ALICE, id, 100), Err(CrowdfundingError::NotEligibleForRefund));
    assert_eq!(process_refund(&mut s, BOB, id, 101), Err(CrowdfundingError::NoContribution));
    assert_eq!(process_refund(&mut s, ALICE, id, 101), Ok(300));
    assert_eq!(process_refund(&mut s, ALICE, id, 101), Err(CrowdfundingError::NoContribution));
}
