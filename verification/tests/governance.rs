use contracts::governance::{
    ExecutableAction, GovernanceContract, GovernanceError, ProposalStatus, TransferTokenParams,
};

const GOV_TOKEN: u64 = 500;

fn setup() -> (GovernanceContract, u64) {
    let admin = 1;
    let mut c = GovernanceContract::new();
    c.initialize(admin, GOV_TOKEN).unwrap();
    (c, admin)
}

fn fund_voter(c: &mut GovernanceContract, voter: u64, amount: i128) {
    c.deposit_credits(voter, amount).unwrap();
}

fn propose(c: &mut GovernanceContract, proposer: u64, action: ExecutableAction, now: u64) -> u64 {
    c.create_proposal(proposer, "P".to_string(), "D".to_string(), action, now).unwrap()
}

#[test]
fn governance_test_test_initialize_success() {
    let (c, admin) = setup();
    assert_eq!(c.admin, Some(admin));
}

#[test]
fn governance_test_test_initialize_already_initialized() {
    let (mut c, admin) = setup();
    assert_eq!(c.initialize(admin, GOV_TOKEN), Err(GovernanceError::AlreadyInitialized));
}

#[test]
fn test_deposit_credits() {
    let (mut c, _) = setup();
    let voter = 10;
    assert_eq!(c.get_credits(voter), 0);
    c.deposit_credits(voter, 500).unwrap();
    assert_eq!(c.get_credits(voter), 500);
}

#[test]
fn test_deposit_zero_credits() {
    let (mut c, _) = setup();
    assert_eq!(c.deposit_credits(10, 0), Err(GovernanceError::InvalidAmount));
}

#[test]
fn test_create_proposal_success() {
    let (mut c, _) = setup();
    let proposer = 10;
    fund_voter(&mut c, proposer, 200);
    let id = c
        .create_proposal(proposer, "Proposal Alpha".to_string(), "Description of Alpha".to_string(), ExecutableAction::NoOp, 0)
        .unwrap();
    assert_eq!(id, 0u64);
    let p = c.get_proposal(id).unwrap();
    assert_eq!(p.id, 0u64);
    assert_eq!(p.status, ProposalStatus::Active);
    assert_eq!(p.for_votes, 0);
    assert_eq!(p.against_votes, 0);
}

#[test]
fn test_create_proposal_insufficient_credits() {
    let (mut c, _) = setup();
    assert_eq!(
        c.create_proposal(10, "P".to_string(), "D".to_string(), ExecutableAction::NoOp, 0),
        Err(GovernanceError::InsufficientCredits)
    );
}

#[test]
fn test_cast_vote_for() {
    let (mut c, _) = setup();
    let (proposer, voter) = (10, 11);
    fund_voter(&mut c, proposer, 200);
    fund_voter(&mut c, voter, 400);
    let id = propose(&mut c, proposer, ExecutableAction::NoOp, 0);
    c.cast_vote(voter, id, 400, true, 0).unwrap();
    let p = c.get_proposal(id).unwrap();
    assert_eq!(p.for_votes, 20);
    assert_eq!(p.against_votes, 0);
    assert_eq!(p.total_credits_spent, 400);
    assert_eq!(c.get_credits(voter), 0);
}

#[test]
fn test_cast_vote_against() {
    let (mut c, _) = setup();
    let (proposer, voter) = (10, 11);
    fund_voter(&mut c, proposer, 200);
    fund_voter(&mut c, voter, 100);
    let id = propose(&mut c, proposer, ExecutableAction::NoOp, 0);
    c.cast_vote(voter, id, 100, false, 0).unwrap();
    let p = c.get_proposal(id).unwrap();
    assert_eq!(p.for_votes, 0);
    assert_eq!(p.against_votes, 10);
}

#[test]
fn test_quadratic_voting_prevents_whale_dominance() {
    let (mut c, _) = setup();
    let proposer = 10;
    fund_voter(&mut c, proposer, 200);
    let id = propose(&mut c, proposer, ExecutableAction::NoOp, 0);
    let whale = 11;
    fund_voter(&mut c, whale, 10_000);
    c.cast_vote(whale, id, 10_000, true, 0).unwrap();
    for v in 100..110u64 {
        fund_voter(&mut c, v, 100);
        c.cast_vote(v, id, 100, false, 0).unwrap();
    }
    let p = c.get_proposal(id).unwrap();
    assert_eq!(p.for_votes, 100);
    assert_eq!(p.against_votes, 100);
}

#[test]
fn test_double_vote_rejected() {
    let (mut c, _) = setup();
    let (proposer, voter) = (10, 11);
    fund_voter(&mut c, proposer, 200);
    fund_voter(&mut c, voter, 400);
    let id = propose(&mut c, proposer, ExecutableAction::NoOp, 0);
    c.cast_vote(voter, id, 100, true, 0).unwrap();
    assert_eq!(c.cast_vote(voter, id, 100, true, 0), Err(GovernanceError::AlreadyVoted));
}

#[test]
fn test_vote_after_deadline() {
    let (mut c, _) = setup();
    let (proposer, voter) = (10, 11);
    fund_voter(&mut c, proposer, 200);
    fund_voter(&mut c, voter, 100);
    let id = propose(&mut c, proposer, ExecutableAction::NoOp, 0);
    assert_eq!(c.cast_vote(voter, id, 100, true, 604_801), Err(GovernanceError::VotingClosed));
}

#[test]
fn test_vote_insufficient_credits() {
    let (mut c, _) = setup();
    let (proposer, voter) = (10, 11);
    fund_voter(&mut c, proposer, 200);
    fund_voter(&mut c, voter, 50);
    let id = propose(&mut c, proposer, ExecutableAction::NoOp, 0);
    assert_eq!(c.cast_vote(voter, id, 100, true, 0), Err(GovernanceError::InsufficientCredits));
}

#[test]
fn test_finalize_proposal_passed() {
    let (mut c, _) = setup();
    let (proposer, voter) = (10, 11);
    fund_voter(&mut c, proposer, 200);
    fund_voter(&mut c, voter, 100);
    let id = propose(&mut c, proposer, ExecutableAction::NoOp, 0);
    c.cast_vote(voter, id, 100, true, 0).unwrap();
    c.finalize_proposal(id, 604_801).unwrap();
    assert_eq!(c.get_proposal(id).unwrap().status, ProposalStatus::Passed);
}

#[test]
fn test_finalize_proposal_failed() {
    let (mut c, _) = setup();
    let (proposer, voter) = (10, 11);
    fund_voter(&mut c, proposer, 200);
    fund_voter(&mut c, voter, 100);
    let id = propose(&mut c, proposer, ExecutableAction::NoOp, 0);
    c.cast_vote(voter, id, 100, false, 0).unwrap();
    c.finalize_proposal(id, 604_801).unwrap();
    assert_eq!(c.get_proposal(id).unwrap().status, ProposalStatus::Failed);
}

#[test]
fn test_finalize_before_deadline() {
    let (mut c, _) = setup();
    let proposer = 10;
    fund_voter(&mut c, proposer, 200);
    let id = propose(&mut c, proposer, ExecutableAction::NoOp, 0);
    assert_eq!(c.finalize_proposal(id, 0), Err(GovernanceError::VotingStillOpen));
}

#[test]
fn test_execute_proposal_token_transfer() {
    let (mut c, _) = setup();
    let (proposer, voter, recipient) = (10, 11, 12);
    fund_voter(&mut c, proposer, 200);
    fund_voter(&mut c, voter, 400);
    let action = ExecutableAction::TransferToken(TransferTokenParams { token: GOV_TOKEN, recipient, amount: 500 });
    let id = c
        .create_proposal(proposer, "Transfer".to_string(), "Send 500 tokens to recipient".to_string(), action, 0)
        .unwrap();
    c.cast_vote(voter, id, 400, true, 0).unwrap();
    c.finalize_proposal(id, 604_801).unwrap();
    assert_eq!(c.execute_proposal(id), Ok(action));
    assert_eq!(c.get_proposal(id).unwrap().status, ProposalStatus::Executed);
    assert_eq!(c.execute_proposal(id), Err(GovernanceError::ProposalNotPassed));
}

#[test]
fn test_execute_failed_proposal() {
    let (mut c, _) = setup();
    let (proposer, voter) = (10, 11);
    fund_voter(&mut c, proposer, 200);
    fund_voter(&mut c, voter, 100);
    let id = propose(&mut c, proposer, ExecutableAction::NoOp, 0);
    c.cast_vote(voter, id, 100, false, 0).unwrap();
    c.finalize_proposal(id, 604_801).unwrap();
    assert_eq!(c.execute_proposal(id), Err(GovernanceError::ProposalNotPassed));
}

#[test]
fn test_get_vote_record() {
    let (mut c, _) = setup();
    let (proposer, voter) = (10, 11);
    fund_voter(&mut c, proposer, 200);
    fund_voter(&mut c, voter, 225);
    let id = propose(&mut c, proposer, ExecutableAction::NoOp, 0);
    c.cast_vote(voter, id, 225, true, 0).unwrap();
    let record = c.get_vote(id, voter).unwrap();
    assert_eq!(record.credits_spent, 225);
    assert_eq!(record.vote_weight, 15);
    assert!(record.support);
}

#[test]
fn governance_admin_settings() {
    let (mut c, admin) = setup();
    assert_eq!(c.set_voting_period(2, 5), Err(GovernanceError::Unauthorized));
    c.set_voting_period(admin, 5).unwrap();
    c.set_proposal_threshold(admin, 0).unwrap();
    let id = propose(&mut c, 10, ExecutableAction::NoOp, 100);
    assert_eq!(c.get_proposal(id).unwrap().deadline, 105);
    assert_eq!(c.cast_vote(10, 99, 1, true, 0), Err(GovernanceError::ProposalNotFound));
    let mut fresh = GovernanceContract::new();
    assert_eq!(fresh.deposit_credits(1, 1), Err(GovernanceError::NotInitialized));
}
