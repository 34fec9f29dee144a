use contracts::bounty_escrow::{BountyError, BountyEscrowContract, BountyStatus};
use contracts::common::Payout;
use std::collections::HashMap;

const TOKEN: u64 = 900;
const ADMIN: u64 = 1;
const ORACLE: u64 = 2;
const ARB1: u64 = 3;
const ARB2: u64 = 4;
const ARB3: u64 = 5;
const CREATOR: u64 = 6;
const FUNDER1: u64 = 7;
const FUNDER2: u64 = 8;
const SOLVER: u64 = 9;

/// The escrow plus a ledger of token balances the host keeps.
struct Setup {
    escrow: BountyEscrowContract,
    balances: HashMap<u64, i128>,
    now: u64,
}

impl Setup {
    fn new() -> Self {
        let mut escrow = BountyEscrowContract::new();
        escrow.initialize(ADMIN, ORACLE, vec![ARB1, ARB2, ARB3], 2).unwrap();
        let mut balances = HashMap::new();
        balances.insert(FUNDER1, 100_000);
        balances.insert(FUNDER2, 100_000);
        Setup { escrow, balances, now: 1_000 }
    }

    fn balance(&self, a: u64) -> i128 {
        *self.balances.get(&a).unwrap_or(&0)
    }

    fn pay(&mut self, ps: Vec<Payout>) {
        for p in ps {
            *self.balances.entry(p.to).or_insert(0) += p.amount;
        }
    }

    fn make_bounty(&mut self) -> u32 {
        self.escrow.create_bounty(CREATOR, TOKEN, self.now + 3600, 2, self.now).unwrap()
    }

    fn fund(&mut self, funder: u64, id: u32, amount: i128) {
        self.escrow.fund_bounty(funder, id, amount, self.now).unwrap();
        *self.balances.get_mut(&funder).unwrap() -= amount;
    }
}

#[test]
fn bounty_escrow_tests_test_initialize_ok() {
    let s = Setup::new();
    assert_eq!(s.escrow.oracle, Some(ORACLE));
}

#[test]
fn bounty_escrow_tests_test_initialize_twice_panics() {
    let mut s = Setup::new();
    assert_eq!(s.escrow.initialize(ADMIN, ORACLE, vec![ARB1], 1), Err(BountyError::AlreadyInitialized));
}

#[test]
fn test_create_bounty_returns_incrementing_ids() {
    let mut s = Setup::new();
    assert_eq!(s.make_bounty(), 1);
    assert_eq!(s.make_bounty(), 2);
}

#[test]
fn test_create_bounty_past_deadline_panics() {
    let mut s = Setup::new();
    assert_eq!(s.escrow.create_bounty(CREATOR, TOKEN, 0, 1, s.now), Err(BountyError::DeadlinePassed));
}

#[test]
fn test_fund_bounty_single_funder() {
    let mut s = Setup::new();
    let id = s.make_bounty();
    s.fund(FUNDER1, id, 10_000);
    assert_eq!(s.escrow.get_bounty(id).unwrap().total_reward, 10_000);
    assert_eq!(s.escrow.contribution_of(id, FUNDER1), 10_000);
}

#[test]
fn test_fund_bounty_multiple_funders_pool_rewards() {
    let mut s = Setup::new();
    let id = s.make_bounty();
    s.fund(FUNDER1, id, 6_000);
    s.fund(FUNDER2, id, 4_000);
    assert_eq!(s.escrow.get_bounty(id).unwrap().total_reward, 10_000);
}

#[test]
fn test_fund_bounty_same_funder_accumulates() {
    let mut s = Setup::new();
    let id = s.make_bounty();
    s.fund(FUNDER1, id, 3_000);
    s.fund(FUNDER1, id, 2_000);
    assert_eq!(s.escrow.contribution_of(id, FUNDER1), 5_000);
}

#[test]
fn test_fund_bounty_zero_amount_panics() {
    let mut s = Setup::new();
    let id = s.make_bounty();
    assert_eq!(s.escrow.fund_bounty(FUNDER1, id, 0, s.now), Err(BountyError::ZeroAmount));
}

#[test]
fn test_fund_bounty_wrong_status_panics() {
    let mut s = Setup::new();
    let id = s.make_bounty();
    s.fund(FUNDER1, id, 5_000);
    s.escrow.submit_work(SOLVER, id).unwrap();
    assert_eq!(s.escrow.fund_bounty(FUNDER2, id, 1_000, s.now), Err(BountyError::InvalidStatus));
}

#[test]
fn test_submit_work_transitions_to_under_review() {
    let mut s = Setup::new();
    let id = s.make_bounty();
    s.fund(FUNDER1, id, 5_000);
    s.escrow.submit_work(SOLVER, id).unwrap();
    assert_eq!(s.escrow.get_bounty(id).unwrap().status, BountyStatus::UnderReview);
}

#[test]
fn test_submit_work_twice_panics() {
    let mut s = Setup::new();
    let id = s.make_bounty();
    s.escrow.submit_work(SOLVER, id).unwrap();
    assert_eq!(s.escrow.submit_work(SOLVER, id), Err(BountyError::InvalidStatus));
}

#[test]
fn test_oracle_approve_pays_solver() {
    let mut s = Setup::new();
    let id = s.make_bounty();
    s.fund(FUNDER1, id, 10_000);
    s.escrow.submit_work(SOLVER, id).unwrap();
    let ps = s.escrow.oracle_verify(ORACLE, id, true).unwrap();
    s.pay(ps);
    assert_eq!(s.escrow.get_bounty(id).unwrap().status, BountyStatus::Completed);
    assert_eq!(s.balance(SOLVER), 10_000);
}

#[test]
fn test_oracle_reject_refunds_funders() {
    let mut s = Setup::new();
    let id = s.make_bounty();
    s.fund(FUNDER1, id, 6_000);
    s.fund(FUNDER2, id, 4_000);
    s.escrow.submit_work(SOLVER, id).unwrap();
    let ps = s.escrow.oracle_verify(ORACLE, id, false).unwrap();
    s.pay(ps);
    assert_eq!(s.escrow.get_bounty(id).unwrap().status, BountyStatus::Refunded);
    assert_eq!(s.balance(FUNDER1), 100_000);
    assert_eq!(s.balance(FUNDER2), 100_000);
}

#[test]
fn test_oracle_verify_wrong_caller_panics() {
    let mut s = Setup::new();
    let id = s.make_bounty();
    s.fund(FUNDER1, id, 5_000);
    s.escrow.submit_work(SOLVER, id).unwrap();
    assert_eq!(s.escrow.oracle_verify(99, id, true), Err(BountyError::Unauthorized));
}

#[test]
fn test_oracle_verify_wrong_status_panics() {
    let mut s = Setup::new();
    let id = s.make_bounty();
    assert_eq!(s.escrow.oracle_verify(ORACLE, id, true), Err(BountyError::InvalidStatus));
}

#[test]
fn test_dispute_by_creator_transitions_to_disputed() {
    let mut s = Setup::new();
    let id = s.make_bounty();
    s.fund(FUNDER1, id, 5_000);
    s.escrow.submit_work(SOLVER, id).unwrap();
    s.escrow.dispute(CREATOR, id).unwrap();
    assert_eq!(s.escrow.get_bounty(id).unwrap().status, BountyStatus::Disputed);
}

#[test]
fn test_dispute_by_funder_ok() {
    let mut s = Setup::new();
    let id = s.make_bounty();
    s.fund(FUNDER1, id, 5_000);
    s.escrow.submit_work(SOLVER, id).unwrap();
    s.escrow.dispute(FUNDER1, id).unwrap();
    assert_eq!(s.escrow.get_bounty(id).unwrap().status, BountyStatus::Disputed);
}

#[test]
fn test_dispute_by_non_participant_panics() {
    let mut s = Setup::new();
    let id = s.make_bounty();
    s.fund(FUNDER1, id, 5_000);
    s.escrow.submit_work(SOLVER, id).unwrap();
    assert_eq!(s.escrow.dispute(99, id), Err(BountyError::Unauthorized));
}

#[test]
fn test_dispute_wrong_status_panics() {
    let mut s = Setup::new();
    let id = s.make_bounty();
    assert_eq!(s.escrow.dispute(CREATOR, id), Err(BountyError::InvalidStatus));
}

fn disputed(s: &mut Setup, amount: i128) -> u32 {
    let id = s.make_bounty();
    s.fund(FUNDER1, id, amount);
    s.escrow.submit_work(SOLVER, id).unwrap();
    s.escrow.dispute(CREATOR, id).unwrap();
    id
}

#[test]
fn test_arbiter_vote_approve_2_of_3_pays_solver() {
    let mut s = Setup::new();
    let id = disputed(&mut s, 8_000);
    assert!(s.escrow.arbiter_vote(ARB1, id, true).unwrap().is_empty());
    let ps = s.escrow.arbiter_vote(ARB2, id, true).unwrap();
    s.pay(ps);
    assert_eq!(s.escrow.get_bounty(id).unwrap().status, BountyStatus::Completed);
    assert_eq!(s.balance(SOLVER), 8_000);
}

#[test]
fn test_arbiter_vote_reject_2_of_3_refunds_funders() {
    let mut s = Setup::new();
    let id = disputed(&mut s, 5_000);
    s.escrow.arbiter_vote(ARB1, id, false).unwrap();
    let ps = s.escrow.arbiter_vote(ARB2, id, false).unwrap();
    s.pay(ps);
    assert_eq!(s.escrow.get_bounty(id).unwrap().status, BountyStatus::Refunded);
    assert_eq!(s.balance(FUNDER1), 100_000);
}

#[test]
fn test_arbiter_vote_split_does_not_resolve_early() {
    let mut s = Setup::new();
    let id = disputed(&mut s, 5_000);
    s.escrow.arbiter_vote(ARB1, id, true).unwrap();
    s.escrow.arbiter_vote(ARB2, id, false).unwrap();
    assert_eq!(s.escrow.get_bounty(id).unwrap().status, BountyStatus::Disputed);
}

#[test]
fn test_arbiter_vote_duplicate_panics() {
    let mut s = Setup::new();
    let id = disputed(&mut s, 5_000);
    s.escrow.arbiter_vote(ARB1, id, true).unwrap();
    assert_eq!(s.escrow.arbiter_vote(ARB1, id, true), Err(BountyError::AlreadyVoted));
}

#[test]
fn test_arbiter_vote_non_arbiter_panics() {
    let mut s = Setup::new();
    let id = disputed(&mut s, 5_000);
    assert_eq!(s.escrow.arbiter_vote(99, id, true), Err(BountyError::NotArbiter));
}

#[test]
fn test_arbiter_vote_wrong_status_panics() {
    let mut s = Setup::new();
    let id = s.make_bounty();
    assert_eq!(s.escrow.arbiter_vote(ARB1, id, true), Err(BountyError::InvalidStatus));
}

#[test]
fn test_reclaim_expired_after_deadline() {
    let mut s = Setup::new();
    let id = s.make_bounty();
    s.fund(FUNDER1, id, 7_000);
    let later = s.now + 7200;
    let amount = s.escrow.reclaim_expired(FUNDER1, id, later).unwrap();
    s.pay(vec![Payout { to: FUNDER1, amount }]);
    assert_eq!(s.balance(FUNDER1), 100_000);
    assert_eq!(s.escrow.contribution_of(id, FUNDER1), 0);
}

#[test]
fn test_reclaim_expired_before_deadline_panics() {
    let mut s = Setup::new();
    let id = s.make_bounty();
    s.fund(FUNDER1, id, 5_000);
    assert_eq!(s.escrow.reclaim_expired(FUNDER1, id, s.now), Err(BountyError::DeadlineNotPassed));
}

#[test]
fn test_reclaim_expired_wrong_status_panics() {
    let mut s = Setup::new();
    let id = s.make_bounty();
    s.fund(FUNDER1, id, 5_000);
    s.escrow.submit_work(SOLVER, id).unwrap();
    assert_eq!(s.escrow.reclaim_expired(FUNDER1, id, s.now + 7200), Err(BountyError::InvalidStatus));
}

#[test]
fn bounty_not_found_and_funder_deduplicated() {
    let mut s = Setup::new();
    assert_eq!(s.escrow.submit_work(SOLVER, 42), Err(BountyError::NotFound));
    let id = s.make_bounty();
    s.fund(FUNDER1, id, 1);
    s.fund(FUNDER1, id, 2);
    s.fund(FUNDER2, id, 4);
    assert_eq!(s.escrow.funders.get(&id).unwrap(), &vec![FUNDER1, FUNDER2]);
    assert_eq!(s.escrow.fund_bounty(FUNDER1, id, 1, s.now + 3601), Err(BountyError::DeadlinePassed));
}
