use contracts::dynamic_staking::{DynamicStakingContract, StakingError, MAX_LOCK_DURATION};

// Reward rate = 100 tokens per second.
fn setup() -> DynamicStakingContract {
    let mut c = DynamicStakingContract::new();
    c.initialize(1, 2, 3, 100, 0).unwrap();
    c
}

#[test]
fn test_initialize() {
    let c = setup();
    assert_eq!(c.reward_rate, 100);
}

#[test]
fn test_double_init() {
    let mut c = setup();
    assert_eq!(c.initialize(1, 2, 3, 100, 0), Err(StakingError::AlreadyInitialized));
}

#[test]
fn test_stake_and_reward_accumulation() {
    let mut c = setup();
    let user1 = 10;
    c.stake(user1, 1000, 0, 100).unwrap();
    assert_eq!(c.earned(user1, 110), 1000);
    assert_eq!(c.claim_rewards(user1, 110), Ok(1000));
    assert_eq!(c.earned(user1, 110), 0);
}

#[test]
fn test_dynamic_pool_size() {
    let mut c = setup();
    let (user1, user2) = (10, 11);
    c.stake(user1, 1000, 0, 100).unwrap();
    assert_eq!(c.earned(user1, 110), 1000);
    c.stake(user2, 1000, 0, 110).unwrap();
    assert_eq!(c.earned(user1, 120), 1500);
    assert_eq!(c.earned(user2, 120), 500);
}

#[test]
fn test_lock_duration_weighting() {
    let mut c = setup();
    let (user1, user2) = (10, 11);
    c.stake(user1, 1000, 0, 100).unwrap();
    c.stake(user2, 1000, MAX_LOCK_DURATION, 100).unwrap();
    assert_eq!(c.total_effective_supply, 3000);
    assert_eq!(c.earned(user1, 110), 333);
    assert_eq!(c.earned(user2, 110), 666);
}

#[test]
fn test_early_withdrawal_penalty() {
    let mut c = setup();
    let user1 = 10;
    c.stake(user1, 1000, 1000, 100).unwrap();
    assert_eq!(c.unstake(user1, 1000, 500), Ok(900));
    assert_eq!(c.earned(user1, 500), 0);
}

#[test]
fn test_successful_unstake() {
    let mut c = setup();
    let user1 = 10;
    c.stake(user1, 1000, 1000, 100).unwrap();
    let earned_before = c.earned(user1, 1200);
    assert_eq!(c.unstake(user1, 1000, 1200), Ok(1000));
    assert_eq!(c.earned(user1, 1200), earned_before);
    assert_eq!(c.claim_rewards(user1, 1200), Ok(earned_before));
}

#[test]
fn test_precision_loss_prevention() {
    let mut c = setup();
    let (user1, user2) = (10, 11);
    c.stake(user1, 1_000_000_000, 0, 100).unwrap();
    c.stake(user2, 1, 0, 100).unwrap();
    assert_eq!(c.earned(user2, 200), 0);
}

#[test]
fn test_stake_zero() {
    let mut c = setup();
    assert_eq!(c.stake(10, 0, 0, 100), Err(StakingError::InvalidAmount));
}

#[test]
fn test_unstake_excess() {
    let mut c = setup();
    c.stake(10, 100, 0, 100).unwrap();
    assert_eq!(c.unstake(10, 101, 100), Err(StakingError::InsufficientBalance));
}

#[test]
fn test_partial_unstake_early() {
    let mut c = setup();
    let user1 = 10;
    c.stake(user1, 1000, 1000, 100).unwrap();
    assert_eq!(c.unstake(user1, 500, 200), Ok(450));
    assert_eq!(c.earned(user1, 200), 0);
    assert_eq!(c.earned(user1, 300), 10_000);
}

#[test]
fn staking_refusals() {
    let mut fresh = DynamicStakingContract::new();
    assert_eq!(fresh.stake(10, 1, 0, 0), Err(StakingError::NotInitialized));
    let mut c = setup();
    assert_eq!(c.stake(10, 1, MAX_LOCK_DURATION + 1, 0), Err(StakingError::InvalidLockDuration));
    assert_eq!(c.claim_rewards(10, 0), Err(StakingError::InsufficientBalance));
    assert_eq!(c.set_reward_rate(5, 7, 0), Err(StakingError::Unauthorized));
    c.set_reward_rate(1, 7, 0).unwrap();
    assert_eq!(c.reward_rate, 7);
    c.locked = true;
    assert_eq!(c.stake(10, 1, 0, 0), Err(StakingError::Reentrant));
}
