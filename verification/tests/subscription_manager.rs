use contracts::subscription_manager::{
    BillingPeriod, SubscriptionError, SubscriptionManager, SubscriptionStatus, SubscriptionTier,
};

fn setup() -> (SubscriptionManager, u64) {
    let admin = 1;
    let mut c = SubscriptionManager::new();
    c.initialize(admin, 2).unwrap();
    (c, admin)
}

#[test]
fn default_plans_are_installed() {
    let (c, _admin) = setup();
    let plans = c.get_all_plans();
    assert_eq!(plans.len(), 3);
    assert_eq!(plans[0].name, "Basic");
    assert_eq!(plans[0].price, 10_000_000);
    assert_eq!(plans[1].features.len(), 4);
    assert_eq!(plans[2].billing_period, BillingPeriod::Yearly);
    assert_eq!(c.get_plan(SubscriptionTier::Pro).unwrap().max_users, 3);
}

#[test]
fn create_and_cancel_subscription() {
    let (mut c, admin) = setup();
    let user = 5;
    let id = c.create_subscription(user, SubscriptionTier::Basic, BillingPeriod::Monthly, 9, true, 100).unwrap();
    assert_eq!(id, 1);
    let s = c.get_subscription(id).unwrap();
    assert_eq!(s.end_date, 100 + 2_592_000);
    assert!(c.has_active_subscription(user, 200));
    assert_eq!(
        c.create_subscription(user, SubscriptionTier::Pro, BillingPeriod::Yearly, 9, true, 200),
        Err(SubscriptionError::SubscriptionAlreadyActive)
    );
    assert_eq!(c.cancel_subscription(7, id, 300), Err(SubscriptionError::Unauthorized));
    assert_eq!(c.cancel_subscription(user, id, 300), Ok(None));
    assert_eq!(c.get_subscription(id).unwrap().status, SubscriptionStatus::Cancelled);
    assert_eq!(c.cancel_subscription(admin, id, 300), Err(SubscriptionError::AlreadyCancelled));
    assert_eq!(c.get_user_subscriptions(user), vec![1]);
    let id2 = c.create_subscription(user, SubscriptionTier::Pro, BillingPeriod::Quarterly, 9, false, 400).unwrap();
    assert_eq!(id2, 2);
    assert_eq!(c.get_user_subscriptions(user), vec![1, 2]);
}

#[test]
fn pause_blocks_creation_and_errors() {
    let (mut c, admin) = setup();
    assert_eq!(c.initialize(admin, 2), Err(SubscriptionError::InvalidConfig));
    assert_eq!(c.pause_contract(3, "x".to_string()), Err(SubscriptionError::Unauthorized));
    c.pause_contract(admin, "maintenance".to_string()).unwrap();
    assert_eq!(
        c.create_subscription(5, SubscriptionTier::Basic, BillingPeriod::Monthly, 9, true, 1),
        Err(SubscriptionError::ContractPaused)
    );
    c.unpause_contract(admin).unwrap();
    c.update_plan(admin, SubscriptionTier::Basic, "B".to_string(), "d".to_string(), 5, "XLM".to_string(), vec![], 1, false)
        .unwrap();
    assert_eq!(c.get_plan(SubscriptionTier::Basic).unwrap().billing_period, BillingPeriod::Monthly);
    assert_eq!(
        c.create_subscription(5, SubscriptionTier::Basic, BillingPeriod::Monthly, 9, true, 1),
        Err(SubscriptionError::PlanNotActive)
    );
    c.emergency_pause(admin, "stop".to_string()).unwrap();
    assert_eq!(c.cancel_subscription(5, 1, 1), Err(SubscriptionError::ContractPaused));
    assert_eq!(c.get_subscription(99), Err(SubscriptionError::SubscriptionNotFound));
}

#[test]
fn refund_quote_is_pro_rata() {
    let (mut c, _admin) = setup();
    let id = c.create_subscription(5, SubscriptionTier::Basic, BillingPeriod::Monthly, 9, true, 0).unwrap();
    let s = c.get_subscription(id).unwrap();
    // Half the term remains: half the price.
    assert_eq!(c.calculate_refund(s, 2_592_000 / 2), Some(5_000_000));
    assert_eq!(c.calculate_refund(s, 2_592_000), None);
    assert_eq!(SubscriptionManager::get_default_billing_period(SubscriptionTier::Pro), BillingPeriod::Quarterly);
    assert_eq!(SubscriptionManager::billing_period_to_seconds(BillingPeriod::Quarterly), 7_776_000);
}
