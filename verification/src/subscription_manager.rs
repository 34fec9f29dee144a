//! Tiered subscriptions with billing periods, cancellation with pro-rata
//! refund quotes, and pause / emergency pause switches.
use std::collections::HashMap;
use vstd::prelude::*;
use crate::common::Address;

verus! {

broadcast use vstd::std_specs::hash::group_hash_axioms;

/// Subscription plan tiers.
#[derive(Copy, Clone, Debug, PartialEq, Eq, Structural)]
pub enum SubscriptionTier {
    Basic,
    Pro,
    Enterprise,
}

/// Subscription status.
#[derive(Copy, Clone, Debug, PartialEq, Eq, Structural)]
pub enum SubscriptionStatus {
    Active,
    Paused,
    Cancelled,
    Expired,
    Suspended,
}

/// Billing period options.
#[derive(Copy, Clone, Debug, PartialEq, Eq, Structural)]
pub enum BillingPeriod {
    Monthly,
    Quarterly,
    Yearly,
}

/// Payment status.
#[derive(Copy, Clone, Debug, PartialEq, Eq, Structural)]
pub enum PaymentStatus {
    Pending,
    Completed,
    Failed,
    Refunded,
}

/// Reasons for which the subscription manager refuses a call.
#[derive(Copy, Clone, Debug, PartialEq, Eq, Structural)]
pub enum SubscriptionError {
    Unauthorized,
    ContractPaused,
    InvalidTier,
    SubscriptionNotFound,
    SubscriptionAlreadyActive,
    InsufficientPayment,
    InvalidPaymentAmount,
    SubscriptionExpired,
    InvalidBillingPeriod,
    PlanNotActive,
    MaxUsersExceeded,
    InvalidUserAddress,
    PaymentFailed,
    InvalidConfig,
    AlreadyCancelled,
    GracePeriodExceeded,
}

/// Subscription plan configuration.
#[derive(Clone, Debug)]
pub struct SubscriptionPlan {
    pub tier: SubscriptionTier,
    pub name: String,
    pub description: String,
    pub price: i128,
    pub currency: String,
    pub billing_period: BillingPeriod,
    pub features: Vec<String>,
    pub max_users: u32,
    pub is_active: bool,
}

/// The character contents of a list of strings.
pub open spec fn strings_view(v: Seq<String>) -> Seq<Seq<char>> {
    v.map_values(|s: String| s@)
}

impl SubscriptionPlan {
    /// Two plans hold the same values.
    pub open spec fn same_as(&self, other: &SubscriptionPlan) -> bool {
        &&& self.tier == other.tier
        &&& self.name@ == other.name@
        &&& self.description@ == other.description@
        &&& self.price == other.price
        &&& self.currency@ == other.currency@
        &&& self.billing_period == other.billing_period
        &&& strings_view(self.features@) == strings_view(other.features@)
        &&& self.max_users == other.max_users
        &&& self.is_active == other.is_active
    }
}

/// User subscription record.
#[derive(Copy, Clone, Debug, PartialEq, Eq, Structural)]
pub struct Subscription {
    pub user: Address,
    pub plan_tier: SubscriptionTier,
    pub start_date: u64,
    pub end_date: u64,
    pub last_billing_date: u64,
    pub next_billing_date: u64,
    pub status: SubscriptionStatus,
    pub auto_renew: bool,
    /// Token contract address used for payment.
    pub payment_method: Address,
    pub subscription_id: u64,
    pub created_at: u64,
}

/// Contract configuration.
#[derive(Copy, Clone, Debug, PartialEq, Eq, Structural)]
pub struct ContractConfig {
    pub admin: Address,
    pub treasury: Address,
    pub paused: bool,
    pub emergency_pause: bool,
    pub platform_fee_percent: u32,
    pub min_subscription_period: u64,
    pub max_subscription_period: u64,
    pub grace_period_days: u32,
}

/// Storage key of a tier.
pub open spec fn spec_tier_key(tier: SubscriptionTier) -> u32 {
    match tier {
        SubscriptionTier::Basic => 0,
        SubscriptionTier::Pro => 1,
        SubscriptionTier::Enterprise => 2,
    }
}

#[verifier::when_used_as_spec(spec_tier_key)]
fn tier_key(tier: SubscriptionTier) -> (r: u32)
    ensures
        r == spec_tier_key(tier),
{
    match tier {
        SubscriptionTier::Basic => 0,
        SubscriptionTier::Pro => 1,
        SubscriptionTier::Enterprise => 2,
    }
}

/// Length of a billing period in seconds.
pub open spec fn spec_period_seconds(period: BillingPeriod) -> u64 {
    match period {
        BillingPeriod::Monthly => 2592000,
        BillingPeriod::Quarterly => 7776000,
        BillingPeriod::Yearly => 31536000,
    }
}

/// Billing period a tier uses by default.
pub open spec fn spec_default_billing_period(tier: SubscriptionTier) -> BillingPeriod {
    match tier {
        SubscriptionTier::Basic => BillingPeriod::Monthly,
        SubscriptionTier::Pro => BillingPeriod::Quarterly,
        SubscriptionTier::Enterprise => BillingPeriod::Yearly,
    }
}

fn clone_strings(v: &Vec<String>) -> (r: Vec<String>)
    ensures
        strings_view(r@) == strings_view(v@),
{
    let mut out: Vec<String> = Vec::new();
    let mut i: usize = 0;
    while i < v.len()
        invariant
            0 <= i <= v.len(),
            out@.len() == i,
            forall|j: int| 0 <= j < i ==> out@[j]@ == v@[j]@,
        decreases v.len() - i,
    {
        out.push(v[i].clone());
        i = i + 1;
    }
    assert(strings_view(out@) =~= strings_view(v@));
    out
}

fn clone_plan(p: &SubscriptionPlan) -> (r: SubscriptionPlan)
    ensures
        r.same_as(p),
{
    SubscriptionPlan {
        tier: p.tier,
        name: p.name.clone(),
        description: p.description.clone(),
        price: p.price,
        currency: p.currency.clone(),
        billing_period: p.billing_period,
        features: clone_strings(&p.features),
        max_users: p.max_users,
        is_active: p.is_active,
    }
}

/// Storage of the subscription manager.
pub struct SubscriptionManager {
    /// `None` until `initialize` ran.
    pub admin: Option<Address>,
    pub config: ContractConfig,
    pub next_subscription_id: u64,
    pub next_payment_id: u64,
    pub subscriptions: HashMap<u64, Subscription>,
    /// Subscription ids per user, in creation order.
    pub user_subscriptions: HashMap<Address, Vec<u64>>,
    /// Plans keyed by `spec_tier_key`.
    pub plans: HashMap<u32, SubscriptionPlan>,
}

impl SubscriptionManager {
    pub open spec fn user_subs(&self, user: Address) -> Seq<u64> {
        if self.user_subscriptions@.contains_key(user) {
            self.user_subscriptions@[user]@
        } else {
            Seq::empty()
        }
    }

    /// `user` holds a subscription that is active and not yet ended at `now`.
    pub open spec fn spec_has_active(&self, user: Address, now: u64) -> bool {
        exists|j: int|
            0 <= j < self.user_subs(user).len() && {
                let id = #[trigger] self.user_subs(user)[j];
                &&& self.subscriptions@.contains_key(id)
                &&& self.subscriptions@[id].status == SubscriptionStatus::Active
                &&& self.subscriptions@[id].end_date > now
            }
    }

    /// Fresh, uninitialised storage.
    pub fn new() -> (c: Self)
        ensures
            c.admin is None,
            c.next_subscription_id == 1,
            c.subscriptions@ == Map::<u64, Subscription>::empty(),
            c.user_subscriptions@ == Map::<Address, Vec<u64>>::empty(),
            c.plans@ == Map::<u32, SubscriptionPlan>::empty(),
    {
        SubscriptionManager {
            admin: None,
            config: ContractConfig {
                admin: 0,
                treasury: 0,
                paused: false,
                emergency_pause: false,
                platform_fee_percent: 0,
                min_subscription_period: 0,
                max_subscription_period: 0,
                grace_period_days: 0,
            },
            next_subscription_id: 1,
            next_payment_id: 1,
            subscriptions: HashMap::new(),
            user_subscriptions: HashMap::new(),
            plans: HashMap::new(),
        }
    }

    /// Initialise the contract and its default plans.
    pub fn initialize(&mut self, admin: Address, treasury: Address) -> (r: Result<(), SubscriptionError>)
        ensures
            r == (if old(self).admin is Some { Err::<(), SubscriptionError>(SubscriptionError::InvalidConfig) } else { Ok(()) }),
            r is Err ==> *final(self) == *old(self),
            r is Ok ==> {
                &&& final(self).admin == Some(admin)
                &&& final(self).config == (ContractConfig {
                    admin,
                    treasury,
                    paused: false,
                    emergency_pause: false,
                    platform_fee_percent: 5,
                    min_subscription_period: 2592000,
                    max_subscription_period: 31536000,
                    grace_period_days: 7,
                })
                &&& final(self).next_subscription_id == 1
                &&& final(self).next_payment_id == 1
                &&& final(self).subscriptions@ == old(self).subscriptions@
                &&& final(self).user_subscriptions@ == old(self).user_subscriptions@
                &&& Self::default_plans(final(self).plans@)
            },
    {
        if self.admin.is_some() {
            return Err(SubscriptionError::InvalidConfig);
        }
        self.config = ContractConfig {
            admin,
            treasury,
            paused: false,
            emergency_pause: false,
            platform_fee_percent: 5,
            min_subscription_period: 2592000,
            max_subscription_period: 31536000,
            grace_period_days: 7,
        };
        self.admin = Some(admin);
        self.next_subscription_id = 1;
        self.next_payment_id = 1;
        self.initialize_default_plans();
        Ok(())
    }

    /// The three plans that `initialize` installs.
    pub open spec fn default_plans(plans: Map<u32, SubscriptionPlan>) -> bool {
        &&& plans.dom() == set![0u32, 1u32, 2u32]
        &&& plans[0].tier == SubscriptionTier::Basic && plans[0].name@ == "Basic"@
            && plans[0].description@ == "Perfect for getting started"@ && plans[0].price == 10_000_000
            && plans[0].currency@ == "XLM"@ && plans[0].billing_period == BillingPeriod::Monthly
            && strings_view(plans[0].features@) == seq!["Access to basic courses"@, "Email support"@,
                "Certificate of completion"@]
            && plans[0].max_users == 1 && plans[0].is_active
        &&& plans[1].tier == SubscriptionTier::Pro && plans[1].name@ == "Pro"@
            && plans[1].description@ == "For serious learners"@ && plans[1].price == 25_000_000
            && plans[1].currency@ == "XLM"@ && plans[1].billing_period == BillingPeriod::Quarterly
            && strings_view(plans[1].features@) == seq!["Access to all courses"@, "Priority support"@,
                "Verified certificates"@, "Course completion tracking"@]
            && plans[1].max_users == 3 && plans[1].is_active
        &&& plans[2].tier == SubscriptionTier::Enterprise && plans[2].name@ == "Enterprise"@
            && plans[2].description@ == "For teams and organizations"@ && plans[2].price == 100_000_000
            && plans[2].currency@ == "XLM"@ && plans[2].billing_period == BillingPeriod::Yearly
            && strings_view(plans[2].features@) == seq!["Unlimited course access"@, "Dedicated support"@,
                "Premium certificates"@, "Advanced analytics"@, "Custom branding"@]
            && plans[2].max_users == 10 && plans[2].is_active
    }

    fn initialize_default_plans(&mut self)
        ensures
            Self::default_plans(final(self).plans@),
            *final(self) == (SubscriptionManager { plans: final(self).plans, ..*old(self) }),
    {
        let mut plans: HashMap<u32, SubscriptionPlan> = HashMap::new();
        let mut basic_features: Vec<String> = Vec::new();
        basic_features.push("Access to basic courses".to_owned());
        basic_features.push("Email support".to_owned());
        basic_features.push("Certificate of completion".to_owned());
        assert(strings_view(basic_features@) =~= seq!["Access to basic courses"@, "Email support"@,
            "Certificate of completion"@]);
        plans.insert(0, SubscriptionPlan {
            tier: SubscriptionTier::Basic,
            name: "Basic".to_owned(),
            description: "Perfect for getting started".to_owned(),
            price: 10_000_000,
            currency: "XLM".to_owned(),
            billing_period: BillingPeriod::Monthly,
            features: basic_features,
            max_users: 1,
            is_active: true,
        });
        let mut pro_features: Vec<String> = Vec::new();
        pro_features.push("Access to all courses".to_owned());
        pro_features.push("Priority support".to_owned());
        pro_features.push("Verified certificates".to_owned());
        pro_features.push("Course completion tracking".to_owned());
        assert(strings_view(pro_features@) =~= seq!["Access to all courses"@, "Priority support"@,
            "Verified certificates"@, "Course completion tracking"@]);
        plans.insert(1, SubscriptionPlan {
            tier: SubscriptionTier::Pro,
            name: "Pro".to_owned(),
            description: "For serious learners".to_owned(),
            price: 25_000_000,
            currency: "XLM".to_owned(),
            billing_period: BillingPeriod::Quarterly,
            features: pro_features,
            max_users: 3,
            is_active: true,
        });
        let mut enterprise_features: Vec<String> = Vec::new();
        enterprise_features.push("Unlimited course access".to_owned());
        enterprise_features.push("Dedicated support".to_owned());
        enterprise_features.push("Premium certificates".to_owned());
        enterprise_features.push("Advanced analytics".to_owned());
        enterprise_features.push("Custom branding".to_owned());
        assert(strings_view(enterprise_features@) =~= seq!["Unlimited course access"@, "Dedicated support"@,
            "Premium certificates"@, "Advanced analytics"@, "Custom branding"@]);
        plans.insert(2, SubscriptionPlan {
            tier: SubscriptionTier::Enterprise,
            name: "Enterprise".to_owned(),
            description: "For teams and organizations".to_owned(),
            price: 100_000_000,
            currency: "XLM".to_owned(),
            billing_period: BillingPeriod::Yearly,
            features: enterprise_features,
            max_users: 10,
            is_active: true,
        });
        assert(plans@.dom() =~= set![0u32, 1u32, 2u32]);
        self.plans = plans;
    }

    /// Whether `user` holds a subscription that is active and not ended at `now`.
    pub fn has_active_subscription(&self, user: Address, now: u64) -> (r: bool)
        ensures
            r == self.spec_has_active(user, now),
    {
        let list = match self.user_subscriptions.get(&user) {
            Some(v) => v,
            None => return false,
        };
        let mut i: usize = 0;
        while i < list.len()
            invariant
                0 <= i <= list.len(),
                list@ == self.user_subs(user),
                forall|j: int| 0 <= j < i ==> {
                    let id = #[trigger] self.user_subs(user)[j];
                    !(self.subscriptions@.contains_key(id)
                        && self.subscriptions@[id].status == SubscriptionStatus::Active
                        && self.subscriptions@[id].end_date > now)
                },
            decreases list.len() - i,
        {
            let id = list[i];
            match self.subscriptions.get(&id) {
                Some(s) => {
                    if s.status == SubscriptionStatus::Active && s.end_date > now {
                        assert(self.user_subs(user)[i as int] == id);
                        return true;
                    }
                },
                None => {},
            }
            i = i + 1;
        }
        false
    }

    /// Length of a billing period in seconds.
    pub fn billing_period_to_seconds(period: BillingPeriod) -> (r: u64)
        ensures
            r == spec_period_seconds(period),
    {
        match period {
            BillingPeriod::Monthly => 2592000,
            BillingPeriod::Quarterly => 7776000,
            BillingPeriod::Yearly => 31536000,
        }
    }

    /// Billing period a tier uses by default.
    pub fn get_default_billing_period(tier: SubscriptionTier) -> (r: BillingPeriod)
        ensures
            r == spec_default_billing_period(tier),
    {
        match tier {
            SubscriptionTier::Basic => BillingPeriod::Monthly,
            SubscriptionTier::Pro => BillingPeriod::Quarterly,
            SubscriptionTier::Enterprise => BillingPeriod::Yearly,
        }
    }

    /// Create a subscription of `user` at time `now`; returns its id.
    pub fn create_subscription(
        &mut self,
        user: Address,
        tier: SubscriptionTier,
        billing_period: BillingPeriod,
        payment_method: Address,
        auto_renew: bool,
        now: u64,
    ) -> (r: Result<u64, SubscriptionError>)
        requires
            old(self).admin is Some,
            now + spec_period_seconds(billing_period) <= u64::MAX,
            old(self).next_subscription_id < u64::MAX,
            old(self).user_subs(user).len() < usize::MAX,
        ensures
            r == (if old(self).config.paused || old(self).config.emergency_pause {
                Err(SubscriptionError::ContractPaused)
            } else if old(self).spec_has_active(user, now) {
                Err(SubscriptionError::SubscriptionAlreadyActive)
            } else if !old(self).plans@.contains_key(spec_tier_key(tier)) {
                Err(SubscriptionError::InvalidTier)
            } else if !old(self).plans@[spec_tier_key(tier)].is_active {
                Err(SubscriptionError::PlanNotActive)
            } else {
                Ok(old(self).next_subscription_id)
            }),
            r is Err ==> *final(self) == *old(self),
            r matches Ok(id) ==> {
                let end = (now + spec_period_seconds(billing_period)) as u64;
                &&& final(self).subscriptions@ == old(self).subscriptions@.insert(id, Subscription {
                    user,
                    plan_tier: tier,
                    start_date: now,
                    end_date: end,
                    last_billing_date: now,
                    next_billing_date: end,
                    status: SubscriptionStatus::Active,
                    auto_renew,
                    payment_method,
                    subscription_id: id,
                    created_at: now,
                })
                &&& final(self).user_subs(user) == old(self).user_subs(user).push(id)
                &&& forall|u: Address| u != user ==> #[trigger] final(self).user_subs(u) == old(self).user_subs(u)
                &&& final(self).next_subscription_id == id + 1
                &&& final(self).admin == old(self).admin && final(self).config == old(self).config
                &&& final(self).plans@ == old(self).plans@
                &&& final(self).next_payment_id == old(self).next_payment_id
            },
    {
        if self.config.paused || self.config.emergency_pause {
            return Err(SubscriptionError::ContractPaused);
        }
        if self.has_active_subscription(user, now) {
            return Err(SubscriptionError::SubscriptionAlreadyActive);
        }
        let active = match self.plans.get(&tier_key(tier)) {
            Some(p) => p.is_active,
            None => return Err(SubscriptionError::InvalidTier),
        };
        if !active {
            return Err(SubscriptionError::PlanNotActive);
        }
        let period_seconds = Self::billing_period_to_seconds(billing_period);
        let end_date = now + period_seconds;
        let subscription_id = self.next_subscription_id;
        self.next_subscription_id = subscription_id + 1;
        let subscription = Subscription {
            user,
            plan_tier: tier,
            start_date: now,
            end_date,
            last_billing_date: now,
            next_billing_date: end_date,
            status: SubscriptionStatus::Active,
            auto_renew,
            payment_method,
            subscription_id,
            created_at: now,
        };
        self.subscriptions.insert(subscription_id, subscription);
        let mut list = match self.user_subscriptions.remove(&user) {
            Some(v) => v,
            None => Vec::new(),
        };
        list.push(subscription_id);
        self.user_subscriptions.insert(user, list);
        proof {
            assert forall|u: Address| u != user implies #[trigger] self.user_subs(u) == old(self).user_subs(u) by {}
        }
        Ok(subscription_id)
    }

    /// Pro-rata refund quote of `subscription` at time `now`: the plan price
    /// times the whole percentage of the term that remains, or `None` when
    /// nothing remains, the term is empty or the plan is unknown.
    pub fn calculate_refund(&self, subscription: Subscription, now: u64) -> (r: Option<i128>)
        requires
            subscription.start_date <= now,
            subscription.end_date > now && self.plans@.contains_key(spec_tier_key(subscription.plan_tier))
                ==> i128::MIN <= self.plans@[spec_tier_key(subscription.plan_tier)].price * 100 <= i128::MAX,
        ensures
            ({
                let remaining = if subscription.end_date > now { subscription.end_date - now } else { 0 };
                let total = if subscription.end_date > subscription.start_date {
                    subscription.end_date - subscription.start_date } else { 0 };
                r == if total == 0 || remaining == 0 {
                    None
                } else if !self.plans@.contains_key(spec_tier_key(subscription.plan_tier)) {
                    None
                } else {
                    Some(crate::security_primitives::spec_trunc_div(
                        self.plans@[spec_tier_key(subscription.plan_tier)].price * (remaining * 100 / total),
                        100) as i128)
                }
            }),
    {
        let remaining_time = subscription.end_date.saturating_sub(now);
        let total_time = subscription.end_date.saturating_sub(subscription.start_date);
        if total_time == 0 || remaining_time == 0 {
            return None;
        }
        assert(remaining_time <= total_time);
        let refund_percentage = (remaining_time as i128) * 100 / (total_time as i128);
        assert(refund_percentage <= 100) by (nonlinear_arith)
            requires
                refund_percentage == (remaining_time as int) * 100 / (total_time as int),
                remaining_time <= total_time,
                total_time > 0,
        ;
        assert(refund_percentage >= 0) by (nonlinear_arith)
            requires
                refund_percentage == (remaining_time as int) * 100 / (total_time as int),
                remaining_time >= 0,
                total_time > 0,
        ;
        match self.plans.get(&tier_key(subscription.plan_tier)) {
            Some(plan) => {
                let price = plan.price;
                assert(i128::MIN <= price * refund_percentage <= i128::MAX) by (nonlinear_arith)
                    requires
                        i128::MIN <= price * 100 <= i128::MAX,
                        0 <= refund_percentage <= 100,
                ;
                Some(price * refund_percentage / 100)
            },
            None => None,
        }
    }

    fn is_admin(&self, address: Address) -> (r: bool)
        requires
            self.admin is Some,
        ensures
            r == (self.admin == Some(address)),
    {
        match self.admin {
            Some(a) => a == address,
            None => false,
        }
    }

    /// Cancel a subscription at time `now`. Returns the refund quote that
    /// the cancellation reports.
    pub fn cancel_subscription(&mut self, user: Address, subscription_id: u64, now: u64) -> (r: Result<Option<i128>, SubscriptionError>)
        requires
            old(self).admin is Some,
        ensures
            r is Err ==> *final(self) == *old(self),
            old(self).config.emergency_pause ==> r == Err::<Option<i128>, SubscriptionError>(SubscriptionError::ContractPaused),
            !old(self).config.emergency_pause && !old(self).subscriptions@.contains_key(subscription_id)
                ==> r == Err::<Option<i128>, SubscriptionError>(SubscriptionError::SubscriptionNotFound),
            !old(self).config.emergency_pause && old(self).subscriptions@.contains_key(subscription_id) ==> {
                let s = old(self).subscriptions@[subscription_id];
                if s.user != user && old(self).admin != Some(user) {
                    r == Err::<Option<i128>, SubscriptionError>(SubscriptionError::Unauthorized)
                } else if s.status == SubscriptionStatus::Cancelled {
                    r == Err::<Option<i128>, SubscriptionError>(SubscriptionError::AlreadyCancelled)
                } else {
                    &&& r == Ok::<Option<i128>, SubscriptionError>(None)
                    &&& final(self).subscriptions@ == old(self).subscriptions@.insert(
                        subscription_id,
                        Subscription { status: SubscriptionStatus::Cancelled, end_date: now, ..s },
                    )
                    &&& *final(self) == (SubscriptionManager { subscriptions: final(self).subscriptions, ..*old(self) })
                }
            },
    {
        if self.config.emergency_pause {
            return Err(SubscriptionError::ContractPaused);
        }
        let subscription = match self.subscriptions.get(&subscription_id) {
            Some(s) => *s,
            None => return Err(SubscriptionError::SubscriptionNotFound),
        };
        if subscription.user != user && !self.is_admin(user) {
            return Err(SubscriptionError::Unauthorized);
        }
        if subscription.status == SubscriptionStatus::Cancelled {
            return Err(SubscriptionError::AlreadyCancelled);
        }
        let cancelled = Subscription { status: SubscriptionStatus::Cancelled, end_date: now, ..subscription };
        let refund_amount = if subscription.start_date <= now {
            self.calculate_refund(cancelled, now)
        } else {
            None
        };
        self.subscriptions.insert(subscription_id, cancelled);
        Ok(refund_amount)
    }

    /// Pause the contract (admin only).
    pub fn pause_contract(&mut self, admin: Address, reason: String) -> (r: Result<(), SubscriptionError>)
        requires
            old(self).admin is Some,
        ensures
            r == (if old(self).admin != Some(admin) { Err::<(), SubscriptionError>(SubscriptionError::Unauthorized) } else { Ok(()) }),
            r is Err ==> *final(self) == *old(self),
            r is Ok ==> *final(self) == (SubscriptionManager {
                config: ContractConfig { paused: true, ..old(self).config }, ..*old(self) }),
    {
        if !self.is_admin(admin) {
            return Err(SubscriptionError::Unauthorized);
        }
        self.config.paused = true;
        Ok(())
    }

    /// Unpause the contract (admin only).
    pub fn unpause_contract(&mut self, admin: Address) -> (r: Result<(), SubscriptionError>)
        requires
            old(self).admin is Some,
        ensures
            r == (if old(self).admin != Some(admin) { Err::<(), SubscriptionError>(SubscriptionError::Unauthorized) } else { Ok(()) }),
            r is Err ==> *final(self) == *old(self),
            r is Ok ==> *final(self) == (SubscriptionManager {
                config: ContractConfig { paused: false, ..old(self).config }, ..*old(self) }),
    {
        if !self.is_admin(admin) {
            return Err(SubscriptionError::Unauthorized);
        }
        self.config.paused = false;
        Ok(())
    }

    /// Emergency pause (admin only).
    pub fn emergency_pause(&mut self, admin: Address, reason: String) -> (r: Result<(), SubscriptionError>)
        requires
            old(self).admin is Some,
        ensures
            r == (if old(self).admin != Some(admin) { Err::<(), SubscriptionError>(SubscriptionError::Unauthorized) } else { Ok(()) }),
            r is Err ==> *final(self) == *old(self),
            r is Ok ==> *final(self) == (SubscriptionManager {
                config: ContractConfig { emergency_pause: true, ..old(self).config }, ..*old(self) }),
    {
        if !self.is_admin(admin) {
            return Err(SubscriptionError::Unauthorized);
        }
        self.config.emergency_pause = true;
        Ok(())
    }

    pub fn get_subscription(&self, subscription_id: u64) -> (r: Result<Subscription, SubscriptionError>)
        ensures
            r == (if self.subscriptions@.contains_key(subscription_id) {
                Ok(self.subscriptions@[subscription_id])
            } else {
                Err(SubscriptionError::SubscriptionNotFound)
            }),
    {
        match self.subscriptions.get(&subscription_id) {
            Some(s) => Ok(*s),
            None => Err(SubscriptionError::SubscriptionNotFound),
        }
    }

    pub fn get_user_subscriptions(&self, user: Address) -> (r: Vec<u64>)
        ensures
            r@ == self.user_subs(user),
    {
        let mut out: Vec<u64> = Vec::new();
        match self.user_subscriptions.get(&user) {
            Some(list) => {
                let mut i: usize = 0;
                while i < list.len()
                    invariant
                        0 <= i <= list.len(),
                        out@ == list@.take(i as int),
                    decreases list.len() - i,
                {
                    out.push(list[i]);
                    assert(list@.take(i + 1) =~= list@.take(i as int).push(list@[i as int]));
                    i = i + 1;
                }
                assert(list@.take(list.len() as int) =~= list@);
            },
            None => {},
        }
        out
    }

    pub fn get_plan(&self, tier: SubscriptionTier) -> (r: Result<SubscriptionPlan, SubscriptionError>)
        ensures
            r is Err <==> !self.plans@.contains_key(spec_tier_key(tier)),
            r is Err ==> r == Err::<SubscriptionPlan, SubscriptionError>(SubscriptionError::InvalidTier),
            r matches Ok(p) ==> p.same_as(&self.plans@[spec_tier_key(tier)]),
    {
        match self.plans.get(&tier_key(tier)) {
            Some(p) => Ok(clone_plan(p)),
            None => Err(SubscriptionError::InvalidTier),
        }
    }

    /// All plans, in tier order.
    pub fn get_all_plans(&self) -> (r: Vec<SubscriptionPlan>)
        ensures
            ({
                let keys = seq![0u32, 1u32, 2u32].filter(|k: u32| self.plans@.contains_key(k));
                &&& r@.len() == keys.len()
                &&& forall|i: int| 0 <= i < keys.len() ==> #[trigger] r@[i].same_as(&self.plans@[keys[i]])
            }),
    {
        let mut out: Vec<SubscriptionPlan> = Vec::new();
        let ghost all = seq![0u32, 1u32, 2u32];
        let ghost pred = |k: u32| self.plans@.contains_key(k);
        let mut k: u32 = 0;
        while k < 3
            invariant
                0 <= k <= 3,
                all == seq![0u32, 1u32, 2u32],
                pred == (|k: u32| self.plans@.contains_key(k)),
                out@.len() == all.take(k as int).filter(pred).len(),
                forall|i: int| 0 <= i < out@.len() ==> #[trigger] out@[i].same_as(
                    &self.plans@[all.take(k as int).filter(pred)[i]]),
            decreases 3 - k,
        {
            reveal_with_fuel(Seq::<_>::filter, 1);
            assert(all.take(k + 1).drop_last() =~= all.take(k as int));
            assert(all[k as int] == k);
            match self.plans.get(&k) {
                Some(p) => {
                    out.push(clone_plan(p));
                },
                None => {},
            }
            k = k + 1;
        }
        assert(all.take(3) =~= all);
        out
    }

    /// Replace the plan of `tier` (admin only). The billing period is the
    /// tier's default.
    pub fn update_plan(
        &mut self,
        admin: Address,
        tier: SubscriptionTier,
        name: String,
        description: String,
        price: i128,
        currency: String,
        features: Vec<String>,
        max_users: u32,
        is_active: bool,
    ) -> (r: Result<(), SubscriptionError>)
        requires
            old(self).admin is Some,
        ensures
            r == (if old(self).admin != Some(admin) { Err::<(), SubscriptionError>(SubscriptionError::Unauthorized) } else { Ok(()) }),
            r is Err ==> *final(self) == *old(self),
            r is Ok ==> {
                &&& *final(self) == (SubscriptionManager { plans: final(self).plans, ..*old(self) })
                &&& final(self).plans@.dom() == old(self).plans@.dom().insert(spec_tier_key(tier))
                &&& forall|k: u32| k != spec_tier_key(tier) && #[trigger] old(self).plans@.contains_key(k)
                    ==> final(self).plans@[k] == old(self).plans@[k]
                &&& final(self).plans@[spec_tier_key(tier)] == (SubscriptionPlan {
                    tier,
                    name,
                    description,
                    price,
                    currency,
                    billing_period: spec_default_billing_period(tier),
                    features,
                    max_users,
                    is_active,
                })
            },
    {
        if !self.is_admin(admin) {
            return Err(SubscriptionError::Unauthorized);
        }
        let plan = SubscriptionPlan {
            tier,
            name,
            description,
            price,
            currency,
            billing_period: Self::get_default_billing_period(tier),
            features,
            max_users,
            is_active,
        };
        self.plans.insert(tier_key(tier), plan);
        Ok(())
    }
}

/// Billing periods last 30, 90 and 365 days of 86 400 seconds: a quarter is
/// three months, and a year is longer than four quarters.
pub proof fn lemma_period_lengths()
    ensures
        spec_period_seconds(BillingPeriod::Monthly) == 30 * 86_400,
        spec_period_seconds(BillingPeriod::Quarterly) == 90 * 86_400,
        spec_period_seconds(BillingPeriod::Yearly) == 365 * 86_400,
        spec_period_seconds(BillingPeriod::Quarterly) == 3 * spec_period_seconds(BillingPeriod::Monthly),
        spec_period_seconds(BillingPeriod::Yearly) > 4 * spec_period_seconds(BillingPeriod::Quarterly),
        forall|p: BillingPeriod| #[trigger] spec_period_seconds(p) >= 30 * 86_400,
{
}

} // verus!
