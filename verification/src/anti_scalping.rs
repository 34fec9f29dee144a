//! Resale rules against ticket scalping: resale prices are capped at a
//! markup over face value, and only verified buyers resell-buy, up to a
//! per-event limit; every resale price is kept in the ticket's history.
use std::collections::HashMap;
use vstd::prelude::*;
use crate::common::{Address, get_or, map_get_or, pair_key, spec_pair_key};
use crate::security_primitives::spec_trunc_div;

verus! {

broadcast use vstd::std_specs::hash::group_hash_axioms;

/// A ticket offered for resale.
#[derive(Copy, Clone, Debug, PartialEq, Eq, Structural)]
pub struct ResaleListing {
    pub ticket_id: u32,
    pub seller: Address,
    pub price: i128,
}

#[derive(Copy, Clone, Debug, PartialEq, Eq, Structural)]
pub enum ScalpingError {
    IdentityNotVerified,
    PurchaseLimitExceeded,
    PriceAboveCeiling,
    NotAuthorized,
    ListingNotFound,
}

/// The highest resale price of a ticket: face value plus `markup` percent
/// of it, truncated.
pub open spec fn price_ceiling(face_value: i128, markup: u32) -> int {
    face_value + spec_trunc_div(face_value * markup, 100)
}

/// Storage of the resale market.
pub struct AntiScalpingContract {
    pub admin: Option<Address>,
    pub verified: HashMap<Address, bool>,
    /// Resale purchases per `(buyer, event_id)`, keyed by `pair_key`.
    pub purchase_count: HashMap<u128, u32>,
    /// Purchase limit per event; read as 4 where unset.
    pub purchase_limit: HashMap<u32, u32>,
    /// Largest markup over face value, in percent; read as 0 where unset.
    pub max_markup: Option<u32>,
    /// Organizer royalty on resales, in percent.
    pub royalty: Option<u32>,
    pub listings: HashMap<u32, ResaleListing>,
    /// Resale prices per ticket, oldest first.
    pub history: HashMap<u32, Vec<i128>>,
}

impl AntiScalpingContract {
    pub open spec fn markup(&self) -> u32 {
        match self.max_markup { Some(m) => m, None => 0 }
    }

    pub open spec fn limit_of(&self, event_id: u32) -> u32 {
        map_get_or(self.purchase_limit@, event_id, 4u32)
    }

    pub open spec fn purchases_of(&self, buyer: Address, event_id: u32) -> u32 {
        map_get_or(self.purchase_count@, spec_pair_key(buyer, event_id as u64), 0u32)
    }

    pub open spec fn history_of(&self, ticket_id: u32) -> Seq<i128> {
        if self.history@.contains_key(ticket_id) { self.history@[ticket_id]@ } else { Seq::empty() }
    }

    /// Fresh storage.
    pub fn new() -> (c: Self)
        ensures
            c.admin is None && c.max_markup is None && c.royalty is None,
            c.verified@ == Map::<Address, bool>::empty(),
            c.purchase_count@ == Map::<u128, u32>::empty(),
            c.purchase_limit@ == Map::<u32, u32>::empty(),
            c.listings@ == Map::<u32, ResaleListing>::empty(),
            c.history@ == Map::<u32, Vec<i128>>::empty(),
    {
        AntiScalpingContract {
            admin: None,
            verified: HashMap::new(),
            purchase_count: HashMap::new(),
            purchase_limit: HashMap::new(),
            max_markup: None,
            royalty: None,
            listings: HashMap::new(),
            history: HashMap::new(),
        }
    }

    /// Set the admin, a 15 % markup cap and a 5 % royalty.
    pub fn init(&mut self, admin: Address)
        ensures
            *final(self) == (AntiScalpingContract {
                admin: Some(admin),
                max_markup: Some(15u32),
                royalty: Some(5u32),
                ..*old(self)
            }),
    {
        self.admin = Some(admin);
        self.max_markup = Some(15);
        self.royalty = Some(5);
    }

    /// Mark `user` as identity-verified.
    pub fn verify_identity(&mut self, admin: Address, user: Address)
        ensures
            *final(self) == (AntiScalpingContract { verified: final(self).verified, ..*old(self) }),
            final(self).verified@ == old(self).verified@.insert(user, true),
    {
        self.verified.insert(user, true);
    }

    /// Set the resale purchase limit of event `event_id`.
    pub fn set_purchase_limit(&mut self, admin: Address, event_id: u32, limit: u32)
        ensures
            *final(self) == (AntiScalpingContract { purchase_limit: final(self).purchase_limit, ..*old(self) }),
            final(self).purchase_limit@ == old(self).purchase_limit@.insert(event_id, limit),
    {
        self.purchase_limit.insert(event_id, limit);
    }

    /// `seller` lists ticket `ticket_id` of face value `face_value` for
    /// resale at `price`, which may not exceed the markup cap.
    pub fn list_for_resale(&mut self, seller: Address, ticket_id: u32, face_value: i128, price: i128) -> (r: Result<(), ScalpingError>)
        requires
            i128::MIN <= face_value * old(self).markup() <= i128::MAX,
            i128::MIN <= price_ceiling(face_value, old(self).markup()) <= i128::MAX,
        ensures
            r == (if price > price_ceiling(face_value, old(self).markup()) {
                Err(ScalpingError::PriceAboveCeiling)
            } else {
                Ok(())
            }),
            r is Err ==> *final(self) == *old(self),
            r is Ok ==> *final(self) == (AntiScalpingContract { listings: final(self).listings, ..*old(self) })
                && final(self).listings@ == old(self).listings@.insert(ticket_id, ResaleListing { ticket_id, seller, price }),
    {
        let markup: u32 = match self.max_markup {
            Some(m) => m,
            None => 0,
        };
        let max_allowed = face_value + (face_value * (markup as i128) / 100);
        if price > max_allowed {
            return Err(ScalpingError::PriceAboveCeiling);
        }
        self.listings.insert(ticket_id, ResaleListing { ticket_id, seller, price });
        Ok(())
    }

    /// A verified `buyer` under the event's purchase limit buys the resale
    /// listing of ticket `ticket_id`; the price joins the ticket's history.
    pub fn buy_resale_ticket(&mut self, buyer: Address, ticket_id: u32, event_id: u32) -> (r: Result<(), ScalpingError>)
        ensures
            r == (if !map_get_or(old(self).verified@, buyer, false) {
                Err(ScalpingError::IdentityNotVerified)
            } else if old(self).purchases_of(buyer, event_id) >= old(self).limit_of(event_id) {
                Err(ScalpingError::PurchaseLimitExceeded)
            } else if !old(self).listings@.contains_key(ticket_id) {
                Err(ScalpingError::ListingNotFound)
            } else {
                Ok(())
            }),
            r is Err ==> *final(self) == *old(self),
            r is Ok ==> {
                &&& *final(self) == (AntiScalpingContract {
                    purchase_count: final(self).purchase_count,
                    listings: final(self).listings,
                    history: final(self).history,
                    ..*old(self)
                })
                &&& final(self).purchase_count@ == old(self).purchase_count@.insert(
                    spec_pair_key(buyer, event_id as u64), (old(self).purchases_of(buyer, event_id) + 1) as u32)
                &&& final(self).purchases_of(buyer, event_id) <= old(self).limit_of(event_id)
                &&& final(self).listings@ == old(self).listings@.remove(ticket_id)
                &&& final(self).history@.dom() == old(self).history@.dom().insert(ticket_id)
                &&& final(self).history_of(ticket_id) == old(self).history_of(ticket_id).push(old(self).listings@[ticket_id].price)
                &&& forall|t: u32| t != ticket_id ==> #[trigger] final(self).history_of(t) == old(self).history_of(t)
            },
    {
        if !get_or(&self.verified, &buyer, false) {
            return Err(ScalpingError::IdentityNotVerified);
        }
        let limit = get_or(&self.purchase_limit, &event_id, 4u32);
        let key = pair_key(buyer, event_id as u64);
        let current = get_or(&self.purchase_count, &key, 0u32);
        if current >= limit {
            return Err(ScalpingError::PurchaseLimitExceeded);
        }
        let listing = match self.listings.get(&ticket_id) {
            Some(l) => *l,
            None => return Err(ScalpingError::ListingNotFound),
        };
        self.purchase_count.insert(key, current + 1);
        let mut h = match self.history.remove(&ticket_id) {
            Some(v) => v,
            None => Vec::new(),
        };
        h.push(listing.price);
        self.history.insert(ticket_id, h);
        self.listings.remove(&ticket_id);
        proof {
            assert forall|t: u32| t != ticket_id implies #[trigger] self.history_of(t) == old(self).history_of(t) by {}
            assert(self.history@.dom() =~= old(self).history@.dom().insert(ticket_id));
        }
        Ok(())
    }
}

/// The markup cap is a percentage of face value: for a non-negative face
/// value, a price is within the ceiling exactly when it is at most
/// `100 + markup` percent of the face value. With the 15 % cap, a face value
/// of 1 000 allows 1 150 and refuses 1 151.
pub proof fn lemma_ceiling_is_percentage(face_value: i128, markup: u32, price: int)
    requires
        face_value >= 0,
    ensures
        price <= price_ceiling(face_value, markup) <==> 100 * price <= face_value * (100 + markup),
        face_value <= price_ceiling(face_value, markup),
{
    let f = face_value as int;
    let m = markup as int;
    let q = (f * m) / 100;
    assert(f * m >= 0) by (nonlinear_arith) requires f >= 0, m >= 0;
    assert(spec_trunc_div(f * m, 100) == q);
    assert(100 * q <= f * m < 100 * q + 100) by (nonlinear_arith) requires f * m >= 0, q == (f * m) / 100;
    assert(f * (100 + m) == 100 * f + f * m) by (nonlinear_arith);
    if price <= f + q {
        assert(100 * price <= 100 * f + 100 * q);
    } else {
        assert(100 * price >= 100 * (f + q + 1));
    }
    assert(q >= 0);
}

} // verus!
