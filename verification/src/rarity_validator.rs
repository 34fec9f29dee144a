//! Rarity scores of game items: the score is a base plus the values of the
//! item's traits, and fixed score bands give the tier; a developer can then
//! attest the result.
use std::collections::HashMap;
use vstd::prelude::*;
use crate::common::Address;

verus! {

broadcast use vstd::std_specs::hash::group_hash_axioms;

#[derive(Copy, Clone, Debug, PartialEq, Eq, Structural)]
pub enum RarityTier {
    Common,
    Uncommon,
    Rare,
    Epic,
    Legendary,
}

/// The recorded rarity of an item.
#[derive(Copy, Clone, Debug, PartialEq, Eq, Structural)]
pub struct RarityData {
    pub score: u32,
    pub tier: RarityTier,
    pub verified: bool,
    pub developer_attestation: Option<Address>,
}

#[derive(Copy, Clone, Debug, PartialEq, Eq, Structural)]
pub enum RarityError {
    NotAuthorized,
    AssetNotFound,
}

/// The sum of the trait values.
pub open spec fn trait_sum(traits: Seq<(String, u32)>) -> nat
    decreases traits.len(),
{
    if traits.len() == 0 { 0 } else { trait_sum(traits.drop_last()) + traits.last().1 as nat }
}

/// The tier of a score: 1000 and up legendary, 750 epic, 400 rare, 150
/// uncommon, below that common.
pub open spec fn tier_of(score: int) -> RarityTier {
    if score >= 1000 {
        RarityTier::Legendary
    } else if score >= 750 {
        RarityTier::Epic
    } else if score >= 400 {
        RarityTier::Rare
    } else if score >= 150 {
        RarityTier::Uncommon
    } else {
        RarityTier::Common
    }
}

/// Storage of the validator.
pub struct RarityValidatorContract {
    pub admin: Option<Address>,
    pub rarities: HashMap<u32, RarityData>,
}

impl RarityValidatorContract {
    /// Fresh storage.
    pub fn new() -> (c: Self)
        ensures
            c.admin is None,
            c.rarities@ == Map::<u32, RarityData>::empty(),
    {
        RarityValidatorContract { admin: None, rarities: HashMap::new() }
    }

    pub fn init(&mut self, admin: Address)
        ensures
            *final(self) == (RarityValidatorContract { admin: Some(admin), ..*old(self) }),
    {
        self.admin = Some(admin);
    }

    /// Score item `asset_id` from `base_score` and the values of its traits,
    /// and record the unattested result.
    pub fn calculate_rarity(&mut self, asset_id: u32, base_score: u32, traits: Vec<(String, u32)>) -> (r: RarityData)
        requires
            base_score + trait_sum(traits@) <= u32::MAX,
        ensures
            r.score == base_score + trait_sum(traits@),
            r.tier == tier_of(r.score as int),
            !r.verified && r.developer_attestation is None,
            *final(self) == (RarityValidatorContract { rarities: final(self).rarities, ..*old(self) }),
            final(self).rarities@ == old(self).rarities@.insert(asset_id, r),
    {
        let mut total: u32 = base_score;
        let mut i: usize = 0;
        while i < traits.len()
            invariant
                0 <= i <= traits.len(),
                total == base_score + trait_sum(traits@.take(i as int)),
                base_score + trait_sum(traits@) <= u32::MAX,
            decreases traits.len() - i,
        {
            proof {
                assert(traits@.take(i + 1).drop_last() =~= traits@.take(i as int));
                lemma_trait_sum_prefix(traits@, i + 1);
            }
            total = total + traits[i].1;
            i = i + 1;
        }
        assert(traits@.take(traits.len() as int) =~= traits@);
        let tier = if total >= 1000 {
            RarityTier::Legendary
        } else if total >= 750 {
            RarityTier::Epic
        } else if total >= 400 {
            RarityTier::Rare
        } else if total >= 150 {
            RarityTier::Uncommon
        } else {
            RarityTier::Common
        };
        let data = RarityData { score: total, tier, verified: false, developer_attestation: None };
        self.rarities.insert(asset_id, data);
        data
    }

    /// `developer` attests the recorded rarity of item `asset_id`.
    pub fn attest_by_developer(&mut self, developer: Address, asset_id: u32) -> (r: Result<(), RarityError>)
        ensures
            r == (if old(self).rarities@.contains_key(asset_id) { Ok(()) } else { Err(RarityError::AssetNotFound) }),
            r is Err ==> *final(self) == *old(self),
            r is Ok ==> *final(self) == (RarityValidatorContract { rarities: final(self).rarities, ..*old(self) })
                && final(self).rarities@ == old(self).rarities@.insert(asset_id, RarityData {
                    verified: true,
                    developer_attestation: Some(developer),
                    ..old(self).rarities@[asset_id]
                }),
    {
        let data = match self.rarities.get(&asset_id) {
            Some(d) => *d,
            None => return Err(RarityError::AssetNotFound),
        };
        self.rarities.insert(asset_id, RarityData { verified: true, developer_attestation: Some(developer), ..data });
        Ok(())
    }

    /// The recorded rarity of item `asset_id`.
    pub fn get_rarity(&self, asset_id: u32) -> (r: Result<RarityData, RarityError>)
        ensures
            r == (if self.rarities@.contains_key(asset_id) {
                Ok(self.rarities@[asset_id])
            } else {
                Err(RarityError::AssetNotFound)
            }),
    {
        match self.rarities.get(&asset_id) {
            Some(d) => Ok(*d),
            None => Err(RarityError::AssetNotFound),
        }
    }
}

/// The values of a prefix add up to no more than those of the whole list.
proof fn lemma_trait_sum_prefix(traits: Seq<(String, u32)>, n: int)
    requires
        0 <= n <= traits.len(),
    ensures
        trait_sum(traits.take(n)) <= trait_sum(traits),
    decreases traits.len() - n,
{
    if n < traits.len() {
        lemma_trait_sum_prefix(traits, n + 1);
        assert(traits.take(n + 1).drop_last() =~= traits.take(n));
    } else {
        assert(traits.take(n) =~= traits);
    }
}

} // verus!
