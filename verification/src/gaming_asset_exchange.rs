//! Game items as ledger assets: minting with metadata, transfer between
//! players, and a marketplace where an owner lists an item and a buyer takes
//! it. A change of owner always ends the item's listing.
use std::collections::HashMap;
use vstd::prelude::*;
use crate::bytes_map::BytesMap;
use crate::common::Address;

verus! {

broadcast use vstd::std_specs::hash::group_hash_axioms;

/// Descriptive data of an item; `attributes` are name/value pairs.
#[derive(Clone, Debug, PartialEq, Eq)]
pub struct AssetMetadata {
    pub game_id: String,
    pub name: String,
    pub description: String,
    pub image_uri: String,
    pub external_url: String,
    pub attributes: Vec<(String, String)>,
}

/// An item offered for sale.
#[derive(Copy, Clone, Debug, PartialEq, Eq, Structural)]
pub struct Listing {
    pub seller: Address,
    pub price: i128,
    pub active: bool,
}

#[derive(Copy, Clone, Debug, PartialEq, Eq, Structural)]
pub enum ExchangeError {
    NotAuthorized,
    AssetNotFound,
    ListingNotFound,
    ListingNotActive,
    InvalidPrice,
    InsufficientFunds,
}

/// The key under which the items of a game are listed: the UTF-8 bytes of
/// its id.
pub open spec fn game_key(game_id: Seq<char>) -> Seq<u8> {
    vstd::utf8::encode_utf8(game_id)
}

/// Storage of the exchange.
pub struct GamingAssetExchangeContract {
    pub admin: Option<Address>,
    pub fee_collector: Option<Address>,
    /// Marketplace fee in hundredths of a percent.
    pub fee_ratio: Option<u32>,
    /// Id of the last minted item.
    pub counter: u32,
    pub assets: HashMap<u32, AssetMetadata>,
    pub owners: HashMap<u32, Address>,
    pub listings: HashMap<u32, Listing>,
    /// Item ids per game, in order of minting.
    pub game_assets: BytesMap<Vec<u32>>,
}

impl GamingAssetExchangeContract {
    /// The storage is in good shape.
    pub open spec fn wf(&self) -> bool {
        self.game_assets.wf()
    }

    /// Every listing is by the item's current owner.
    pub open spec fn listings_by_owners(&self) -> bool {
        forall|id: u32| #[trigger] self.listings@.contains_key(id) ==> {
            &&& self.owners@.contains_key(id)
            &&& self.owners@[id] == self.listings@[id].seller
        }
    }

    pub open spec fn assets_of_game(&self, game_id: Seq<char>) -> Seq<u32> {
        if self.game_assets.view().contains_key(game_key(game_id)) {
            self.game_assets.view()[game_key(game_id)]@
        } else {
            Seq::empty()
        }
    }

    /// Fresh storage with no items.
    pub fn new() -> (c: Self)
        ensures
            c.wf(),
            c.admin is None && c.fee_collector is None && c.fee_ratio is None,
            c.counter == 0,
            c.assets@ == Map::<u32, AssetMetadata>::empty(),
            c.owners@ == Map::<u32, Address>::empty(),
            c.listings@ == Map::<u32, Listing>::empty(),
            c.game_assets.view() == Map::<Seq<u8>, Vec<u32>>::empty(),
            c.listings_by_owners(),
    {
        GamingAssetExchangeContract {
            admin: None,
            fee_collector: None,
            fee_ratio: None,
            counter: 0,
            assets: HashMap::new(),
            owners: HashMap::new(),
            listings: HashMap::new(),
            game_assets: BytesMap::new(),
        }
    }

    /// Set the admin, the fee collector and the fee, and restart the item
    /// counter at 0.
    pub fn init(&mut self, admin: Address, fee_collector: Address, fee_ratio: u32)
        ensures
            final(self).admin == Some(admin),
            final(self).fee_collector == Some(fee_collector),
            final(self).fee_ratio == Some(fee_ratio),
            final(self).counter == 0,
            final(self).assets == old(self).assets,
            final(self).owners == old(self).owners,
            final(self).listings == old(self).listings,
            final(self).game_assets == old(self).game_assets,
    {
        self.admin = Some(admin);
        self.fee_collector = Some(fee_collector);
        self.fee_ratio = Some(fee_ratio);
        self.counter = 0;
    }

    /// The item ids of a game, in order of minting.
    pub fn get_assets_by_game(&self, game_id: &String) -> (r: Vec<u32>)
        requires
            self.wf(),
        ensures
            r@ == self.assets_of_game(game_id@),
    {
        let key = game_id.as_str().as_bytes_vec();
        match self.game_assets.get(key.as_slice()) {
            Some(v) => {
                let mut out: Vec<u32> = Vec::new();
                let mut i: usize = 0;
                while i < v.len()
                    invariant
                        0 <= i <= v.len(),
                        out@ == v@.take(i as int),
                    decreases v.len() - i,
                {
                    out.push(v[i]);
                    assert(v@.take(i + 1) =~= v@.take(i as int).push(v@[i as int]));
                    i = i + 1;
                }
                assert(v@.take(v.len() as int) =~= v@);
                out
            },
            None => Vec::new(),
        }
    }

    /// Mint an item for game `game_id`, owned by `to`. Returns its id.
    pub fn mint_asset(
        &mut self,
        caller: Address,
        to: Address,
        game_id: String,
        name: String,
        description: String,
        image_uri: String,
        external_url: String,
        attributes: Vec<(String, String)>,
    ) -> (r: u32)
        requires
            old(self).wf(),
            old(self).counter < u32::MAX,
        ensures
            final(self).wf(),
            r == old(self).counter + 1,
            final(self).counter == r,
            final(self).assets@.dom() == old(self).assets@.dom().insert(r),
            forall|id: u32| id != r && #[trigger] old(self).assets@.contains_key(id) ==> final(self).assets@[id] == old(self).assets@[id],
            final(self).assets@[r].game_id@ == game_id@,
            final(self).assets@[r].name@ == name@,
            final(self).assets@[r].description@ == description@,
            final(self).assets@[r].image_uri@ == image_uri@,
            final(self).assets@[r].external_url@ == external_url@,
            final(self).assets@[r].attributes == attributes,
            final(self).owners@ == old(self).owners@.insert(r, to),
            final(self).listings == old(self).listings,
            final(self).assets_of_game(game_id@) == old(self).assets_of_game(game_id@).push(r),
            forall|g: Seq<u8>| g != game_key(game_id@) ==> #[trigger] final(self).game_assets.view().contains_key(g)
                == old(self).game_assets.view().contains_key(g),
            forall|g: Seq<u8>| g != game_key(game_id@) && #[trigger] old(self).game_assets.view().contains_key(g)
                ==> final(self).game_assets.view()[g] == old(self).game_assets.view()[g],
            final(self).admin == old(self).admin && final(self).fee_collector == old(self).fee_collector,
            final(self).fee_ratio == old(self).fee_ratio,
            old(self).listings_by_owners() && !old(self).listings@.contains_key(r) ==> final(self).listings_by_owners(),
    {
        let counter = self.counter + 1;
        let mut list = self.get_assets_by_game(&game_id);
        list.push(counter);
        let key = game_id.as_str().as_bytes_vec();
        let metadata = AssetMetadata { game_id, name, description, image_uri, external_url, attributes };
        self.assets.insert(counter, metadata);
        self.owners.insert(counter, to);
        self.counter = counter;
        self.game_assets.insert(key, list);
        proof {
            if old(self).listings_by_owners() && !old(self).listings@.contains_key(counter) {
                assert forall|id: u32| #[trigger] self.listings@.contains_key(id) implies
                    self.owners@.contains_key(id) && self.owners@[id] == self.listings@[id].seller by {
                    assert(old(self).listings@.contains_key(id));
                }
            }
        }
        counter
    }

    /// `from` gives item `asset_id` to `to`; its listing, if any, ends.
    pub fn transfer_asset(&mut self, from: Address, to: Address, asset_id: u32) -> (r: Result<(), ExchangeError>)
        ensures
            r == (if !old(self).owners@.contains_key(asset_id) {
                Err(ExchangeError::AssetNotFound)
            } else if old(self).owners@[asset_id] != from {
                Err(ExchangeError::NotAuthorized)
            } else {
                Ok(())
            }),
            r is Err ==> *final(self) == *old(self),
            r is Ok ==> *final(self) == (GamingAssetExchangeContract {
                owners: final(self).owners,
                listings: final(self).listings,
                ..*old(self)
            }) && final(self).owners@ == old(self).owners@.insert(asset_id, to)
                && final(self).listings@ == old(self).listings@.remove(asset_id),
            old(self).listings_by_owners() ==> final(self).listings_by_owners(),
    {
        let owner = match self.owners.get(&asset_id) {
            Some(o) => *o,
            None => return Err(ExchangeError::AssetNotFound),
        };
        if from != owner {
            return Err(ExchangeError::NotAuthorized);
        }
        if self.listings.contains_key(&asset_id) {
            self.listings.remove(&asset_id);
        }
        self.owners.insert(asset_id, to);
        proof {
            assert(self.listings@ =~= old(self).listings@.remove(asset_id));
        }
        Ok(())
    }

    /// The owner lists item `asset_id` at a positive `price`.
    pub fn list_asset(&mut self, seller: Address, asset_id: u32, price: i128) -> (r: Result<(), ExchangeError>)
        ensures
            r == (if price <= 0 {
                Err(ExchangeError::InvalidPrice)
            } else if !old(self).owners@.contains_key(asset_id) {
                Err(ExchangeError::AssetNotFound)
            } else if old(self).owners@[asset_id] != seller {
                Err(ExchangeError::NotAuthorized)
            } else {
                Ok(())
            }),
            r is Err ==> *final(self) == *old(self),
            r is Ok ==> *final(self) == (GamingAssetExchangeContract { listings: final(self).listings, ..*old(self) })
                && final(self).listings@ == old(self).listings@.insert(asset_id, Listing { seller, price, active: true }),
            old(self).listings_by_owners() ==> final(self).listings_by_owners(),
    {
        if price <= 0 {
            return Err(ExchangeError::InvalidPrice);
        }
        let owner = match self.owners.get(&asset_id) {
            Some(o) => *o,
            None => return Err(ExchangeError::AssetNotFound),
        };
        if owner != seller {
            return Err(ExchangeError::NotAuthorized);
        }
        self.listings.insert(asset_id, Listing { seller, price, active: true });
        Ok(())
    }

    /// The seller withdraws the listing of item `asset_id`.
    pub fn delist_asset(&mut self, seller: Address, asset_id: u32) -> (r: Result<(), ExchangeError>)
        ensures
            r == (if !old(self).listings@.contains_key(asset_id) {
                Err(ExchangeError::ListingNotFound)
            } else if old(self).listings@[asset_id].seller != seller {
                Err(ExchangeError::NotAuthorized)
            } else {
                Ok(())
            }),
            r is Err ==> *final(self) == *old(self),
            r is Ok ==> *final(self) == (GamingAssetExchangeContract { listings: final(self).listings, ..*old(self) })
                && final(self).listings@ == old(self).listings@.remove(asset_id),
            old(self).listings_by_owners() ==> final(self).listings_by_owners(),
    {
        let listing = match self.listings.get(&asset_id) {
            Some(l) => *l,
            None => return Err(ExchangeError::ListingNotFound),
        };
        if listing.seller != seller {
            return Err(ExchangeError::NotAuthorized);
        }
        self.listings.remove(&asset_id);
        Ok(())
    }

    /// `buyer` takes the listed item `asset_id`; the listing ends.
    pub fn buy_asset(&mut self, buyer: Address, asset_id: u32) -> (r: Result<(), ExchangeError>)
        ensures
            r == (if !old(self).listings@.contains_key(asset_id) {
                Err(ExchangeError::ListingNotFound)
            } else if !old(self).listings@[asset_id].active {
                Err(ExchangeError::ListingNotActive)
            } else {
                Ok(())
            }),
            r is Err ==> *final(self) == *old(self),
            r is Ok ==> *final(self) == (GamingAssetExchangeContract {
                owners: final(self).owners,
                listings: final(self).listings,
                ..*old(self)
            }) && final(self).owners@ == old(self).owners@.insert(asset_id, buyer)
                && final(self).listings@ == old(self).listings@.remove(asset_id),
            old(self).listings_by_owners() ==> final(self).listings_by_owners(),
    {
        let listing = match self.listings.get(&asset_id) {
            Some(l) => *l,
            None => return Err(ExchangeError::ListingNotFound),
        };
        if !listing.active {
            return Err(ExchangeError::ListingNotActive);
        }
        self.owners.insert(asset_id, buyer);
        self.listings.remove(&asset_id);
        Ok(())
    }

    /// The metadata of item `asset_id`.
    pub fn get_asset(&self, asset_id: u32) -> (r: Result<&AssetMetadata, ExchangeError>)
        ensures
            r is Err <==> !self.assets@.contains_key(asset_id),
            r is Err ==> r == Err::<&AssetMetadata, ExchangeError>(ExchangeError::AssetNotFound),
            r matches Ok(m) ==> *m == self.assets@[asset_id],
    {
        match self.assets.get(&asset_id) {
            Some(m) => Ok(m),
            None => Err(ExchangeError::AssetNotFound),
        }
    }

    /// The owner of item `asset_id`.
    pub fn get_owner(&self, asset_id: u32) -> (r: Result<Address, ExchangeError>)
        ensures
            r == (if self.owners@.contains_key(asset_id) {
                Ok(self.owners@[asset_id])
            } else {
                Err(ExchangeError::AssetNotFound)
            }),
    {
        match self.owners.get(&asset_id) {
            Some(o) => Ok(*o),
            None => Err(ExchangeError::AssetNotFound),
        }
    }

    /// The listing of item `asset_id`.
    pub fn get_listing(&self, asset_id: u32) -> (r: Result<Listing, ExchangeError>)
        ensures
            r == (if self.listings@.contains_key(asset_id) {
                Ok(self.listings@[asset_id])
            } else {
                Err(ExchangeError::ListingNotFound)
            }),
    {
        match self.listings.get(&asset_id) {
            Some(l) => Ok(*l),
            None => Err(ExchangeError::ListingNotFound),
        }
    }

    pub fn asset_exists(&self, asset_id: u32) -> (r: bool)
        ensures
            r == self.assets@.contains_key(asset_id),
    {
        self.assets.contains_key(&asset_id)
    }

    pub fn is_listed(&self, asset_id: u32) -> (r: bool)
        ensures
            r == self.listings@.contains_key(asset_id),
    {
        self.listings.contains_key(&asset_id)
    }
}

} // verus!
