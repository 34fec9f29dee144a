//! Membership NFTs for token-gated access control.
//!
//! Each token carries a [`Tier`] and an optional `soulbound` flag that
//! disables transfer. The current owner of a token holds that token's tier.
use std::collections::HashMap;
use vstd::prelude::*;
use crate::common::{Address, get_or, map_get_or};

verus! {

broadcast use vstd::std_specs::hash::group_hash_axioms;

/// Membership tier.
#[derive(Copy, Clone, Debug, PartialEq, Eq, Structural)]
pub enum Tier {
    Bronze,
    Silver,
    Gold,
}

impl Tier {
    /// Numeric ordering of tiers; higher is more privileged.
    pub open spec fn spec_rank(self) -> u32 {
        match self {
            Tier::Bronze => 1,
            Tier::Silver => 2,
            Tier::Gold => 3,
        }
    }

    /// Numeric ordering used to compare tiers. Higher rank = more privileged.
    #[verifier::when_used_as_spec(spec_rank)]
    pub fn rank(self) -> (r: u32)
        ensures
            r == self.spec_rank(),
    {
        match self {
            Tier::Bronze => 1,
            Tier::Silver => 2,
            Tier::Gold => 3,
        }
    }
}

/// Display name and benefit bitmask of a tier.
#[derive(Clone, Debug)]
pub struct TierConfig {
    pub name: String,
    /// Free-form bitmask of the perks this tier unlocks.
    pub benefit_flags: u32,
}

/// One minted membership.
#[derive(Copy, Clone, Debug, PartialEq, Eq, Structural)]
pub struct TokenInfo {
    pub token_id: u128,
    pub owner: Address,
    pub tier: Tier,
    pub minted_at: u64,
    pub soulbound: bool,
}

/// Reasons for which the membership contract refuses a call.
#[derive(Copy, Clone, Debug, PartialEq, Eq, Structural)]
pub enum NftError {
    AlreadyInitialized,
    NotInitialized,
    Unauthorized,
    TokenNotFound,
    NotOwner,
    /// Attempted to transfer a token minted with `soulbound = true`.
    Soulbound,
    /// Attempted to mint into a tier that has no [`TierConfig`] yet.
    TierNotConfigured,
}

/// `s` without its first occurrence of `x` (unchanged when `x` is absent).
pub open spec fn remove_first(s: Seq<u128>, x: u128) -> Seq<u128>
    decreases s.len(),
{
    if s.len() == 0 {
        s
    } else if s[0] == x {
        s.drop_first()
    } else {
        seq![s[0]].add(remove_first(s.drop_first(), x))
    }
}

proof fn lemma_remove_first_at(s: Seq<u128>, x: u128, i: int)
    requires
        0 <= i < s.len(),
        s[i] == x,
        forall|j: int| 0 <= j < i ==> s[j] != x,
    ensures
        remove_first(s, x) == s.remove(i),
    decreases s.len(),
{
    if i == 0 {
        assert(s.drop_first() =~= s.remove(0));
    } else {
        lemma_remove_first_at(s.drop_first(), x, i - 1);
        assert(seq![s[0]].add(s.drop_first().remove(i - 1)) =~= s.remove(i));
    }
}

proof fn lemma_remove_first_absent(s: Seq<u128>, x: u128)
    requires
        forall|j: int| 0 <= j < s.len() ==> s[j] != x,
    ensures
        remove_first(s, x) == s,
    decreases s.len(),
{
    if s.len() > 0 {
        lemma_remove_first_absent(s.drop_first(), x);
        assert(seq![s[0]].add(s.drop_first()) =~= s);
    }
}

/// Storage of the membership contract.
pub struct MembershipNftContract {
    pub admin: Option<Address>,
    /// Identifier the next mint receives.
    pub next_token_id: u128,
    pub tokens: HashMap<u128, TokenInfo>,
    /// Tokens owned by an address, in the order they were received.
    pub owned: HashMap<Address, Vec<u128>>,
    /// Tier configuration keyed by [`Tier::rank`].
    pub tier_configs: HashMap<u32, TierConfig>,
    /// Live tokens per tier, keyed by [`Tier::rank`].
    pub tier_counts: HashMap<u32, u32>,
}

impl MembershipNftContract {
    /// The tokens listed for `owner`.
    pub open spec fn owned_seq(&self, owner: Address) -> Seq<u128> {
        if self.owned@.contains_key(owner) {
            self.owned@[owner]@
        } else {
            Seq::empty()
        }
    }

    /// The number of live tokens recorded for `tier`.
    pub open spec fn count_of(&self, tier: Tier) -> u32 {
        map_get_or(self.tier_counts@, tier.spec_rank(), 0u32)
    }

    /// The highest tier among the live tokens in `ids` (the earliest wins ties).
    pub open spec fn best_tier(&self, ids: Seq<u128>) -> Option<Tier>
        decreases ids.len(),
    {
        if ids.len() == 0 {
            None
        } else {
            let b = self.best_tier(ids.drop_last());
            let id = ids.last();
            if self.tokens@.contains_key(id) {
                let t = self.tokens@[id].tier;
                match b {
                    Some(bt) => if bt.spec_rank() >= t.spec_rank() { Some(bt) } else { Some(t) },
                    None => Some(t),
                }
            } else {
                b
            }
        }
    }

    /// Storage with only what a call may change unchanged.
    pub open spec fn same_config(&self, other: &Self) -> bool {
        &&& self.admin == other.admin
        &&& self.tier_configs@ == other.tier_configs@
    }

    /// Fresh, uninitialised storage.
    pub fn new() -> (c: Self)
        ensures
            c.admin is None,
            c.next_token_id == 1,
            c.tokens@ == Map::<u128, TokenInfo>::empty(),
            c.owned@ == Map::<Address, Vec<u128>>::empty(),
            c.tier_configs@ == Map::<u32, TierConfig>::empty(),
            c.tier_counts@ == Map::<u32, u32>::empty(),
    {
        MembershipNftContract {
            admin: None,
            next_token_id: 1,
            tokens: HashMap::new(),
            owned: HashMap::new(),
            tier_configs: HashMap::new(),
            tier_counts: HashMap::new(),
        }
    }

    pub fn init(&mut self, admin: Address) -> (r: Result<(), NftError>)
        ensures
            r == (if old(self).admin is Some { Err::<(), NftError>(NftError::AlreadyInitialized) } else { Ok(()) }),
            r is Err ==> *final(self) == *old(self),
            r is Ok ==> final(self).admin == Some(admin) && final(self).next_token_id == 1
                && final(self).tokens@ == old(self).tokens@ && final(self).owned@ == old(self).owned@
                && final(self).tier_configs@ == old(self).tier_configs@
                && final(self).tier_counts@ == old(self).tier_counts@,
    {
        if self.admin.is_some() {
            return Err(NftError::AlreadyInitialized);
        }
        self.admin = Some(admin);
        self.next_token_id = 1;
        Ok(())
    }

    fn require_admin(&self, caller: Address) -> (r: Result<(), NftError>)
        ensures
            r == (match self.admin {
                None => Err(NftError::NotInitialized),
                Some(a) => if a == caller { Ok(()) } else { Err(NftError::Unauthorized) },
            }),
    {
        match self.admin {
            None => Err(NftError::NotInitialized),
            Some(a) => if a == caller { Ok(()) } else { Err(NftError::Unauthorized) },
        }
    }

    pub fn set_tier_config(&mut self, admin: Address, tier: Tier, config: TierConfig) -> (r: Result<(), NftError>)
        ensures
            r == (match old(self).admin {
                None => Err(NftError::NotInitialized),
                Some(a) => if a == admin { Ok(()) } else { Err(NftError::Unauthorized) },
            }),
            r is Err ==> *final(self) == *old(self),
            r is Ok ==> final(self).tier_configs@ == old(self).tier_configs@.insert(tier.spec_rank(), config)
                && final(self).admin == old(self).admin && final(self).tokens@ == old(self).tokens@
                && final(self).owned@ == old(self).owned@ && final(self).tier_counts@ == old(self).tier_counts@
                && final(self).next_token_id == old(self).next_token_id,
    {
        self.require_admin(admin)?;
        self.tier_configs.insert(tier.rank(), config);
        Ok(())
    }

    fn add_owner_token(&mut self, owner: Address, token_id: u128)
        ensures
            final(self).owned@.contains_key(owner),
            final(self).owned_seq(owner) == old(self).owned_seq(owner).push(token_id),
            forall|a: Address| a != owner ==> #[trigger] final(self).owned@.contains_key(a) == old(self).owned@.contains_key(a)
                && (old(self).owned@.contains_key(a) ==> final(self).owned@[a] == old(self).owned@[a]),
            final(self).admin == old(self).admin,
            final(self).next_token_id == old(self).next_token_id,
            final(self).tokens@ == old(self).tokens@,
            final(self).tier_configs@ == old(self).tier_configs@,
            final(self).tier_counts@ == old(self).tier_counts@,
    {
        let mut list = match self.owned.remove(&owner) {
            Some(v) => v,
            None => Vec::new(),
        };
        list.push(token_id);
        self.owned.insert(owner, list);
    }

    fn remove_owner_token(&mut self, owner: Address, token_id: u128)
        ensures
            final(self).owned_seq(owner) == remove_first(old(self).owned_seq(owner), token_id),
            final(self).owned@.contains_key(owner) <==> final(self).owned_seq(owner).len() > 0,
            forall|a: Address| a != owner ==> #[trigger] final(self).owned@.contains_key(a) == old(self).owned@.contains_key(a)
                && (old(self).owned@.contains_key(a) ==> final(self).owned@[a] == old(self).owned@[a]),
            final(self).admin == old(self).admin,
            final(self).next_token_id == old(self).next_token_id,
            final(self).tokens@ == old(self).tokens@,
            final(self).tier_configs@ == old(self).tier_configs@,
            final(self).tier_counts@ == old(self).tier_counts@,
    {
        let mut list = match self.owned.remove(&owner) {
            Some(v) => v,
            None => Vec::new(),
        };
        let ghost s = list@;
        assert(s == old(self).owned_seq(owner));
        let mut i: usize = 0;
        let mut found = false;
        while i < list.len()
            invariant_except_break
                list@ == s,
                0 <= i <= list.len(),
                forall|j: int| 0 <= j < i ==> s[j] != token_id,
                !found,
            ensures
                found ==> list@ == remove_first(s, token_id),
                !found ==> list@ == s && forall|j: int| 0 <= j < s.len() ==> s[j] != token_id,
            decreases list.len() - i,
        {
            if list[i] == token_id {
                proof {
                    lemma_remove_first_at(s, token_id, i as int);
                }
                list.remove(i);
                found = true;
                break;
            }
            i = i + 1;
        }
        if !found {
            proof {
                lemma_remove_first_absent(s, token_id);
            }
        }
        if list.len() > 0 {
            self.owned.insert(owner, list);
        }
    }

    fn adjust_tier_count(&mut self, tier: Tier, up: bool)
        ensures
            final(self).tier_counts@ == old(self).tier_counts@.insert(
                tier.spec_rank(),
                if up {
                    if old(self).count_of(tier) == u32::MAX { u32::MAX } else { (old(self).count_of(tier) + 1) as u32 }
                } else {
                    if old(self).count_of(tier) == 0 { 0u32 } else { (old(self).count_of(tier) - 1) as u32 }
                },
            ),
            final(self).admin == old(self).admin,
            final(self).next_token_id == old(self).next_token_id,
            final(self).tokens@ == old(self).tokens@,
            final(self).owned@ == old(self).owned@,
            final(self).tier_configs@ == old(self).tier_configs@,
    {
        let key = tier.rank();
        let cur = get_or(&self.tier_counts, &key, 0u32);
        let next = if up { cur.saturating_add(1) } else { cur.saturating_sub(1) };
        self.tier_counts.insert(key, next);
    }

    /// Mint a new membership to `to` at time `now`. Returns the token id.
    pub fn mint(&mut self, admin: Address, to: Address, tier: Tier, soulbound: bool, now: u64) -> (r: Result<u128, NftError>)
        requires
            old(self).next_token_id < u128::MAX,
        ensures
            old(self).admin is None ==> r == Err::<u128, NftError>(NftError::NotInitialized),
            old(self).admin matches Some(a) && a != admin ==> r == Err::<u128, NftError>(NftError::Unauthorized),
            old(self).admin == Some(admin) && !old(self).tier_configs@.contains_key(tier.spec_rank())
                ==> r == Err::<u128, NftError>(NftError::TierNotConfigured),
            old(self).admin == Some(admin) && old(self).tier_configs@.contains_key(tier.spec_rank()) ==> r
                == Ok::<u128, NftError>(old(self).next_token_id),
            r is Err ==> *final(self) == *old(self),
            r matches Ok(id) ==> {
                &&& final(self).tokens@ == old(self).tokens@.insert(id, TokenInfo {
                    token_id: id, owner: to, tier, minted_at: now, soulbound })
                &&& final(self).owned_seq(to) == old(self).owned_seq(to).push(id)
                &&& final(self).count_of(tier) == if old(self).count_of(tier) == u32::MAX { u32::MAX } else {
                    (old(self).count_of(tier) + 1) as u32 }
                &&& final(self).next_token_id == id + 1
                &&& final(self).same_config(old(self))
            },
    {
        self.require_admin(admin)?;
        if !self.tier_configs.contains_key(&tier.rank()) {
            return Err(NftError::TierNotConfigured);
        }
        let token_id = self.next_token_id;
        let info = TokenInfo { token_id, owner: to, tier, minted_at: now, soulbound };
        self.tokens.insert(token_id, info);
        self.add_owner_token(to, token_id);
        self.adjust_tier_count(tier, true);
        self.next_token_id = token_id + 1;
        Ok(token_id)
    }

    pub fn transfer(&mut self, from: Address, to: Address, token_id: u128) -> (r: Result<(), NftError>)
        ensures
            !old(self).tokens@.contains_key(token_id) ==> r == Err::<(), NftError>(NftError::TokenNotFound),
            old(self).tokens@.contains_key(token_id) && old(self).tokens@[token_id].owner != from
                ==> r == Err::<(), NftError>(NftError::NotOwner),
            old(self).tokens@.contains_key(token_id) && old(self).tokens@[token_id].owner == from
                && old(self).tokens@[token_id].soulbound ==> r == Err::<(), NftError>(NftError::Soulbound),
            old(self).tokens@.contains_key(token_id) && old(self).tokens@[token_id].owner == from
                && !old(self).tokens@[token_id].soulbound ==> r is Ok,
            r is Err ==> *final(self) == *old(self),
            r is Ok ==> {
                &&& final(self).tokens@ == old(self).tokens@.insert(
                    token_id,
                    TokenInfo { owner: to, ..old(self).tokens@[token_id] },
                )
                &&& from != to ==> final(self).owned_seq(from) == remove_first(old(self).owned_seq(from), token_id)
                &&& from != to ==> final(self).owned_seq(to) == old(self).owned_seq(to).push(token_id)
                &&& from == to ==> final(self).owned_seq(to) == remove_first(old(self).owned_seq(from), token_id).push(token_id)
                &&& final(self).tier_counts@ == old(self).tier_counts@
                &&& final(self).next_token_id == old(self).next_token_id
                &&& final(self).same_config(old(self))
            },
    {
        let info = match self.tokens.get(&token_id) {
            Some(i) => *i,
            None => return Err(NftError::TokenNotFound),
        };
        if info.owner != from {
            return Err(NftError::NotOwner);
        }
        if info.soulbound {
            return Err(NftError::Soulbound);
        }
        self.remove_owner_token(from, token_id);
        self.add_owner_token(to, token_id);
        self.tokens.insert(token_id, TokenInfo { owner: to, ..info });
        Ok(())
    }

    pub fn burn(&mut self, admin: Address, token_id: u128) -> (r: Result<(), NftError>)
        ensures
            old(self).admin is None ==> r == Err::<(), NftError>(NftError::NotInitialized),
            old(self).admin matches Some(a) && a != admin ==> r == Err::<(), NftError>(NftError::Unauthorized),
            old(self).admin == Some(admin) && !old(self).tokens@.contains_key(token_id)
                ==> r == Err::<(), NftError>(NftError::TokenNotFound),
            old(self).admin == Some(admin) && old(self).tokens@.contains_key(token_id) ==> r is Ok,
            r is Err ==> *final(self) == *old(self),
            r is Ok ==> {
                let info = old(self).tokens@[token_id];
                &&& final(self).tokens@ == old(self).tokens@.remove(token_id)
                &&& final(self).owned_seq(info.owner) == remove_first(old(self).owned_seq(info.owner), token_id)
                &&& final(self).count_of(info.tier) == if old(self).count_of(info.tier) == 0 { 0u32 } else {
                    (old(self).count_of(info.tier) - 1) as u32 }
                &&& final(self).next_token_id == old(self).next_token_id
                &&& final(self).same_config(old(self))
            },
    {
        self.require_admin(admin)?;
        let info = match self.tokens.get(&token_id) {
            Some(i) => *i,
            None => return Err(NftError::TokenNotFound),
        };
        self.remove_owner_token(info.owner, token_id);
        self.adjust_tier_count(info.tier, false);
        self.tokens.remove(&token_id);
        Ok(())
    }

    pub fn token_info(&self, token_id: u128) -> (r: Option<TokenInfo>)
        ensures
            r == (if self.tokens@.contains_key(token_id) { Some(self.tokens@[token_id]) } else { None::<TokenInfo> }),
    {
        match self.tokens.get(&token_id) {
            Some(i) => Some(*i),
            None => None,
        }
    }

    pub fn owner_of(&self, token_id: u128) -> (r: Result<Address, NftError>)
        ensures
            r == (if self.tokens@.contains_key(token_id) { Ok(self.tokens@[token_id].owner) } else {
                Err(NftError::TokenNotFound) }),
    {
        match self.tokens.get(&token_id) {
            Some(i) => Ok(i.owner),
            None => Err(NftError::TokenNotFound),
        }
    }

    pub fn tier_of(&self, token_id: u128) -> (r: Result<Tier, NftError>)
        ensures
            r == (if self.tokens@.contains_key(token_id) { Ok(self.tokens@[token_id].tier) } else {
                Err(NftError::TokenNotFound) }),
    {
        match self.tokens.get(&token_id) {
            Some(i) => Ok(i.tier),
            None => Err(NftError::TokenNotFound),
        }
    }

    /// The highest tier among all tokens currently owned by `owner`, or
    /// `None` if they hold no memberships.
    pub fn tier_of_owner(&self, owner: Address) -> (r: Option<Tier>)
        ensures
            r == self.best_tier(self.owned_seq(owner)),
    {
        let list = match self.owned.get(&owner) {
            Some(v) => v,
            None => return None,
        };
        let ghost ids = list@;
        let mut best: Option<Tier> = None;
        let mut i: usize = 0;
        assert(ids.take(0) =~= Seq::<u128>::empty());
        while i < list.len()
            invariant
                ids == list@,
                ids == self.owned_seq(owner),
                0 <= i <= list.len(),
                best == self.best_tier(ids.take(i as int)),
            decreases list.len() - i,
        {
            let id = list[i];
            assert(ids.take(i + 1).drop_last() =~= ids.take(i as int));
            match self.tokens.get(&id) {
                Some(info) => {
                    best = match best {
                        Some(t) => if t.rank() >= info.tier.rank() { Some(t) } else { Some(info.tier) },
                        None => Some(info.tier),
                    };
                },
                None => {},
            }
            i = i + 1;
        }
        assert(ids.take(list.len() as int) =~= ids);
        best
    }

    pub fn tokens_of(&self, owner: Address) -> (r: Vec<u128>)
        ensures
            r@ == self.owned_seq(owner),
    {
        let mut out: Vec<u128> = Vec::new();
        match self.owned.get(&owner) {
            Some(list) => {
                let mut i: usize = 0;
                while i < list.len()
                    invariant
                        0 <= i <= list.len(),
                        out@ == list@.take(i as int),
                    decreases list.len() - i,
                {
                    out.push(list[i]);
                    assert(list@.take(i + 1) =~= list@.take(i as int).push(list@[i as int]));
                    i = i + 1;
                }
                assert(list@.take(list.len() as int) =~= list@);
            },
            None => {},
        }
        out
    }

    pub fn tier_config(&self, tier: Tier) -> (r: Option<TierConfig>)
        ensures
            r is Some <==> self.tier_configs@.contains_key(tier.spec_rank()),
            r matches Some(c) ==> c.name@ == self.tier_configs@[tier.spec_rank()].name@
                && c.benefit_flags == self.tier_configs@[tier.spec_rank()].benefit_flags,
    {
        match self.tier_configs.get(&tier.rank()) {
            Some(c) => Some(TierConfig { name: c.name.clone(), benefit_flags: c.benefit_flags }),
            None => None,
        }
    }

    pub fn tier_count(&self, tier: Tier) -> (r: u32)
        ensures
            r == self.count_of(tier),
    {
        get_or(&self.tier_counts, &tier.rank(), 0u32)
    }

    pub fn total_minted(&self) -> (r: u128)
        requires
            self.next_token_id >= 1,
        ensures
            r == self.next_token_id - 1,
    {
        self.next_token_id - 1
    }
}

/// The best tier of a list of tokens is at least the tier of every live
/// token in it.
proof fn lemma_best_tier_covers(c: MembershipNftContract, ids: Seq<u128>, id: u128)
    requires
        ids.contains(id),
        c.tokens@.contains_key(id),
    ensures
        c.best_tier(ids) matches Some(b) && b.spec_rank() >= c.tokens@[id].tier.spec_rank(),
    decreases ids.len(),
{
    if ids.last() != id {
        let k = choose|k: int| 0 <= k < ids.len() && ids[k] == id;
        assert(ids.drop_last()[k] == id);
        lemma_best_tier_covers(c, ids.drop_last(), id);
    }
}

/// Access follows ownership: whoever holds a token holds at least that
/// token's tier, so a transfer hands the tier to the new owner.
pub proof fn lemma_holder_has_tier(c: MembershipNftContract, owner: Address, token_id: u128)
    requires
        c.owned_seq(owner).contains(token_id),
        c.tokens@.contains_key(token_id),
    ensures
        c.best_tier(c.owned_seq(owner)) matches Some(b) && b.spec_rank() >= c.tokens@[token_id].tier.spec_rank(),
{
    lemma_best_tier_covers(c, c.owned_seq(owner), token_id);
}

} // verus!
