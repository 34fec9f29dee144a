//! Bounty escrow: funders pool a reward; a solver submits work; an oracle,
//! or on dispute a vote of arbiters, either pays the pool to the solver or
//! refunds every funder; funders reclaim an open bounty after its deadline.
use std::collections::HashMap;
use vstd::prelude::*;
use crate::common::{Address, Payout, contains_address, get_or, lemma_pair_key_injective, map_get_or, pair_key, payout_total, spec_pair_key};

verus! {

broadcast use vstd::std_specs::hash::group_hash_axioms;

/// Lifecycle state of a bounty.
#[derive(Copy, Clone, Debug, PartialEq, Eq, Structural)]
pub enum BountyStatus {
    /// Accepting funds; no submission yet.
    Open,
    /// A solver has submitted work; awaiting oracle verification.
    UnderReview,
    /// A funder or creator raised a dispute; awaiting arbiter votes.
    Disputed,
    /// Reward paid to the solver.
    Completed,
    /// Funds returned to funders.
    Refunded,
}

/// A bounty record.
#[derive(Copy, Clone, Debug, PartialEq, Eq, Structural)]
pub struct Bounty {
    pub id: u32,
    pub creator: Address,
    pub token: Address,
    /// Total tokens pooled by all funders.
    pub total_reward: i128,
    /// Funders may reclaim after this timestamp if still open.
    pub deadline: u64,
    pub status: BountyStatus,
    /// Solver who submitted work.
    pub solver: Option<Address>,
    pub votes_for: u32,
    pub votes_against: u32,
    /// Arbiter votes required to resolve a dispute.
    pub arbiter_threshold: u32,
}

#[derive(Copy, Clone, Debug, PartialEq, Eq, Structural)]
pub enum BountyError {
    AlreadyInitialized,
    NotInitialized,
    Unauthorized,
    NotFound,
    InvalidStatus,
    ZeroAmount,
    DeadlinePassed,
    DeadlineNotPassed,
    AlreadyVoted,
    NotArbiter,
    Overflow,
}

/// Walk the funders of bounty `id` in order, zeroing each positive
/// contribution and paying it back. Returns the contributions afterwards and
/// the payouts.
pub open spec fn refund_fold(contributions: Map<u128, i128>, id: u32, funders: Seq<Address>) -> (Map<u128, i128>, Seq<Payout>)
    decreases funders.len(),
{
    if funders.len() == 0 {
        (contributions, Seq::empty())
    } else {
        let (m, ps) = refund_fold(contributions, id, funders.drop_last());
        let f = funders.last();
        let k = spec_pair_key(id as u64, f);
        let a = map_get_or(m, k, 0i128);
        if a > 0 {
            (m.insert(k, 0i128), ps.push(Payout { to: f, amount: a }))
        } else {
            (m, ps)
        }
    }
}

/// What the funders in `funders` have in bounty `id`: the sum of their
/// positive contributions.
pub open spec fn pooled(contributions: Map<u128, i128>, id: u32, funders: Seq<Address>) -> int
    decreases funders.len(),
{
    if funders.len() == 0 {
        0
    } else {
        let a = map_get_or(contributions, spec_pair_key(id as u64, funders.last()), 0i128);
        pooled(contributions, id, funders.drop_last()) + if a > 0 { a as int } else { 0 }
    }
}

/// A refund only touches the contributions of the funders it walks.
proof fn lemma_refund_fold_frame(contributions: Map<u128, i128>, id: u32, funders: Seq<Address>, k: u128)
    requires
        forall|j: int| 0 <= j < funders.len() ==> spec_pair_key(id as u64, #[trigger] funders[j]) != k,
    ensures
        map_get_or(refund_fold(contributions, id, funders).0, k, 0i128) == map_get_or(contributions, k, 0i128),
    decreases funders.len(),
{
    if funders.len() > 0 {
        lemma_refund_fold_frame(contributions, id, funders.drop_last(), k);
        assert(spec_pair_key(id as u64, funders[funders.len() - 1]) != k);
    }
}

/// A refund to distinct funders pays out exactly what they have in the
/// bounty: each positive contribution, once.
pub proof fn lemma_refund_pays_pool(contributions: Map<u128, i128>, id: u32, funders: Seq<Address>)
    requires
        funders.no_duplicates(),
    ensures
        payout_total(refund_fold(contributions, id, funders).1) == pooled(contributions, id, funders),
    decreases funders.len(),
{
    if funders.len() > 0 {
        let rest = funders.drop_last();
        let f = funders.last();
        assert(rest.no_duplicates());
        lemma_refund_pays_pool(contributions, id, rest);
        let k = spec_pair_key(id as u64, f);
        assert forall|j: int| 0 <= j < rest.len() implies spec_pair_key(id as u64, #[trigger] rest[j]) != k by {
            assert(rest[j] == funders[j]);
            assert(funders[j] != funders[funders.len() - 1]);
            lemma_pair_key_injective(id as u64, rest[j], id as u64, f);
        }
        lemma_refund_fold_frame(contributions, id, rest, k);
        let (m, ps) = refund_fold(contributions, id, rest);
        let a = map_get_or(m, k, 0i128);
        if a > 0 {
            let p = Payout { to: f, amount: a };
            assert(ps.push(p).drop_last() =~= ps);
        }
    }
}

/// The positive part of a contribution.
pub open spec fn positive_part(a: i128) -> int {
    if a > 0 { a as int } else { 0 }
}

/// Changing a contribution that none of `funders` holds leaves what they
/// pool unchanged.
proof fn lemma_pooled_frame(m: Map<u128, i128>, id: u32, funders: Seq<Address>, k: u128, v: i128)
    requires
        forall|j: int| 0 <= j < funders.len() ==> spec_pair_key(id as u64, #[trigger] funders[j]) != k,
    ensures
        pooled(m.insert(k, v), id, funders) == pooled(m, id, funders),
    decreases funders.len(),
{
    if funders.len() > 0 {
        let rest = funders.drop_last();
        assert forall|j: int| 0 <= j < rest.len() implies spec_pair_key(id as u64, #[trigger] rest[j]) != k by {
            assert(rest[j] == funders[j]);
        }
        lemma_pooled_frame(m, id, rest, k, v);
        assert(spec_pair_key(id as u64, funders[funders.len() - 1]) != k);
    }
}

/// Setting the contribution of `f`, listed once among `funders`, to `v`
/// moves what they pool by the change in its positive part.
proof fn lemma_pooled_update(m: Map<u128, i128>, id: u32, funders: Seq<Address>, f: Address, v: i128)
    requires
        funders.no_duplicates(),
        funders.contains(f),
    ensures
        ({
            let k = spec_pair_key(id as u64, f);
            pooled(m.insert(k, v), id, funders) == pooled(m, id, funders) - positive_part(map_get_or(m, k, 0i128))
                + positive_part(v)
        }),
    decreases funders.len(),
{
    let k = spec_pair_key(id as u64, f);
    let rest = funders.drop_last();
    let last = funders.last();
    assert(rest.no_duplicates());
    if last == f {
        assert forall|j: int| 0 <= j < rest.len() implies spec_pair_key(id as u64, #[trigger] rest[j]) != k by {
            assert(rest[j] == funders[j]);
            assert(funders[j] != funders[funders.len() - 1]);
            lemma_pair_key_injective(id as u64, rest[j], id as u64, f);
        }
        lemma_pooled_frame(m, id, rest, k, v);
    } else {
        let i = choose|i: int| 0 <= i < funders.len() && funders[i] == f;
        assert(i < funders.len() - 1);
        assert(rest[i] == f);
        lemma_pooled_update(m, id, rest, f, v);
        lemma_pair_key_injective(id as u64, last, id as u64, f);
    }
}

/// After a refund no funder it walked holds a positive contribution.
proof fn lemma_refund_clears(m: Map<u128, i128>, id: u32, funders: Seq<Address>)
    ensures
        forall|j: int| 0 <= j < funders.len() ==>
            map_get_or(refund_fold(m, id, funders).0, spec_pair_key(id as u64, #[trigger] funders[j]), 0i128) <= 0,
    decreases funders.len(),
{
    if funders.len() > 0 {
        let rest = funders.drop_last();
        lemma_refund_clears(m, id, rest);
        assert forall|j: int| 0 <= j < funders.len() implies
            map_get_or(refund_fold(m, id, funders).0, spec_pair_key(id as u64, #[trigger] funders[j]), 0i128) <= 0 by {
            if j < funders.len() - 1 {
                assert(rest[j] == funders[j]);
            }
        }
    }
}

/// Funders none of whom holds a positive contribution pool nothing.
proof fn lemma_pooled_zero(m: Map<u128, i128>, id: u32, funders: Seq<Address>)
    requires
        forall|j: int| 0 <= j < funders.len() ==> map_get_or(m, spec_pair_key(id as u64, #[trigger] funders[j]), 0i128) <= 0,
    ensures
        pooled(m, id, funders) == 0,
    decreases funders.len(),
{
    if funders.len() > 0 {
        let rest = funders.drop_last();
        assert forall|j: int| 0 <= j < rest.len() implies map_get_or(m, spec_pair_key(id as u64, #[trigger] rest[j]), 0i128) <= 0 by {
            assert(rest[j] == funders[j]);
        }
        lemma_pooled_zero(m, id, rest);
        assert(map_get_or(m, spec_pair_key(id as u64, funders[funders.len() - 1]), 0i128) <= 0);
    }
}

/// A refunded bounty pools nothing: the refund clears every contribution of
/// its funders.
pub proof fn lemma_refund_empties_pool(contributions: Map<u128, i128>, id: u32, funders: Seq<Address>)
    ensures
        pooled(refund_fold(contributions, id, funders).0, id, funders) == 0,
{
    lemma_refund_clears(contributions, id, funders);
    lemma_pooled_zero(refund_fold(contributions, id, funders).0, id, funders);
}

/// Storage of the escrow.
pub struct BountyEscrowContract {
    pub admin: Option<Address>,
    pub oracle: Option<Address>,
    pub arbiters: Vec<Address>,
    pub next_id: u32,
    pub bounties: HashMap<u32, Bounty>,
    /// Contribution per `(id, funder)`, keyed by `pair_key`.
    pub contributions: HashMap<u128, i128>,
    /// Funders of each bounty, in order of first contribution.
    pub funders: HashMap<u32, Vec<Address>>,
    /// Arbiter votes cast per `(id, arbiter)`, keyed by `pair_key`.
    pub arbiter_voted: HashMap<u128, bool>,
}

impl BountyEscrowContract {
    pub open spec fn contribution(&self, id: u32, funder: Address) -> i128 {
        map_get_or(self.contributions@, spec_pair_key(id as u64, funder), 0i128)
    }

    /// The reward of bounty `id` is what its funders have pooled in it.
    pub open spec fn pool_matches(&self, id: u32) -> bool {
        &&& self.bounties@.contains_key(id)
        &&& self.bounties@[id].total_reward == pooled(self.contributions@, id, self.funders_of(id))
    }

    /// Every contribution to bounty `id` is positive or zero, and every
    /// positive one belongs to a listed funder.
    pub open spec fn ledger_sound(&self, id: u32) -> bool {
        forall|f: Address| #[trigger] self.contribution(id, f) != 0
            ==> self.contribution(id, f) > 0 && self.funders_of(id).contains(f)
    }

    /// No bounty lists a funder twice.
    pub open spec fn funders_distinct(&self) -> bool {
        forall|id: u32| #[trigger] self.funders_of(id).no_duplicates()
    }

    pub open spec fn funders_of(&self, id: u32) -> Seq<Address> {
        if self.funders@.contains_key(id) { self.funders@[id]@ } else { Seq::empty() }
    }

    /// Fresh, uninitialised storage.
    pub fn new() -> (c: Self)
        ensures
            c.admin is None,
            c.oracle is None,
            c.next_id == 1,
            c.bounties@ == Map::<u32, Bounty>::empty(),
            c.contributions@ == Map::<u128, i128>::empty(),
            c.funders@ == Map::<u32, Vec<Address>>::empty(),
            c.arbiter_voted@ == Map::<u128, bool>::empty(),
            c.funders_distinct(),
    {
        BountyEscrowContract {
            admin: None,
            oracle: None,
            arbiters: Vec::new(),
            next_id: 1,
            bounties: HashMap::new(),
            contributions: HashMap::new(),
            funders: HashMap::new(),
            arbiter_voted: HashMap::new(),
        }
    }

    /// Initialise the escrow. The threshold given here is only announced;
    /// each bounty carries its own.
    pub fn initialize(&mut self, admin: Address, oracle: Address, arbiters: Vec<Address>, arbiter_threshold: u32) -> (r: Result<(), BountyError>)
        ensures
            r == (if old(self).admin is Some { Err::<(), BountyError>(BountyError::AlreadyInitialized) } else { Ok(()) }),
            r is Err ==> *final(self) == *old(self),
            r is Ok ==> *final(self) == (BountyEscrowContract {
                admin: Some(admin), oracle: Some(oracle), arbiters, next_id: 1, ..*old(self) }),
    {
        if self.admin.is_some() {
            return Err(BountyError::AlreadyInitialized);
        }
        self.admin = Some(admin);
        self.oracle = Some(oracle);
        self.arbiters = arbiters;
        self.next_id = 1;
        Ok(())
    }

    /// Create a bounty at time `now`; returns its id.
    pub fn create_bounty(&mut self, creator: Address, token: Address, deadline: u64, arbiter_threshold: u32, now: u64) -> (r: Result<u32, BountyError>)
        requires
            old(self).next_id < u32::MAX,
        ensures
            r == (if deadline <= now { Err(BountyError::DeadlinePassed) } else { Ok(old(self).next_id) }),
            r is Err ==> *final(self) == *old(self),
            r matches Ok(id) ==> {
                &&& *final(self) == (BountyEscrowContract {
                    next_id: (id + 1) as u32,
                    bounties: final(self).bounties,
                    funders: final(self).funders,
                    ..*old(self)
                })
                &&& final(self).bounties@ == old(self).bounties@.insert(id, Bounty {
                    id,
                    creator,
                    token,
                    total_reward: 0,
                    deadline,
                    status: BountyStatus::Open,
                    solver: None,
                    votes_for: 0,
                    votes_against: 0,
                    arbiter_threshold,
                })
                &&& final(self).funders@.dom() == old(self).funders@.dom().insert(id)
                &&& final(self).funders_of(id) == Seq::<Address>::empty()
                &&& forall|j: u32| j != id ==> #[trigger] final(self).funders_of(j) == old(self).funders_of(j)
                &&& final(self).pool_matches(id)
                &&& (forall|f: Address| #[trigger] old(self).contribution(id, f) == 0) ==> final(self).ledger_sound(id)
            },
            old(self).funders_distinct() ==> final(self).funders_distinct(),
    {
        if deadline <= now {
            return Err(BountyError::DeadlinePassed);
        }
        let id = self.next_id;
        self.next_id = id + 1;
        self.bounties.insert(id, Bounty {
            id,
            creator,
            token,
            total_reward: 0,
            deadline,
            status: BountyStatus::Open,
            solver: None,
            votes_for: 0,
            votes_against: 0,
            arbiter_threshold,
        });
        self.funders.insert(id, Vec::new());
        proof {
            assert forall|j: u32| j != id implies #[trigger] self.funders_of(j) == old(self).funders_of(j) by {}
            if forall|f: Address| #[trigger] old(self).contribution(id, f) == 0 {
                assert forall|g: Address| #[trigger] self.contribution(id, g) != 0
                    implies self.contribution(id, g) > 0 && self.funders_of(id).contains(g) by {
                    assert(old(self).contribution(id, g) == 0);
                }
            }
        }
        Ok(id)
    }

    /// Contribute `amount` to bounty `id` at time `now`.
    pub fn fund_bounty(&mut self, funder: Address, id: u32, amount: i128, now: u64) -> (r: Result<(), BountyError>)
        requires
            amount > 0 && old(self).bounties@.contains_key(id) && old(self).bounties@[id].status == BountyStatus::Open
                && now <= old(self).bounties@[id].deadline ==> {
                &&& old(self).contribution(id, funder) + amount <= i128::MAX
                &&& old(self).bounties@[id].total_reward + amount <= i128::MAX
            },
        ensures
            r == (if amount <= 0 {
                Err(BountyError::ZeroAmount)
            } else if !old(self).bounties@.contains_key(id) {
                Err(BountyError::NotFound)
            } else if old(self).bounties@[id].status != BountyStatus::Open {
                Err(BountyError::InvalidStatus)
            } else if now > old(self).bounties@[id].deadline {
                Err(BountyError::DeadlinePassed)
            } else {
                Ok(())
            }),
            r is Err ==> *final(self) == *old(self),
            r is Ok ==> {
                let b = old(self).bounties@[id];
                &&& final(self).bounties@ == old(self).bounties@.insert(id, Bounty {
                    total_reward: (b.total_reward + amount) as i128, ..b })
                &&& final(self).contributions@ == old(self).contributions@.insert(
                    spec_pair_key(id as u64, funder), (old(self).contribution(id, funder) + amount) as i128)
                &&& final(self).funders_of(id) == if old(self).funders_of(id).contains(funder) {
                    old(self).funders_of(id)
                } else {
                    old(self).funders_of(id).push(funder)
                }
                &&& forall|j: u32| j != id ==> #[trigger] final(self).funders_of(j) == old(self).funders_of(j)
                &&& final(self).admin == old(self).admin && final(self).oracle == old(self).oracle
                &&& final(self).arbiters == old(self).arbiters && final(self).next_id == old(self).next_id
                &&& final(self).arbiter_voted@ == old(self).arbiter_voted@
            },
            old(self).funders_distinct() ==> final(self).funders_distinct(),
            r is Ok && old(self).funders_distinct() && old(self).ledger_sound(id) && old(self).pool_matches(id)
                ==> final(self).ledger_sound(id) && final(self).pool_matches(id),
    {
        if amount <= 0 {
            return Err(BountyError::ZeroAmount);
        }
        let bounty = match self.bounties.get(&id) {
            Some(b) => *b,
            None => return Err(BountyError::NotFound),
        };
        if bounty.status != BountyStatus::Open {
            return Err(BountyError::InvalidStatus);
        }
        if now > bounty.deadline {
            return Err(BountyError::DeadlinePassed);
        }
        let ck = pair_key(id as u64, funder);
        let prev = get_or(&self.contributions, &ck, 0i128);
        self.contributions.insert(ck, prev + amount);
        let mut list = match self.funders.remove(&id) {
            Some(v) => v,
            None => Vec::new(),
        };
        if !contains_address(&list, funder) {
            list.push(funder);
        }
        self.funders.insert(id, list);
        self.bounties.insert(id, Bounty { total_reward: bounty.total_reward + amount, ..bounty });
        proof {
            assert forall|j: u32| j != id implies #[trigger] self.funders_of(j) == old(self).funders_of(j) by {}
            if old(self).funders_distinct() {
                let s0 = old(self).funders_of(id);
                assert(s0.no_duplicates());
                assert forall|j: u32| #[trigger] self.funders_of(j).no_duplicates() by {
                    if j == id {
                        if !s0.contains(funder) {
                            let s1 = s0.push(funder);
                            assert(self.funders_of(id) == s1);
                            assert forall|a: int, b: int| 0 <= a < s1.len() && 0 <= b < s1.len() && a != b
                                implies s1[a] != s1[b] by {
                                if a < s0.len() && b < s0.len() {
                                    assert(s1[a] == s0[a] && s1[b] == s0[b]);
                                } else if a < s0.len() {
                                    assert(s1[a] == s0[a]);
                                } else if b < s0.len() {
                                    assert(s1[b] == s0[b]);
                                }
                            }
                        }
                    } else {
                        assert(old(self).funders_of(j).no_duplicates());
                    }
                }
            }
            if old(self).funders_distinct() && old(self).ledger_sound(id) && old(self).pool_matches(id) {
                let s0 = old(self).funders_of(id);
                let m0 = old(self).contributions@;
                assert(s0.no_duplicates());
                assert(old(self).contribution(id, funder) >= 0);
                if s0.contains(funder) {
                    lemma_pooled_update(m0, id, s0, funder, (prev + amount) as i128);
                } else {
                    assert(old(self).contribution(id, funder) == 0);
                    assert forall|j: int| 0 <= j < s0.len() implies spec_pair_key(id as u64, #[trigger] s0[j]) != ck by {
                        assert(s0[j] != funder);
                        lemma_pair_key_injective(id as u64, s0[j], id as u64, funder);
                    }
                    lemma_pooled_frame(m0, id, s0, ck, (prev + amount) as i128);
                    assert(s0.push(funder).drop_last() =~= s0);
                }
                assert forall|g: Address| #[trigger] self.contribution(id, g) != 0
                    implies self.contribution(id, g) > 0 && self.funders_of(id).contains(g) by {
                    if g != funder {
                        lemma_pair_key_injective(id as u64, g, id as u64, funder);
                        assert(self.contribution(id, g) == old(self).contribution(id, g));
                        assert(old(self).contribution(id, g) != 0);
                        if !s0.contains(funder) {
                            let k = choose|k: int| 0 <= k < s0.len() && s0[k] == g;
                            assert(s0.push(funder)[k] == g);
                        }
                    } else {
                        if !s0.contains(funder) {
                            assert(s0.push(funder)[s0.len() as int] == funder);
                        }
                    }
                }
            }
        }
        Ok(())
    }

    /// A solver submits work for bounty `id`.
    pub fn submit_work(&mut self, solver: Address, id: u32) -> (r: Result<(), BountyError>)
        ensures
            r == (if !old(self).bounties@.contains_key(id) {
                Err(BountyError::NotFound)
            } else if old(self).bounties@[id].status != BountyStatus::Open {
                Err(BountyError::InvalidStatus)
            } else {
                Ok(())
            }),
            r is Err ==> *final(self) == *old(self),
            r is Ok ==> *final(self) == (BountyEscrowContract { bounties: final(self).bounties, ..*old(self) })
                && final(self).bounties@ == old(self).bounties@.insert(id, Bounty {
                    status: BountyStatus::UnderReview, solver: Some(solver), ..old(self).bounties@[id] }),
    {
        let bounty = match self.bounties.get(&id) {
            Some(b) => *b,
            None => return Err(BountyError::NotFound),
        };
        if bounty.status != BountyStatus::Open {
            return Err(BountyError::InvalidStatus);
        }
        self.bounties.insert(id, Bounty { status: BountyStatus::UnderReview, solver: Some(solver), ..bounty });
        Ok(())
    }

    /// Pay the pool of bounty `id` (record `b`) to its solver.
    fn pay_solver(&mut self, id: u32, b: Bounty) -> (r: Result<Vec<Payout>, BountyError>)
        ensures
            b.solver is None <==> r is Err,
            r is Err ==> r == Err::<Vec<Payout>, BountyError>(BountyError::NotFound),
            r is Err ==> *final(self) == *old(self),
            r matches Ok(ps) ==> {
                &&& *final(self) == (BountyEscrowContract { bounties: final(self).bounties, ..*old(self) })
                &&& final(self).bounties@ == old(self).bounties@.insert(id, Bounty {
                    status: BountyStatus::Completed, total_reward: 0, ..b })
                &&& ps@ == if b.total_reward > 0 { seq![Payout { to: b.solver->0, amount: b.total_reward }] } else {
                    Seq::<Payout>::empty() }
            },
    {
        let solver = match b.solver {
            Some(s) => s,
            None => return Err(BountyError::NotFound),
        };
        let amount = b.total_reward;
        self.bounties.insert(id, Bounty { status: BountyStatus::Completed, total_reward: 0, ..b });
        let mut ps: Vec<Payout> = Vec::new();
        if amount > 0 {
            ps.push(Payout { to: solver, amount });
        }
        proof {
            if amount <= 0 {
                assert(ps@ =~= Seq::<Payout>::empty());
            }
        }
        Ok(ps)
    }

    /// Refund every funder of bounty `id` (record `b`).
    fn do_refund(&mut self, id: u32, b: Bounty) -> (ps: Vec<Payout>)
        ensures
            ({
                let (m, pays) = refund_fold(old(self).contributions@, id, old(self).funders_of(id));
                &&& final(self).contributions@ == m
                &&& ps@ == pays
            }),
            final(self).bounties@ == old(self).bounties@.insert(id, Bounty {
                status: BountyStatus::Refunded, total_reward: 0, ..b }),
            *final(self) == (BountyEscrowContract {
                bounties: final(self).bounties, contributions: final(self).contributions, ..*old(self) }),
            final(self).pool_matches(id),
    {
        let fs: Vec<Address> = match self.funders.get(&id) {
            Some(v) => {
                let mut c: Vec<Address> = Vec::new();
                let mut i: usize = 0;
                while i < v.len()
                    invariant
                        0 <= i <= v.len(),
                        c@ == v@.take(i as int),
                    decreases v.len() - i,
                {
                    c.push(v[i]);
                    assert(v@.take(i + 1) =~= v@.take(i as int).push(v@[i as int]));
                    i = i + 1;
                }
                assert(v@.take(v.len() as int) =~= v@);
                c
            },
            None => Vec::new(),
        };
        let ghost s = fs@;
        assert(s == old(self).funders_of(id));
        let mut ps: Vec<Payout> = Vec::new();
        let mut i: usize = 0;
        assert(s.take(0) =~= Seq::<Address>::empty());
        while i < fs.len()
            invariant
                0 <= i <= fs.len(),
                s == fs@,
                s == old(self).funders_of(id),
                (self.contributions@, ps@) == refund_fold(old(self).contributions@, id, s.take(i as int)),
                *self == (BountyEscrowContract { contributions: self.contributions, ..*old(self) }),
            decreases fs.len() - i,
        {
            let f = fs[i];
            assert(s.take(i + 1).drop_last() =~= s.take(i as int));
            let ck = pair_key(id as u64, f);
            let amount = get_or(&self.contributions, &ck, 0i128);
            if amount > 0 {
                self.contributions.insert(ck, 0i128);
                ps.push(Payout { to: f, amount });
            }
            i = i + 1;
        }
        assert(s.take(fs.len() as int) =~= s);
        self.bounties.insert(id, Bounty { status: BountyStatus::Refunded, total_reward: 0, ..b });
        proof {
            lemma_refund_empties_pool(old(self).contributions@, id, s);
        }
        ps
    }

    /// The oracle reports on the submission for bounty `id`: approval pays
    /// the solver, rejection refunds the funders. Returns the payouts.
    pub fn oracle_verify(&mut self, oracle: Address, id: u32, approved: bool) -> (r: Result<Vec<Payout>, BountyError>)
        ensures
            old(self).oracle is None ==> r == Err::<Vec<Payout>, BountyError>(BountyError::NotInitialized),
            old(self).oracle matches Some(o) && o != oracle ==> r == Err::<Vec<Payout>, BountyError>(
                BountyError::Unauthorized),
            old(self).oracle == Some(oracle) && !old(self).bounties@.contains_key(id) ==> r == Err::<
                Vec<Payout>,
                BountyError,
            >(BountyError::NotFound),
            old(self).oracle == Some(oracle) && old(self).bounties@.contains_key(id)
                && old(self).bounties@[id].status != BountyStatus::UnderReview ==> r == Err::<Vec<Payout>, BountyError>(
                BountyError::InvalidStatus),
            old(self).oracle == Some(oracle) && old(self).bounties@.contains_key(id)
                && old(self).bounties@[id].status == BountyStatus::UnderReview ==> if approved
                && old(self).bounties@[id].solver is None {
                r == Err::<Vec<Payout>, BountyError>(BountyError::NotFound)
            } else {
                r is Ok
            },
            r is Err ==> *final(self) == *old(self),
            r matches Ok(ps) ==> {
                let b = old(self).bounties@[id];
                &&& old(self).oracle == Some(oracle) && b.status == BountyStatus::UnderReview
                &&& approved ==> b.solver is Some && final(self).bounties@ == old(self).bounties@.insert(id, Bounty {
                    status: BountyStatus::Completed, total_reward: 0, ..b })
                    && ps@ == (if b.total_reward > 0 { seq![Payout { to: b.solver->0, amount: b.total_reward }] } else {
                    Seq::<Payout>::empty() })
                    && final(self).contributions@ == old(self).contributions@
                &&& !approved ==> final(self).bounties@ == old(self).bounties@.insert(id, Bounty {
                    status: BountyStatus::Refunded, total_reward: 0, ..b })
                    && (final(self).contributions@, ps@) == refund_fold(old(self).contributions@, id, old(self).funders_of(id))
                    && final(self).pool_matches(id)
                &&& *final(self) == (BountyEscrowContract {
                    bounties: final(self).bounties, contributions: final(self).contributions, ..*old(self) })
            },
    {
        match self.oracle {
            None => return Err(BountyError::NotInitialized),
            Some(o) => if o != oracle {
                return Err(BountyError::Unauthorized);
            },
        }
        let bounty = match self.bounties.get(&id) {
            Some(b) => *b,
            None => return Err(BountyError::NotFound),
        };
        if bounty.status != BountyStatus::UnderReview {
            return Err(BountyError::InvalidStatus);
        }
        if approved {
            self.pay_solver(id, bounty)
        } else {
            Ok(self.do_refund(id, bounty))
        }
    }

    /// The creator or a funder disputes a submission under review.
    pub fn dispute(&mut self, caller: Address, id: u32) -> (r: Result<(), BountyError>)
        ensures
            r == (if !old(self).bounties@.contains_key(id) {
                Err(BountyError::NotFound)
            } else if old(self).bounties@[id].status != BountyStatus::UnderReview {
                Err(BountyError::InvalidStatus)
            } else if caller != old(self).bounties@[id].creator && old(self).contribution(id, caller) == 0 {
                Err(BountyError::Unauthorized)
            } else {
                Ok(())
            }),
            r is Err ==> *final(self) == *old(self),
            r is Ok ==> *final(self) == (BountyEscrowContract { bounties: final(self).bounties, ..*old(self) })
                && final(self).bounties@ == old(self).bounties@.insert(id, Bounty {
                    status: BountyStatus::Disputed, ..old(self).bounties@[id] }),
    {
        let bounty = match self.bounties.get(&id) {
            Some(b) => *b,
            None => return Err(BountyError::NotFound),
        };
        if bounty.status != BountyStatus::UnderReview {
            return Err(BountyError::InvalidStatus);
        }
        let is_creator = caller == bounty.creator;
        let contribution = get_or(&self.contributions, &pair_key(id as u64, caller), 0i128);
        if !is_creator && contribution == 0 {
            return Err(BountyError::Unauthorized);
        }
        self.bounties.insert(id, Bounty { status: BountyStatus::Disputed, ..bounty });
        Ok(())
    }

    /// An arbiter votes on a disputed bounty; reaching the bounty's
    /// threshold on either side settles it. Returns the payouts.
    pub fn arbiter_vote(&mut self, arbiter: Address, id: u32, approve: bool) -> (r: Result<Vec<Payout>, BountyError>)
        requires
            old(self).bounties@.contains_key(id) ==> {
                &&& approve ==> old(self).bounties@[id].votes_for < u32::MAX
                &&& !approve ==> old(self).bounties@[id].votes_against < u32::MAX
            },
        ensures
            r is Err ==> *final(self) == *old(self),
            old(self).arbiters@.contains(arbiter) && old(self).bounties@.contains_key(id)
                && old(self).bounties@[id].status == BountyStatus::Disputed
                && !map_get_or(old(self).arbiter_voted@, spec_pair_key(id as u64, arbiter), false) ==> {
                let b0 = old(self).bounties@[id];
                let votes_for = if approve { b0.votes_for + 1 } else { b0.votes_for as int };
                if votes_for >= b0.arbiter_threshold && b0.solver is None {
                    r == Err::<Vec<Payout>, BountyError>(BountyError::NotFound)
                } else {
                    r is Ok
                }
            },
            !old(self).arbiters@.contains(arbiter) ==> r == Err::<Vec<Payout>, BountyError>(BountyError::NotArbiter),
            old(self).arbiters@.contains(arbiter) && !old(self).bounties@.contains_key(id) ==> r == Err::<
                Vec<Payout>,
                BountyError,
            >(BountyError::NotFound),
            old(self).arbiters@.contains(arbiter) && old(self).bounties@.contains_key(id)
                && old(self).bounties@[id].status != BountyStatus::Disputed ==> r == Err::<Vec<Payout>, BountyError>(
                BountyError::InvalidStatus),
            old(self).arbiters@.contains(arbiter) && old(self).bounties@.contains_key(id)
                && old(self).bounties@[id].status == BountyStatus::Disputed
                && map_get_or(old(self).arbiter_voted@, spec_pair_key(id as u64, arbiter), false)
                ==> r == Err::<Vec<Payout>, BountyError>(BountyError::AlreadyVoted),
            r matches Ok(ps) ==> {
                let b0 = old(self).bounties@[id];
                let b = Bounty {
                    votes_for: if approve { (b0.votes_for + 1) as u32 } else { b0.votes_for },
                    votes_against: if approve { b0.votes_against } else { (b0.votes_against + 1) as u32 },
                    ..b0
                };
                &&& old(self).arbiters@.contains(arbiter) && b0.status == BountyStatus::Disputed
                &&& !map_get_or(old(self).arbiter_voted@, spec_pair_key(id as u64, arbiter), false)
                &&& final(self).arbiter_voted@ == old(self).arbiter_voted@.insert(spec_pair_key(id as u64, arbiter), true)
                &&& if b.votes_for >= b.arbiter_threshold {
                    &&& b.solver is Some
                    &&& final(self).bounties@ == old(self).bounties@.insert(id, Bounty {
                        status: BountyStatus::Completed, total_reward: 0, ..b })
                    &&& ps@ == (if b.total_reward > 0 { seq![Payout { to: b.solver->0, amount: b.total_reward }] } else {
                        Seq::<Payout>::empty() })
                    &&& final(self).contributions@ == old(self).contributions@
                } else if b.votes_against >= b.arbiter_threshold {
                    &&& final(self).bounties@ == old(self).bounties@.insert(id, Bounty {
                        status: BountyStatus::Refunded, total_reward: 0, ..b })
                    &&& (final(self).contributions@, ps@) == refund_fold(old(self).contributions@, id, old(self).funders_of(id))
                    &&& final(self).pool_matches(id)
                } else {
                    &&& final(self).bounties@ == old(self).bounties@.insert(id, b)
                    &&& ps@ == Seq::<Payout>::empty()
                    &&& final(self).contributions@ == old(self).contributions@
                }
                &&& *final(self) == (BountyEscrowContract {
                    bounties: final(self).bounties,
                    contributions: final(self).contributions,
                    arbiter_voted: final(self).arbiter_voted,
                    ..*old(self)
                })
            },
    {
        if !contains_address(&self.arbiters, arbiter) {
            return Err(BountyError::NotArbiter);
        }
        let bounty = match self.bounties.get(&id) {
            Some(b) => *b,
            None => return Err(BountyError::NotFound),
        };
        if bounty.status != BountyStatus::Disputed {
            return Err(BountyError::InvalidStatus);
        }
        let voted_key = pair_key(id as u64, arbiter);
        if get_or(&self.arbiter_voted, &voted_key, false) {
            return Err(BountyError::AlreadyVoted);
        }
        let mut b = bounty;
        if approve {
            b.votes_for = b.votes_for + 1;
        } else {
            b.votes_against = b.votes_against + 1;
        }
        if b.votes_for >= b.arbiter_threshold {
            if b.solver.is_none() {
                return Err(BountyError::NotFound);
            }
            self.arbiter_voted.insert(voted_key, true);
            self.bounties.insert(id, b);
            let r = self.pay_solver(id, b);
            proof {
                assert(self.bounties@ =~= old(self).bounties@.insert(id, Bounty {
                    status: BountyStatus::Completed, total_reward: 0, ..b }));
            }
            r
        } else if b.votes_against >= b.arbiter_threshold {
            self.arbiter_voted.insert(voted_key, true);
            self.bounties.insert(id, b);
            let ps = self.do_refund(id, b);
            proof {
                assert(self.bounties@ =~= old(self).bounties@.insert(id, Bounty {
                    status: BountyStatus::Refunded, total_reward: 0, ..b }));
            }
            Ok(ps)
        } else {
            self.arbiter_voted.insert(voted_key, true);
            self.bounties.insert(id, b);
            Ok(Vec::new())
        }
    }

    /// A funder reclaims their contribution to an open bounty past its
    /// deadline (time `now`). Returns the amount paid back.
    pub fn reclaim_expired(&mut self, funder: Address, id: u32, now: u64) -> (r: Result<i128, BountyError>)
        ensures
            r == (if !old(self).bounties@.contains_key(id) {
                Err(BountyError::NotFound)
            } else if old(self).bounties@[id].status != BountyStatus::Open {
                Err(BountyError::InvalidStatus)
            } else if now <= old(self).bounties@[id].deadline {
                Err(BountyError::DeadlineNotPassed)
            } else {
                Ok(old(self).contribution(id, funder))
            }),
            r is Err ==> *final(self) == *old(self),
            r matches Ok(a) ==> if a > 0 {
                *final(self) == (BountyEscrowContract { contributions: final(self).contributions, ..*old(self) })
                    && final(self).contributions@ == old(self).contributions@.insert(spec_pair_key(id as u64, funder), 0i128)
            } else {
                *final(self) == *old(self)
            },
    {
        let bounty = match self.bounties.get(&id) {
            Some(b) => *b,
            None => return Err(BountyError::NotFound),
        };
        if bounty.status != BountyStatus::Open {
            return Err(BountyError::InvalidStatus);
        }
        if now <= bounty.deadline {
            return Err(BountyError::DeadlineNotPassed);
        }
        let ck = pair_key(id as u64, funder);
        let amount = get_or(&self.contributions, &ck, 0i128);
        if amount > 0 {
            self.contributions.insert(ck, 0i128);
        }
        Ok(amount)
    }

    pub fn get_bounty(&self, id: u32) -> (r: Result<Bounty, BountyError>)
        ensures
            r == (if self.bounties@.contains_key(id) { Ok(self.bounties@[id]) } else { Err(BountyError::NotFound) }),
    {
        match self.bounties.get(&id) {
            Some(b) => Ok(*b),
            None => Err(BountyError::NotFound),
        }
    }

    pub fn contribution_of(&self, id: u32, funder: Address) -> (r: i128)
        ensures
            r == self.contribution(id, funder),
    {
        get_or(&self.contributions, &pair_key(id as u64, funder), 0i128)
    }
}

/// Escrowed funds go back whole: refunding a bounty pays each of its
/// funders their positive contribution, once, and nothing else.
pub proof fn lemma_refund_returns_pool(c: BountyEscrowContract, id: u32)
    requires
        c.funders_distinct(),
    ensures
        payout_total(refund_fold(c.contributions@, id, c.funders_of(id)).1) == pooled(c.contributions@, id, c.funders_of(id)),
{
    assert(c.funders_of(id).no_duplicates());
    lemma_refund_pays_pool(c.contributions@, id, c.funders_of(id));
}

} // verus!
