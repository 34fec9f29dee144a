//! Two-party payment channels settled on the ledger. Parties exchange states
//! signed by both off the ledger; either party submits the latest one, the
//! other may answer with a higher-numbered state during a challenge window,
//! and once the window has passed the agreed balances are paid out.
use std::collections::HashMap;
use vstd::prelude::*;
use crate::common::{Address, Payout, be_bytes, payout_total, push_be};
use crate::crypto::{ed25519_accepts, ed25519_verify, sha256, sha256_digest};

verus! {

broadcast use vstd::std_specs::hash::group_hash_axioms;

/// Lifecycle state of a channel.
#[derive(Copy, Clone, Debug, PartialEq, Eq, Structural)]
pub enum ChannelStatus {
    /// Off-ledger transactions in progress.
    Open,
    /// A state was submitted; the challenge window runs.
    Closing,
    /// Balances paid out.
    Settled,
}

/// The ledger record of one channel.
#[derive(Copy, Clone, Debug, PartialEq, Eq)]
pub struct Channel {
    pub id: u32,
    pub party_a: Address,
    pub party_b: Address,
    /// Ed25519 public key of party A.
    pub pubkey_a: [u8; 32],
    /// Ed25519 public key of party B.
    pub pubkey_b: [u8; 32],
    pub token: Address,
    /// Tokens held in escrow: both deposits.
    pub total_deposit: i128,
    pub balance_a: i128,
    pub balance_b: i128,
    /// Number of the last submitted state.
    pub nonce: u64,
    /// Settlement is possible from this timestamp on.
    pub challenge_expiry: u64,
    /// Length of the challenge window in seconds.
    pub challenge_period: u64,
    pub status: ChannelStatus,
}

/// Storage keys of the channel contract, as the host lays them out.
#[derive(Copy, Clone, Debug, PartialEq, Eq, Structural)]
pub enum SCKey {
    Admin,
    NextId,
    Channel(u32),
}

#[derive(Copy, Clone, Debug, PartialEq, Eq, Structural)]
pub enum SCError {
    AlreadyInitialized,
    NotInitialized,
    Unauthorized,
    NotFound,
    InvalidStatus,
    InvalidSignature,
    /// The submitted state number is not above the current one.
    StaleNonce,
    /// The two balances do not add up to the deposit.
    BalanceInvariant,
    /// The challenge window has not passed.
    ChallengeActive,
    ZeroAmount,
    Overflow,
    /// The caller is neither party of the channel.
    NotParticipant,
}

/// The signed message of a channel state:
/// `channel_id[4] || nonce[8] || balance_a[16] || balance_b[16]`, big-endian.
pub open spec fn spec_state_message(channel_id: u32, nonce: u64, balance_a: i128, balance_b: i128) -> Seq<u8> {
    be_bytes(channel_id as u128, 4) + be_bytes(nonce as u128, 8) + be_bytes(balance_a as u128, 16)
        + be_bytes(balance_b as u128, 16)
}

/// The hash both parties sign for a channel state.
pub open spec fn spec_state_hash(channel_id: u32, nonce: u64, balance_a: i128, balance_b: i128) -> Seq<u8> {
    sha256_digest(spec_state_message(channel_id, nonce, balance_a, balance_b))
}

/// Both parties' signatures of a state check against their keys.
pub open spec fn both_signed(c: Channel, hash: Seq<u8>, sig_a: Seq<u8>, sig_b: Seq<u8>) -> bool {
    ed25519_accepts(c.pubkey_a@, hash, sig_a) && ed25519_accepts(c.pubkey_b@, hash, sig_b)
}

/// Payments of two balances to the parties; a balance that is not positive
/// is not paid.
pub open spec fn balance_payouts(party_a: Address, party_b: Address, balance_a: i128, balance_b: i128) -> Seq<Payout> {
    let pa: Seq<Payout> = if balance_a > 0 { seq![Payout { to: party_a, amount: balance_a }] } else { Seq::empty() };
    let pb: Seq<Payout> = if balance_b > 0 { seq![Payout { to: party_b, amount: balance_b }] } else { Seq::empty() };
    pa + pb
}


/// The 44-byte message of a channel state.
pub fn state_message(channel_id: u32, nonce: u64, balance_a: i128, balance_b: i128) -> (r: Vec<u8>)
    ensures
        r@ == spec_state_message(channel_id, nonce, balance_a, balance_b),
        r@.len() == 44,
{
    let mut data: Vec<u8> = Vec::new();
    push_be(&mut data, channel_id as u128, 4);
    push_be(&mut data, nonce as u128, 8);
    push_be(&mut data, balance_a as u128, 16);
    push_be(&mut data, balance_b as u128, 16);
    assert(data@ =~= spec_state_message(channel_id, nonce, balance_a, balance_b));
    data
}

/// Storage of the channel contract.
pub struct StateChannelContract {
    pub admin: Option<Address>,
    /// Next channel id; read as 1 where unset.
    pub next_id: Option<u32>,
    pub channels: HashMap<u32, Channel>,
}

impl StateChannelContract {
    pub open spec fn next_id_or_one(&self) -> u32 {
        match self.next_id { Some(n) => n, None => 1 }
    }

    /// Every stored channel is filed under its own id; an unsettled channel's
    /// balances add up to its deposit, and a settled one holds nothing.
    pub open spec fn channels_sound(&self) -> bool {
        forall|id: u32| #[trigger] self.channels@.contains_key(id) ==> {
            let c = self.channels@[id];
            &&& c.id == id
            &&& c.status != ChannelStatus::Settled ==> c.balance_a + c.balance_b == c.total_deposit
            &&& c.status == ChannelStatus::Settled ==> c.balance_a == 0 && c.balance_b == 0
        }
    }

    /// Why a submitted state is refused, if it is.
    pub open spec fn submit_refusal(&self, caller: Address, channel_id: u32, nonce: u64, balance_a: i128, balance_b: i128, signed: bool) -> Option<SCError> {
        if !self.channels@.contains_key(channel_id) {
            Some(SCError::NotFound)
        } else {
            let c = self.channels@[channel_id];
            if caller != c.party_a && caller != c.party_b {
                Some(SCError::NotParticipant)
            } else if c.status == ChannelStatus::Settled {
                Some(SCError::InvalidStatus)
            } else if c.status == ChannelStatus::Closing && nonce <= c.nonce {
                Some(SCError::StaleNonce)
            } else if balance_a + balance_b < i128::MIN || balance_a + balance_b > i128::MAX {
                Some(SCError::Overflow)
            } else if balance_a + balance_b != c.total_deposit {
                Some(SCError::BalanceInvariant)
            } else if !signed {
                Some(SCError::InvalidSignature)
            } else {
                None
            }
        }
    }

    /// Why a cooperative close is refused, if it is.
    pub open spec fn close_refusal(&self, channel_id: u32, balance_a: i128, balance_b: i128, signed: bool) -> Option<SCError> {
        if !self.channels@.contains_key(channel_id) {
            Some(SCError::NotFound)
        } else {
            let c = self.channels@[channel_id];
            if c.status == ChannelStatus::Settled {
                Some(SCError::InvalidStatus)
            } else if balance_a + balance_b < i128::MIN || balance_a + balance_b > i128::MAX {
                Some(SCError::Overflow)
            } else if balance_a + balance_b != c.total_deposit {
                Some(SCError::BalanceInvariant)
            } else if !signed {
                Some(SCError::InvalidSignature)
            } else {
                None
            }
        }
    }

    /// Fresh, uninitialised storage.
    pub fn new() -> (c: Self)
        ensures
            c.admin is None,
            c.next_id is None,
            c.channels@ == Map::<u32, Channel>::empty(),
            c.channels_sound(),
    {
        StateChannelContract { admin: None, next_id: None, channels: HashMap::new() }
    }

    /// Record the admin; ids start at 1.
    pub fn initialize(&mut self, admin: Address) -> (r: Result<(), SCError>)
        ensures
            r == (if old(self).admin is Some { Err(SCError::AlreadyInitialized) } else { Ok(()) }),
            r is Err ==> *final(self) == *old(self),
            r is Ok ==> *final(self) == (StateChannelContract { admin: Some(admin), next_id: Some(1u32), ..*old(self) }),
    {
        if self.admin.is_some() {
            return Err(SCError::AlreadyInitialized);
        }
        self.admin = Some(admin);
        self.next_id = Some(1);
        Ok(())
    }

    /// Open a channel; both deposits go into escrow. Returns the channel id.
    pub fn open_channel(
        &mut self,
        party_a: Address,
        party_b: Address,
        pubkey_a: [u8; 32],
        pubkey_b: [u8; 32],
        token: Address,
        deposit_a: i128,
        deposit_b: i128,
        challenge_period: u64,
    ) -> (r: Result<u32, SCError>)
        requires
            deposit_a >= 0 && deposit_b >= 0 && deposit_a + deposit_b <= i128::MAX ==> old(self).next_id_or_one() < u32::MAX,
        ensures
            r == (if deposit_a < 0 || deposit_b < 0 {
                Err(SCError::ZeroAmount)
            } else if deposit_a + deposit_b > i128::MAX {
                Err(SCError::Overflow)
            } else {
                Ok(old(self).next_id_or_one())
            }),
            r is Err ==> *final(self) == *old(self),
            r matches Ok(id) ==> {
                &&& final(self).admin == old(self).admin
                &&& final(self).next_id == Some((id + 1) as u32)
                &&& final(self).channels@ == old(self).channels@.insert(id, Channel {
                    id,
                    party_a,
                    party_b,
                    pubkey_a,
                    pubkey_b,
                    token,
                    total_deposit: (deposit_a + deposit_b) as i128,
                    balance_a: deposit_a,
                    balance_b: deposit_b,
                    nonce: 0,
                    challenge_expiry: 0,
                    challenge_period,
                    status: ChannelStatus::Open,
                })
            },
            old(self).channels_sound() ==> final(self).channels_sound(),
    {
        if deposit_a < 0 || deposit_b < 0 {
            return Err(SCError::ZeroAmount);
        }
        let total = match deposit_a.checked_add(deposit_b) {
            Some(t) => t,
            None => return Err(SCError::Overflow),
        };
        let id: u32 = match self.next_id {
            Some(n) => n,
            None => 1,
        };
        self.next_id = Some(id + 1);
        self.channels.insert(id, Channel {
            id,
            party_a,
            party_b,
            pubkey_a,
            pubkey_b,
            token,
            total_deposit: total,
            balance_a: deposit_a,
            balance_b: deposit_b,
            nonce: 0,
            challenge_expiry: 0,
            challenge_period,
            status: ChannelStatus::Open,
        });
        Ok(id)
    }

    /// Record a state of channel `channel_id` at time `now`, given whether
    /// both parties' signatures of it check. Opens or restarts the challenge
    /// window.
    pub fn accept_state(
        &mut self,
        caller: Address,
        channel_id: u32,
        nonce: u64,
        balance_a: i128,
        balance_b: i128,
        signed: bool,
        now: u64,
    ) -> (r: Result<(), SCError>)
        requires
            old(self).submit_refusal(caller, channel_id, nonce, balance_a, balance_b, signed) is None
                ==> now + old(self).channels@[channel_id].challenge_period <= u64::MAX,
        ensures
            r == (match old(self).submit_refusal(caller, channel_id, nonce, balance_a, balance_b, signed) {
                Some(e) => Err(e),
                None => Ok(()),
            }),
            r is Err ==> *final(self) == *old(self),
            r is Ok ==> {
                let c = old(self).channels@[channel_id];
                &&& final(self).admin == old(self).admin && final(self).next_id == old(self).next_id
                &&& final(self).channels@ == old(self).channels@.insert(channel_id, Channel {
                    nonce,
                    balance_a,
                    balance_b,
                    challenge_expiry: (now + c.challenge_period) as u64,
                    status: ChannelStatus::Closing,
                    ..c
                })
            },
            old(self).channels_sound() ==> final(self).channels_sound(),
    {
        let c = match self.channels.get(&channel_id) {
            Some(c) => *c,
            None => return Err(SCError::NotFound),
        };
        if caller != c.party_a && caller != c.party_b {
            return Err(SCError::NotParticipant);
        }
        if c.status == ChannelStatus::Settled {
            return Err(SCError::InvalidStatus);
        }
        if c.status == ChannelStatus::Closing && nonce <= c.nonce {
            return Err(SCError::StaleNonce);
        }
        let sum = match balance_a.checked_add(balance_b) {
            Some(s) => s,
            None => return Err(SCError::Overflow),
        };
        if sum != c.total_deposit {
            return Err(SCError::BalanceInvariant);
        }
        if !signed {
            return Err(SCError::InvalidSignature);
        }
        self.channels.insert(channel_id, Channel {
            nonce,
            balance_a,
            balance_b,
            challenge_expiry: now + c.challenge_period,
            status: ChannelStatus::Closing,
            ..c
        });
        Ok(())
    }

    /// Whether both parties signed the given state of channel `channel_id`;
    /// false where there is no such channel.
    fn state_signed(&self, channel_id: u32, nonce: u64, balance_a: i128, balance_b: i128, sig_a: &[u8; 64], sig_b: &[u8; 64]) -> (r: bool)
        ensures
            r == (self.channels@.contains_key(channel_id) && both_signed(
                self.channels@[channel_id], spec_state_hash(channel_id, nonce, balance_a, balance_b), sig_a@, sig_b@)),
    {
        match self.channels.get(&channel_id) {
            Some(c) => {
                let hash = Self::compute_state_hash(channel_id, nonce, balance_a, balance_b);
                ed25519_verify(&c.pubkey_a, &hash, sig_a) && ed25519_verify(&c.pubkey_b, &hash, sig_b)
            },
            None => false,
        }
    }

    /// A party submits a state signed by both, at time `now`. While the
    /// channel is closing this is a challenge and needs a higher number.
    pub fn submit_state(
        &mut self,
        caller: Address,
        channel_id: u32,
        nonce: u64,
        balance_a: i128,
        balance_b: i128,
        sig_a: [u8; 64],
        sig_b: [u8; 64],
        now: u64,
    ) -> (r: Result<(), SCError>)
        requires
            old(self).submit_refusal(caller, channel_id, nonce, balance_a, balance_b,
                old(self).channels@.contains_key(channel_id) && both_signed(old(self).channels@[channel_id],
                    spec_state_hash(channel_id, nonce, balance_a, balance_b), sig_a@, sig_b@)) is None
                ==> now + old(self).channels@[channel_id].challenge_period <= u64::MAX,
        ensures
            ({
                let signed = old(self).channels@.contains_key(channel_id) && both_signed(
                    old(self).channels@[channel_id], spec_state_hash(channel_id, nonce, balance_a, balance_b), sig_a@, sig_b@);
                &&& r == (match old(self).submit_refusal(caller, channel_id, nonce, balance_a, balance_b, signed) {
                    Some(e) => Err(e),
                    None => Ok(()),
                })
                &&& r is Err ==> *final(self) == *old(self)
                &&& r is Ok ==> {
                    let c = old(self).channels@[channel_id];
                    &&& final(self).admin == old(self).admin && final(self).next_id == old(self).next_id
                    &&& final(self).channels@ == old(self).channels@.insert(channel_id, Channel {
                        nonce,
                        balance_a,
                        balance_b,
                        challenge_expiry: (now + c.challenge_period) as u64,
                        status: ChannelStatus::Closing,
                        ..c
                    })
                }
            }),
            old(self).channels_sound() ==> final(self).channels_sound(),
    {
        let signed = self.state_signed(channel_id, nonce, balance_a, balance_b, &sig_a, &sig_b);
        self.accept_state(caller, channel_id, nonce, balance_a, balance_b, signed, now)
    }

    /// A challenge: the same as `submit_state`, named for the counterparty
    /// answering a stale submission with a higher-numbered state.
    pub fn challenge(
        &mut self,
        caller: Address,
        channel_id: u32,
        nonce: u64,
        balance_a: i128,
        balance_b: i128,
        sig_a: [u8; 64],
        sig_b: [u8; 64],
        now: u64,
    ) -> (r: Result<(), SCError>)
        requires
            old(self).submit_refusal(caller, channel_id, nonce, balance_a, balance_b,
                old(self).channels@.contains_key(channel_id) && both_signed(old(self).channels@[channel_id],
                    spec_state_hash(channel_id, nonce, balance_a, balance_b), sig_a@, sig_b@)) is None
                ==> now + old(self).channels@[channel_id].challenge_period <= u64::MAX,
        ensures
            ({
                let signed = old(self).channels@.contains_key(channel_id) && both_signed(
                    old(self).channels@[channel_id], spec_state_hash(channel_id, nonce, balance_a, balance_b), sig_a@, sig_b@);
                &&& r == (match old(self).submit_refusal(caller, channel_id, nonce, balance_a, balance_b, signed) {
                    Some(e) => Err(e),
                    None => Ok(()),
                })
                &&& r is Err ==> *final(self) == *old(self)
                &&& r is Ok ==> {
                    let c = old(self).channels@[channel_id];
                    &&& final(self).admin == old(self).admin && final(self).next_id == old(self).next_id
                    &&& final(self).channels@ == old(self).channels@.insert(channel_id, Channel {
                        nonce,
                        balance_a,
                        balance_b,
                        challenge_expiry: (now + c.challenge_period) as u64,
                        status: ChannelStatus::Closing,
                        ..c
                    })
                }
            }),
            old(self).channels_sound() ==> final(self).channels_sound(),
    {
        self.submit_state(caller, channel_id, nonce, balance_a, balance_b, sig_a, sig_b, now)
    }

    /// Close channel `channel_id` at time `now` once its challenge window
    /// has passed; returns the payments of the agreed balances.
    pub fn settle(&mut self, channel_id: u32, now: u64) -> (r: Result<Vec<Payout>, SCError>)
        ensures
            r is Err <==> (!old(self).channels@.contains_key(channel_id)
                || old(self).channels@[channel_id].status != ChannelStatus::Closing
                || now < old(self).channels@[channel_id].challenge_expiry),
            !old(self).channels@.contains_key(channel_id) ==> r == Err::<Vec<Payout>, SCError>(SCError::NotFound),
            old(self).channels@.contains_key(channel_id) ==> {
                let c = old(self).channels@[channel_id];
                &&& c.status != ChannelStatus::Closing ==> r == Err::<Vec<Payout>, SCError>(SCError::InvalidStatus)
                &&& c.status == ChannelStatus::Closing && now < c.challenge_expiry
                    ==> r == Err::<Vec<Payout>, SCError>(SCError::ChallengeActive)
            },
            r is Err ==> *final(self) == *old(self),
            r matches Ok(ps) ==> {
                let c = old(self).channels@[channel_id];
                &&& ps@ == balance_payouts(c.party_a, c.party_b, c.balance_a, c.balance_b)
                &&& final(self).admin == old(self).admin && final(self).next_id == old(self).next_id
                &&& final(self).channels@ == old(self).channels@.insert(channel_id, Channel {
                    status: ChannelStatus::Settled, balance_a: 0, balance_b: 0, ..c })
                &&& old(self).channels_sound() && c.balance_a >= 0 && c.balance_b >= 0
                    ==> payout_total(ps@) == c.total_deposit
            },
            old(self).channels_sound() ==> final(self).channels_sound(),
    {
        let c = match self.channels.get(&channel_id) {
            Some(c) => *c,
            None => return Err(SCError::NotFound),
        };
        if c.status != ChannelStatus::Closing {
            return Err(SCError::InvalidStatus);
        }
        if now < c.challenge_expiry {
            return Err(SCError::ChallengeActive);
        }
        let ps = Self::pay_balances(c.party_a, c.party_b, c.balance_a, c.balance_b);
        self.channels.insert(channel_id, Channel { status: ChannelStatus::Settled, balance_a: 0, balance_b: 0, ..c });
        proof {
            if old(self).channels_sound() {
                assert(old(self).channels@.contains_key(channel_id));
            }
        }
        Ok(ps)
    }

    /// The payments of two balances, with their total.
    fn pay_balances(party_a: Address, party_b: Address, balance_a: i128, balance_b: i128) -> (ps: Vec<Payout>)
        ensures
            ps@ == balance_payouts(party_a, party_b, balance_a, balance_b),
            balance_a >= 0 && balance_b >= 0 ==> payout_total(ps@) == balance_a + balance_b,
    {
        let mut ps: Vec<Payout> = Vec::new();
        if balance_a > 0 {
            ps.push(Payout { to: party_a, amount: balance_a });
        }
        if balance_b > 0 {
            ps.push(Payout { to: party_b, amount: balance_b });
        }
        proof {
            let pa: Seq<Payout> = if balance_a > 0 { seq![Payout { to: party_a, amount: balance_a }] } else { Seq::empty() };
            let pb: Seq<Payout> = if balance_b > 0 { seq![Payout { to: party_b, amount: balance_b }] } else { Seq::empty() };
            assert(ps@ =~= pa + pb);
            reveal_with_fuel(payout_total, 3);
            if ps@.len() == 2 {
                assert(ps@.drop_last() =~= seq![Payout { to: party_a, amount: balance_a }]);
                assert(ps@.drop_last().drop_last() =~= Seq::<Payout>::empty());
            } else if ps@.len() == 1 {
                assert(ps@.drop_last() =~= Seq::<Payout>::empty());
            }
        }
        ps
    }

    /// Close channel `channel_id` at once with a final state, given whether
    /// both parties' signatures of it check; returns the payments.
    pub fn close_with_state(&mut self, channel_id: u32, nonce: u64, balance_a: i128, balance_b: i128, signed: bool) -> (r: Result<Vec<Payout>, SCError>)
        ensures
            match old(self).close_refusal(channel_id, balance_a, balance_b, signed) {
                Some(e) => r == Err::<Vec<Payout>, SCError>(e),
                None => r is Ok,
            },
            r is Err ==> *final(self) == *old(self),
            r matches Ok(ps) ==> {
                let c = old(self).channels@[channel_id];
                &&& ps@ == balance_payouts(c.party_a, c.party_b, balance_a, balance_b)
                &&& final(self).admin == old(self).admin && final(self).next_id == old(self).next_id
                &&& final(self).channels@ == old(self).channels@.insert(channel_id, Channel {
                    status: ChannelStatus::Settled, balance_a: 0, balance_b: 0, ..c })
                &&& balance_a >= 0 && balance_b >= 0 ==> payout_total(ps@) == c.total_deposit
            },
            old(self).channels_sound() ==> final(self).channels_sound(),
    {
        let c = match self.channels.get(&channel_id) {
            Some(c) => *c,
            None => return Err(SCError::NotFound),
        };
        if c.status == ChannelStatus::Settled {
            return Err(SCError::InvalidStatus);
        }
        let sum = match balance_a.checked_add(balance_b) {
            Some(s) => s,
            None => return Err(SCError::Overflow),
        };
        if sum != c.total_deposit {
            return Err(SCError::BalanceInvariant);
        }
        if !signed {
            return Err(SCError::InvalidSignature);
        }
        let ps = Self::pay_balances(c.party_a, c.party_b, balance_a, balance_b);
        self.channels.insert(channel_id, Channel { status: ChannelStatus::Settled, balance_a: 0, balance_b: 0, ..c });
        Ok(ps)
    }

    /// Both parties close channel `channel_id` at once with a final state
    /// they both signed, without a challenge window; returns the payments.
    pub fn cooperative_close(
        &mut self,
        channel_id: u32,
        nonce: u64,
        balance_a: i128,
        balance_b: i128,
        sig_a: [u8; 64],
        sig_b: [u8; 64],
    ) -> (r: Result<Vec<Payout>, SCError>)
        ensures
            ({
                let signed = old(self).channels@.contains_key(channel_id) && both_signed(
                    old(self).channels@[channel_id], spec_state_hash(channel_id, nonce, balance_a, balance_b), sig_a@, sig_b@);
                &&& match old(self).close_refusal(channel_id, balance_a, balance_b, signed) {
                    Some(e) => r == Err::<Vec<Payout>, SCError>(e),
                    None => r is Ok,
                }
                &&& r is Err ==> *final(self) == *old(self)
                &&& r matches Ok(ps) ==> {
                    let c = old(self).channels@[channel_id];
                    &&& ps@ == balance_payouts(c.party_a, c.party_b, balance_a, balance_b)
                    &&& final(self).admin == old(self).admin && final(self).next_id == old(self).next_id
                    &&& final(self).channels@ == old(self).channels@.insert(channel_id, Channel {
                        status: ChannelStatus::Settled, balance_a: 0, balance_b: 0, ..c })
                }
            }),
            old(self).channels_sound() ==> final(self).channels_sound(),
    {
        let signed = self.state_signed(channel_id, nonce, balance_a, balance_b, &sig_a, &sig_b);
        self.close_with_state(channel_id, nonce, balance_a, balance_b, signed)
    }

    /// The record of channel `channel_id`.
    pub fn get_channel(&self, channel_id: u32) -> (r: Result<Channel, SCError>)
        ensures
            r == (if self.channels@.contains_key(channel_id) {
                Ok(self.channels@[channel_id])
            } else {
                Err(SCError::NotFound)
            }),
    {
        match self.channels.get(&channel_id) {
            Some(c) => Ok(*c),
            None => Err(SCError::NotFound),
        }
    }

    /// The hash both parties sign for a channel state: SHA-256 of its
    /// 44-byte message.
    pub fn compute_state_hash(channel_id: u32, nonce: u64, balance_a: i128, balance_b: i128) -> (r: Vec<u8>)
        ensures
            r@ == spec_state_hash(channel_id, nonce, balance_a, balance_b),
            r@.len() == 32,
    {
        let msg = state_message(channel_id, nonce, balance_a, balance_b);
        sha256(msg.as_slice())
    }
}

/// A challenge can only move a closing channel forward: an accepted state
/// on a closing channel carries a higher number than the one it replaces,
/// and keeps the deposit split in full.
pub proof fn lemma_challenge_raises_nonce(
    c: StateChannelContract,
    caller: Address,
    channel_id: u32,
    nonce: u64,
    balance_a: i128,
    balance_b: i128,
    signed: bool,
)
    requires
        c.channels@.contains_key(channel_id),
        c.channels@[channel_id].status == ChannelStatus::Closing,
        c.submit_refusal(caller, channel_id, nonce, balance_a, balance_b, signed) is None,
    ensures
        nonce > c.channels@[channel_id].nonce,
        balance_a + balance_b == c.channels@[channel_id].total_deposit,
        signed,
{
}

} // verus!
