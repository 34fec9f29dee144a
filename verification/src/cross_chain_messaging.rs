//! Inbound cross-chain messages: a registered, active relayer signs the
//! SHA-256 of a canonical encoding of the message; each
//! `(source_chain, nonce)` pair is accepted once.
use std::collections::HashMap;
use vstd::prelude::*;
use crate::bytes_map::BytesMap;
use crate::common::{Address, get_or, map_get_or, pair_key, spec_pair_key};
use crate::crypto::{ed25519_accepts, ed25519_verify, sha256, sha256_digest};

verus! {

broadcast use vstd::std_specs::hash::group_hash_axioms;

/// Chain identifier.
pub type ChainId = u32;

/// A message stored after verification.
#[derive(Debug)]
pub struct CrossChainMessage {
    /// SHA-256 of the canonical bytes.
    pub message_id: Vec<u8>,
    pub source_chain: ChainId,
    pub dest_chain: ChainId,
    pub nonce: u64,
    /// Raw sender address on the source chain.
    pub sender: Vec<u8>,
    /// Application-level payload.
    pub payload: Vec<u8>,
    /// Timestamp at which the message was accepted.
    pub accepted_at: u64,
}

/// A registered relayer key and whether it is active.
#[derive(Copy, Clone, Debug)]
pub struct RelayerInfo {
    pub pubkey: [u8; 32],
    pub active: bool,
}

#[derive(Copy, Clone, Debug, PartialEq, Eq, Structural)]
pub enum MessagingError {
    AlreadyInitialized,
    NotInitialized,
    Unauthorized,
    /// Relayer public key is not registered or has been deactivated.
    UnknownRelayer,
    /// This `(source_chain, nonce)` pair was already processed.
    NonceReplayed,
    /// The ed25519 signature does not match the message hash.
    InvalidSignature,
    /// Message id not found in storage.
    MessageNotFound,
    /// Payload exceeds the maximum allowed size.
    PayloadTooLarge,
}

/// Maximum payload size in bytes (8 KiB).
pub const MAX_PAYLOAD_BYTES: usize = 8192;

/// Big-endian bytes of a 32-bit value.
pub open spec fn be_u32(x: u32) -> Seq<u8> {
    Seq::new(4, |k: int| (x >> ((8 * (3 - k)) as u32)) as u8)
}

/// Big-endian bytes of a 64-bit value.
pub open spec fn be_u64(x: u64) -> Seq<u8> {
    Seq::new(8, |k: int| (x >> ((8 * (7 - k)) as u64)) as u8)
}

/// Canonical encoding of a message:
/// `source_chain[4] || dest_chain[4] || nonce[8] || sender || payload`.
pub open spec fn spec_hash_input(
    source_chain: u32,
    dest_chain: u32,
    nonce: u64,
    sender: Seq<u8>,
    payload: Seq<u8>,
) -> Seq<u8> {
    be_u32(source_chain) + be_u32(dest_chain) + be_u64(nonce) + sender + payload
}

/// Canonical byte serialisation used for hashing and signature verification.
pub fn build_hash_input(source_chain: u32, dest_chain: u32, nonce: u64, sender: &[u8], payload: &[u8]) -> (r: Vec<u8>)
    ensures
        r@ == spec_hash_input(source_chain, dest_chain, nonce, sender@, payload@),
{
    let mut data: Vec<u8> = Vec::new();
    let mut k: u32 = 0;
    while k < 4
        invariant
            0 <= k <= 4,
            data@ == be_u32(source_chain).take(k as int),
        decreases 4 - k,
    {
        data.push((source_chain >> (8 * (3 - k))) as u8);
        assert(be_u32(source_chain).take(k + 1) =~= be_u32(source_chain).take(k as int).push(
            (source_chain >> ((8 * (3 - k as int)) as u32)) as u8));
        k = k + 1;
    }
    assert(be_u32(source_chain).take(4) =~= be_u32(source_chain));
    let ghost a = data@;
    let mut k: u32 = 0;
    while k < 4
        invariant
            0 <= k <= 4,
            a == be_u32(source_chain),
            data@ == a + be_u32(dest_chain).take(k as int),
        decreases 4 - k,
    {
        data.push((dest_chain >> (8 * (3 - k))) as u8);
        assert(be_u32(dest_chain).take(k + 1) =~= be_u32(dest_chain).take(k as int).push(
            (dest_chain >> ((8 * (3 - k as int)) as u32)) as u8));
        k = k + 1;
    }
    assert(be_u32(dest_chain).take(4) =~= be_u32(dest_chain));
    let ghost b = data@;
    let mut k: u64 = 0;
    while k < 8
        invariant
            0 <= k <= 8,
            b == be_u32(source_chain) + be_u32(dest_chain),
            data@ == b + be_u64(nonce).take(k as int),
        decreases 8 - k,
    {
        data.push((nonce >> (8 * (7 - k))) as u8);
        assert(be_u64(nonce).take(k + 1) =~= be_u64(nonce).take(k as int).push(
            (nonce >> ((8 * (7 - k as int)) as u64)) as u8));
        k = k + 1;
    }
    assert(be_u64(nonce).take(8) =~= be_u64(nonce));
    let ghost c = data@;
    let mut i: usize = 0;
    while i < sender.len()
        invariant
            0 <= i <= sender.len(),
            c == be_u32(source_chain) + be_u32(dest_chain) + be_u64(nonce),
            data@ == c + sender@.take(i as int),
        decreases sender.len() - i,
    {
        data.push(sender[i]);
        assert(sender@.take(i + 1) =~= sender@.take(i as int).push(sender@[i as int]));
        i = i + 1;
    }
    assert(sender@.take(sender.len() as int) =~= sender@);
    let ghost d = data@;
    let mut j: usize = 0;
    while j < payload.len()
        invariant
            0 <= j <= payload.len(),
            d == be_u32(source_chain) + be_u32(dest_chain) + be_u64(nonce) + sender@,
            data@ == d + payload@.take(j as int),
        decreases payload.len() - j,
    {
        data.push(payload[j]);
        assert(payload@.take(j + 1) =~= payload@.take(j as int).push(payload@[j as int]));
        j = j + 1;
    }
    assert(payload@.take(payload.len() as int) =~= payload@);
    data
}

fn copy_bytes(v: &[u8]) -> (r: Vec<u8>)
    ensures
        r@ == v@,
{
    let mut out: Vec<u8> = Vec::new();
    let mut i: usize = 0;
    while i < v.len()
        invariant
            0 <= i <= v.len(),
            out@ == v@.take(i as int),
        decreases v.len() - i,
    {
        out.push(v[i]);
        assert(v@.take(i + 1) =~= v@.take(i as int).push(v@[i as int]));
        i = i + 1;
    }
    assert(v@.take(v.len() as int) =~= v@);
    out
}

/// Storage of the messaging contract.
pub struct CrossChainMessagingContract {
    pub admin: Option<Address>,
    /// This contract's own chain identifier.
    pub chain_id: ChainId,
    /// Registered relayers by public key.
    pub relayers: BytesMap<RelayerInfo>,
    /// Accepted messages by id.
    pub messages: BytesMap<CrossChainMessage>,
    /// Processed `(source_chain, nonce)` pairs, keyed by `pair_key`.
    pub nonces: HashMap<u128, bool>,
}

/// `after` is `before` with the message `id` recorded: its nonce marked
/// processed, the record stored under `id` with the given fields, the
/// destination chain and the acceptance time `now`; every other message,
/// the admin, the chain id and the relayers as they were.
pub open spec fn stored_message(
    before: CrossChainMessagingContract,
    after: CrossChainMessagingContract,
    source_chain: ChainId,
    nonce: u64,
    sender: Seq<u8>,
    payload: Seq<u8>,
    id: Seq<u8>,
    now: u64,
) -> bool {
    let m = after.messages.view()[id];
    &&& after.nonces@ == before.nonces@.insert(spec_pair_key(source_chain as u64, nonce), true)
    &&& after.messages.view().dom() == before.messages.view().dom().insert(id)
    &&& forall|k: Seq<u8>| k != id && #[trigger] before.messages.view().contains_key(k)
        ==> after.messages.view()[k] == before.messages.view()[k]
    &&& m.message_id@ == id && m.source_chain == source_chain
    &&& m.dest_chain == before.chain_id && m.nonce == nonce && m.sender@ == sender
    &&& m.payload@ == payload && m.accepted_at == now
    &&& after.admin == before.admin && after.chain_id == before.chain_id
    &&& after.relayers == before.relayers
}

impl CrossChainMessagingContract {
    /// The storage is in good shape.
    pub open spec fn wf(&self) -> bool {
        self.relayers.wf() && self.messages.wf()
    }

    pub open spec fn relayer_active(&self, pubkey: Seq<u8>) -> bool {
        self.relayers.view().contains_key(pubkey) && self.relayers.view()[pubkey].active
    }

    pub open spec fn nonce_done(&self, source_chain: u32, nonce: u64) -> bool {
        map_get_or(self.nonces@, spec_pair_key(source_chain as u64, nonce), false)
    }

    /// The refusal a message meets, given whether its signature checks.
    pub open spec fn spec_refusal(
        &self,
        source_chain: u32,
        nonce: u64,
        payload_len: nat,
        relayer_pubkey: Seq<u8>,
        signature_valid: bool,
    ) -> Option<MessagingError> {
        if self.admin is None {
            Some(MessagingError::NotInitialized)
        } else if payload_len > MAX_PAYLOAD_BYTES {
            Some(MessagingError::PayloadTooLarge)
        } else if !self.relayer_active(relayer_pubkey) {
            Some(MessagingError::UnknownRelayer)
        } else if self.nonce_done(source_chain, nonce) {
            Some(MessagingError::NonceReplayed)
        } else if !signature_valid {
            Some(MessagingError::InvalidSignature)
        } else {
            None
        }
    }

    /// Fresh, uninitialised storage.
    pub fn new() -> (c: Self)
        ensures
            c.wf(),
            c.admin is None,
            c.relayers.view() == Map::<Seq<u8>, RelayerInfo>::empty(),
            c.messages.view() == Map::<Seq<u8>, CrossChainMessage>::empty(),
            c.nonces@ == Map::<u128, bool>::empty(),
    {
        CrossChainMessagingContract {
            admin: None,
            chain_id: 0,
            relayers: BytesMap::new(),
            messages: BytesMap::new(),
            nonces: HashMap::new(),
        }
    }

    pub fn initialize(&mut self, admin: Address, chain_id: ChainId) -> (r: Result<(), MessagingError>)
        ensures
            r == (if old(self).admin is Some { Err::<(), MessagingError>(MessagingError::AlreadyInitialized) } else { Ok(()) }),
            r is Err ==> *final(self) == *old(self),
            r is Ok ==> *final(self) == (CrossChainMessagingContract { admin: Some(admin), chain_id, ..*old(self) }),
    {
        if self.admin.is_some() {
            return Err(MessagingError::AlreadyInitialized);
        }
        self.admin = Some(admin);
        self.chain_id = chain_id;
        Ok(())
    }

    fn assert_admin(&self, caller: Address) -> (r: Result<(), MessagingError>)
        ensures
            r == (match self.admin {
                None => Err(MessagingError::NotInitialized),
                Some(a) => if a == caller { Ok(()) } else { Err(MessagingError::Unauthorized) },
            }),
    {
        match self.admin {
            None => Err(MessagingError::NotInitialized),
            Some(a) => if a == caller { Ok(()) } else { Err(MessagingError::Unauthorized) },
        }
    }

    /// Register (or reactivate) a relayer key. Only admin.
    pub fn register_relayer(&mut self, caller: Address, pubkey: [u8; 32]) -> (r: Result<(), MessagingError>)
        requires
            old(self).wf(),
        ensures
            final(self).wf(),
            r == (match old(self).admin {
                None => Err(MessagingError::NotInitialized),
                Some(a) => if a == caller { Ok(()) } else { Err(MessagingError::Unauthorized) },
            }),
            r is Err ==> *final(self) == *old(self),
            r is Ok ==> final(self).relayers.view() == old(self).relayers.view().insert(
                pubkey@, RelayerInfo { pubkey, active: true })
                && final(self).admin == old(self).admin && final(self).chain_id == old(self).chain_id
                && final(self).messages == old(self).messages && final(self).nonces@ == old(self).nonces@,
    {
        self.assert_admin(caller)?;
        self.relayers.insert(copy_bytes(&pubkey), RelayerInfo { pubkey, active: true });
        Ok(())
    }

    /// Deactivate a relayer. Only admin.
    pub fn deregister_relayer(&mut self, caller: Address, pubkey: [u8; 32]) -> (r: Result<(), MessagingError>)
        requires
            old(self).wf(),
        ensures
            final(self).wf(),
            r == (match old(self).admin {
                None => Err(MessagingError::NotInitialized),
                Some(a) => if a != caller {
                    Err(MessagingError::Unauthorized)
                } else if !old(self).relayers.view().contains_key(pubkey@) {
                    Err(MessagingError::UnknownRelayer)
                } else {
                    Ok(())
                },
            }),
            r is Err ==> *final(self) == *old(self),
            r is Ok ==> final(self).relayers.view() == old(self).relayers.view().insert(
                pubkey@, RelayerInfo { active: false, ..old(self).relayers.view()[pubkey@] })
                && final(self).admin == old(self).admin && final(self).chain_id == old(self).chain_id
                && final(self).messages == old(self).messages && final(self).nonces@ == old(self).nonces@,
    {
        self.assert_admin(caller)?;
        let info = match self.relayers.get(&pubkey) {
            Some(i) => *i,
            None => return Err(MessagingError::UnknownRelayer),
        };
        self.relayers.insert(copy_bytes(&pubkey), RelayerInfo { active: false, ..info });
        Ok(())
    }

    pub fn is_active_relayer(&self, pubkey: [u8; 32]) -> (r: bool)
        requires
            self.wf(),
        ensures
            r == self.relayer_active(pubkey@),
    {
        match self.relayers.get(&pubkey) {
            Some(i) => i.active,
            None => false,
        }
    }

    /// Accept a message whose hash is `message_id`, given whether the
    /// relayer's signature over it checks. Returns the message id.
    pub fn accept_message(
        &mut self,
        source_chain: ChainId,
        nonce: u64,
        sender: &[u8],
        payload: &[u8],
        relayer_pubkey: [u8; 32],
        message_id: &[u8],
        signature_valid: bool,
        now: u64,
    ) -> (r: Result<Vec<u8>, MessagingError>)
        requires
            old(self).wf(),
        ensures
            final(self).wf(),
            match old(self).spec_refusal(source_chain, nonce, payload@.len(), relayer_pubkey@, signature_valid) {
                Some(e) => r == Err::<Vec<u8>, MessagingError>(e) && *final(self) == *old(self),
                None => r is Ok,
            },
            r matches Ok(id) ==> id@ == message_id@
                && stored_message(*old(self), *final(self), source_chain, nonce, sender@, payload@, message_id@, now),
    {
        if self.admin.is_none() {
            return Err(MessagingError::NotInitialized);
        }
        if payload.len() > MAX_PAYLOAD_BYTES {
            return Err(MessagingError::PayloadTooLarge);
        }
        let active = match self.relayers.get(&relayer_pubkey) {
            Some(i) => i.active,
            None => false,
        };
        if !active {
            return Err(MessagingError::UnknownRelayer);
        }
        let nonce_key = pair_key(source_chain as u64, nonce);
        if get_or(&self.nonces, &nonce_key, false) {
            return Err(MessagingError::NonceReplayed);
        }
        if !signature_valid {
            return Err(MessagingError::InvalidSignature);
        }
        self.nonces.insert(nonce_key, true);
        let msg = CrossChainMessage {
            message_id: copy_bytes(message_id),
            source_chain,
            dest_chain: self.chain_id,
            nonce,
            sender: copy_bytes(sender),
            payload: copy_bytes(payload),
            accepted_at: now,
        };
        self.messages.insert(copy_bytes(message_id), msg);
        proof {
            assert(self.messages.view().dom() =~= old(self).messages.view().dom().insert(message_id@));
        }
        Ok(copy_bytes(message_id))
    }

    /// Accept a cross-chain message signed by a registered relayer, at time
    /// `now`. Returns the message id, the SHA-256 of the canonical encoding.
    pub fn send_message(
        &mut self,
        source_chain: ChainId,
        nonce: u64,
        sender: &[u8],
        payload: &[u8],
        relayer_pubkey: [u8; 32],
        signature: [u8; 64],
        now: u64,
    ) -> (r: Result<Vec<u8>, MessagingError>)
        requires
            old(self).wf(),
        ensures
            final(self).wf(),
            ({
                let id = sha256_digest(spec_hash_input(source_chain, old(self).chain_id, nonce, sender@, payload@));
                let valid = ed25519_accepts(relayer_pubkey@, id, signature@);
                &&& match old(self).spec_refusal(source_chain, nonce, payload@.len(), relayer_pubkey@, valid) {
                    Some(e) => r == Err::<Vec<u8>, MessagingError>(e) && *final(self) == *old(self),
                    None => r is Ok,
                }
                &&& r matches Ok(v) ==> v@ == id
                    && stored_message(*old(self), *final(self), source_chain, nonce, sender@, payload@, id, now)
            }),
    {
        let hash_input = build_hash_input(source_chain, self.chain_id, nonce, sender, payload);
        let message_hash = sha256(&hash_input);
        let valid = ed25519_verify(&relayer_pubkey, &message_hash, &signature);
        self.accept_message(source_chain, nonce, sender, payload, relayer_pubkey, &message_hash, valid, now)
    }

    /// The stored message with id `message_id`.
    pub fn get_message(&self, message_id: &[u8]) -> (r: Result<&CrossChainMessage, MessagingError>)
        requires
            self.wf(),
        ensures
            r is Err <==> !self.messages.view().contains_key(message_id@),
            r is Err ==> r == Err::<&CrossChainMessage, MessagingError>(MessagingError::MessageNotFound),
            r matches Ok(m) ==> *m == self.messages.view()[message_id@],
    {
        match self.messages.get(message_id) {
            Some(m) => Ok(m),
            None => Err(MessagingError::MessageNotFound),
        }
    }

    /// Whether `(source_chain, nonce)` has been processed.
    pub fn is_nonce_processed(&self, source_chain: ChainId, nonce: u64) -> (r: bool)
        ensures
            r == self.nonce_done(source_chain, nonce),
    {
        get_or(&self.nonces, &pair_key(source_chain as u64, nonce), false)
    }
}

/// Replay protection: once `(source_chain, nonce)` is processed, every
/// message with that pair is refused, whatever its signature.
pub proof fn lemma_replay_refused(
    c: CrossChainMessagingContract,
    source_chain: u32,
    nonce: u64,
    payload_len: nat,
    relayer_pubkey: Seq<u8>,
    signature_valid: bool,
)
    requires
        c.nonce_done(source_chain, nonce),
    ensures
        c.spec_refusal(source_chain, nonce, payload_len, relayer_pubkey, signature_valid) is Some,
{
}

} // verus!
