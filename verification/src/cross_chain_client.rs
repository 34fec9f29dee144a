//! Client side of cross-chain messaging: an active relayer signs the SHA-256
//! of `source_chain[4] || nonce[8] || sender || payload`; a message with a
//! valid signature is stored once per `(source_chain, nonce)`, and nothing
//! changes for one that is refused.
use std::collections::HashMap;
use vstd::prelude::*;
use crate::bytes_map::BytesMap;
use crate::common::{Address, be_bytes, get_or, map_get_or, pair_key, push_be, spec_pair_key};
use crate::crypto::{ed25519_accepts, ed25519_verify, sha256, sha256_digest};

verus! {

broadcast use vstd::std_specs::hash::group_hash_axioms;

/// Chain identifier.
pub type ChainId = u32;

/// A message stored after verification.
#[derive(Debug)]
pub struct MessageRecord {
    /// SHA-256 of the canonical bytes.
    pub message_id: Vec<u8>,
    pub source_chain: ChainId,
    pub nonce: u64,
    pub sender: Vec<u8>,
    pub payload: Vec<u8>,
    pub accepted_at: u64,
}

#[derive(Copy, Clone, Debug, PartialEq, Eq, Structural)]
pub enum ClientError {
    AlreadyInitialized,
    NotInitialized,
    Unauthorized,
    UnknownRelayer,
    NonceReplayed,
    InvalidSignature,
    MessageNotFound,
}

/// The bytes a relayer signs the hash of:
/// `source_chain[4] || nonce[8] || sender || payload`, big-endian.
pub open spec fn spec_canonical_bytes(source_chain: u32, nonce: u64, sender: Seq<u8>, payload: Seq<u8>) -> Seq<u8> {
    be_bytes(source_chain as u128, 4) + be_bytes(nonce as u128, 8) + sender + payload
}

/// The canonical bytes of a message.
pub fn canonical_bytes(source_chain: ChainId, nonce: u64, sender: &[u8], payload: &[u8]) -> (r: Vec<u8>)
    ensures
        r@ == spec_canonical_bytes(source_chain, nonce, sender@, payload@),
{
    let mut data: Vec<u8> = Vec::new();
    push_be(&mut data, source_chain as u128, 4);
    push_be(&mut data, nonce as u128, 8);
    let ghost head = data@;
    data.extend_from_slice(sender);
    assert(data@ =~= head + sender@);
    let ghost mid = data@;
    data.extend_from_slice(payload);
    assert(data@ =~= mid + payload@);
    data
}

/// A byte string copied into a vector.
fn to_vec(v: &[u8]) -> (r: Vec<u8>)
    ensures
        r@ == v@,
{
    let mut out: Vec<u8> = Vec::new();
    out.extend_from_slice(v);
    assert(out@ =~= v@);
    out
}

/// Storage of the client.
pub struct CrossChainClient {
    pub admin: Option<Address>,
    /// Relayer keys and whether each is active.
    pub relayers: BytesMap<bool>,
    /// Accepted messages by id.
    pub messages: BytesMap<MessageRecord>,
    /// Processed `(source_chain, nonce)` pairs, keyed by `pair_key`.
    pub nonces: HashMap<u128, bool>,
}

/// `after` is `before` with the message `id` recorded: its nonce marked
/// processed and the record stored under `id` with its id, source chain,
/// nonce, sender, payload and acceptance time `now`; every other message,
/// the admin and the relayers as they were.
pub open spec fn stored_record(
    before: CrossChainClient,
    after: CrossChainClient,
    source_chain: ChainId,
    nonce: u64,
    sender: Seq<u8>,
    payload: Seq<u8>,
    id: Seq<u8>,
    now: u64,
) -> bool {
    let m = after.messages.view()[id];
    &&& after.nonces@ == before.nonces@.insert(spec_pair_key(source_chain as u64, nonce), true)
    &&& after.messages.view().dom() == before.messages.view().dom().insert(id)
    &&& forall|k: Seq<u8>| k != id && #[trigger] before.messages.view().contains_key(k)
        ==> after.messages.view()[k] == before.messages.view()[k]
    &&& m.message_id@ == id && m.source_chain == source_chain && m.nonce == nonce
    &&& m.sender@ == sender && m.payload@ == payload && m.accepted_at == now
    &&& after.admin == before.admin && after.relayers == before.relayers
}

impl CrossChainClient {
    /// The storage is in good shape.
    pub open spec fn wf(&self) -> bool {
        self.relayers.wf() && self.messages.wf()
    }

    pub open spec fn relayer_active(&self, pubkey: Seq<u8>) -> bool {
        self.relayers.view().contains_key(pubkey) && self.relayers.view()[pubkey]
    }

    pub open spec fn nonce_done(&self, source_chain: u32, nonce: u64) -> bool {
        map_get_or(self.nonces@, spec_pair_key(source_chain as u64, nonce), false)
    }

    /// Why a message is refused, given whether its signature checks.
    pub open spec fn refusal(&self, source_chain: u32, nonce: u64, relayer_pubkey: Seq<u8>, signature_valid: bool) -> Option<ClientError> {
        if self.admin is None {
            Some(ClientError::NotInitialized)
        } else if !self.relayer_active(relayer_pubkey) {
            Some(ClientError::UnknownRelayer)
        } else if self.nonce_done(source_chain, nonce) {
            Some(ClientError::NonceReplayed)
        } else if !signature_valid {
            Some(ClientError::InvalidSignature)
        } else {
            None
        }
    }

    /// Why an admin call by `caller` is refused, if it is.
    pub open spec fn admin_refusal(&self, caller: Address) -> Option<ClientError> {
        match self.admin {
            None => Some(ClientError::NotInitialized),
            Some(a) => if a != caller { Some(ClientError::Unauthorized) } else { None },
        }
    }

    /// Fresh, uninitialised storage.
    pub fn new() -> (c: Self)
        ensures
            c.wf(),
            c.admin is None,
            c.relayers.view() == Map::<Seq<u8>, bool>::empty(),
            c.messages.view() == Map::<Seq<u8>, MessageRecord>::empty(),
            c.nonces@ == Map::<u128, bool>::empty(),
    {
        CrossChainClient { admin: None, relayers: BytesMap::new(), messages: BytesMap::new(), nonces: HashMap::new() }
    }

    pub fn init(&mut self, admin: Address) -> (r: Result<(), ClientError>)
        ensures
            r == (if old(self).admin is Some { Err(ClientError::AlreadyInitialized) } else { Ok(()) }),
            r is Err ==> *final(self) == *old(self),
            r is Ok ==> *final(self) == (CrossChainClient { admin: Some(admin), ..*old(self) }),
    {
        if self.admin.is_some() {
            return Err(ClientError::AlreadyInitialized);
        }
        self.admin = Some(admin);
        Ok(())
    }

    fn assert_admin(&self, caller: Address) -> (r: Result<(), ClientError>)
        ensures
            r == (match self.admin_refusal(caller) { Some(e) => Err(e), None => Ok(()) }),
    {
        match self.admin {
            None => Err(ClientError::NotInitialized),
            Some(a) => if a != caller { Err(ClientError::Unauthorized) } else { Ok(()) },
        }
    }

    /// The admin marks relayer key `pubkey` active.
    pub fn add_relayer(&mut self, caller: Address, pubkey: [u8; 32]) -> (r: Result<(), ClientError>)
        requires
            old(self).wf(),
        ensures
            final(self).wf(),
            r == (match old(self).admin_refusal(caller) { Some(e) => Err(e), None => Ok(()) }),
            r is Err ==> *final(self) == *old(self),
            r is Ok ==> *final(self) == (CrossChainClient { relayers: final(self).relayers, ..*old(self) })
                && final(self).relayers.view() == old(self).relayers.view().insert(pubkey@, true),
    {
        self.assert_admin(caller)?;
        self.relayers.insert(to_vec(&pubkey), true);
        Ok(())
    }

    /// The admin marks relayer key `pubkey` inactive.
    pub fn remove_relayer(&mut self, caller: Address, pubkey: [u8; 32]) -> (r: Result<(), ClientError>)
        requires
            old(self).wf(),
        ensures
            final(self).wf(),
            r == (match old(self).admin_refusal(caller) { Some(e) => Err(e), None => Ok(()) }),
            r is Err ==> *final(self) == *old(self),
            r is Ok ==> *final(self) == (CrossChainClient { relayers: final(self).relayers, ..*old(self) })
                && final(self).relayers.view() == old(self).relayers.view().insert(pubkey@, false),
    {
        self.assert_admin(caller)?;
        self.relayers.insert(to_vec(&pubkey), false);
        Ok(())
    }

    /// Store a message whose id is `message_id` at time `now`, given
    /// whether the relayer's signature of the id checks. Returns the id.
    pub fn accept_message(
        &mut self,
        source_chain: ChainId,
        nonce: u64,
        sender: &[u8],
        payload: &[u8],
        relayer_pubkey: [u8; 32],
        message_id: &[u8],
        signature_valid: bool,
        now: u64,
    ) -> (r: Result<Vec<u8>, ClientError>)
        requires
            old(self).wf(),
        ensures
            final(self).wf(),
            match old(self).refusal(source_chain, nonce, relayer_pubkey@, signature_valid) {
                Some(e) => r == Err::<Vec<u8>, ClientError>(e) && *final(self) == *old(self),
                None => r is Ok,
            },
            r matches Ok(id) ==> id@ == message_id@
                && stored_record(*old(self), *final(self), source_chain, nonce, sender@, payload@, message_id@, now),
    {
        if self.admin.is_none() {
            return Err(ClientError::NotInitialized);
        }
        let active = match self.relayers.get(&relayer_pubkey) {
            Some(a) => *a,
            None => false,
        };
        if !active {
            return Err(ClientError::UnknownRelayer);
        }
        let nonce_key = pair_key(source_chain as u64, nonce);
        if get_or(&self.nonces, &nonce_key, false) {
            return Err(ClientError::NonceReplayed);
        }
        if !signature_valid {
            return Err(ClientError::InvalidSignature);
        }
        self.nonces.insert(nonce_key, true);
        let record = MessageRecord {
            message_id: to_vec(message_id),
            source_chain,
            nonce,
            sender: to_vec(sender),
            payload: to_vec(payload),
            accepted_at: now,
        };
        self.messages.insert(to_vec(message_id), record);
        proof {
            assert(self.messages.view().dom() =~= old(self).messages.view().dom().insert(message_id@));
        }
        Ok(to_vec(message_id))
    }

    /// Ingest a message signed by a relayer, at time `now`. Returns the
    /// message id, the SHA-256 of its canonical bytes.
    pub fn ingest_message(
        &mut self,
        source_chain: ChainId,
        nonce: u64,
        sender: &[u8],
        payload: &[u8],
        relayer_pubkey: [u8; 32],
        signature: [u8; 64],
        now: u64,
    ) -> (r: Result<Vec<u8>, ClientError>)
        requires
            old(self).wf(),
        ensures
            final(self).wf(),
            ({
                let id = sha256_digest(spec_canonical_bytes(source_chain, nonce, sender@, payload@));
                let valid = ed25519_accepts(relayer_pubkey@, id, signature@);
                &&& match old(self).refusal(source_chain, nonce, relayer_pubkey@, valid) {
                    Some(e) => r == Err::<Vec<u8>, ClientError>(e) && *final(self) == *old(self),
                    None => r is Ok,
                }
                &&& r matches Ok(v) ==> v@ == id
                    && stored_record(*old(self), *final(self), source_chain, nonce, sender@, payload@, id, now)
            }),
    {
        let input = canonical_bytes(source_chain, nonce, sender, payload);
        let hash = sha256(input.as_slice());
        let valid = ed25519_verify(&relayer_pubkey, hash.as_slice(), &signature);
        self.accept_message(source_chain, nonce, sender, payload, relayer_pubkey, hash.as_slice(), valid, now)
    }

    /// The stored message with id `message_id`.
    pub fn get_message(&self, message_id: &[u8]) -> (r: Result<&MessageRecord, ClientError>)
        requires
            self.wf(),
        ensures
            r is Err <==> !self.messages.view().contains_key(message_id@),
            r is Err ==> r == Err::<&MessageRecord, ClientError>(ClientError::MessageNotFound),
            r matches Ok(m) ==> *m == self.messages.view()[message_id@],
    {
        match self.messages.get(message_id) {
            Some(m) => Ok(m),
            None => Err(ClientError::MessageNotFound),
        }
    }

    /// Whether `(source_chain, nonce)` has been processed.
    pub fn is_processed(&self, source_chain: ChainId, nonce: u64) -> (r: bool)
        ensures
            r == self.nonce_done(source_chain, nonce),
    {
        get_or(&self.nonces, &pair_key(source_chain as u64, nonce), false)
    }
}

/// Replay protection: once `(source_chain, nonce)` is processed, every
/// message with that pair is refused, whatever its signature.
pub proof fn lemma_replay_refused(c: CrossChainClient, source_chain: u32, nonce: u64, relayer_pubkey: Seq<u8>, signature_valid: bool)
    requires
        c.nonce_done(source_chain, nonce),
    ensures
        c.refusal(source_chain, nonce, relayer_pubkey, signature_valid) is Some,
{
}

} // verus!
