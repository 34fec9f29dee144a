//! Hashing and signature checks, done by the `sha2` and `ed25519-dalek` crates.
//!
//! These are the two crates the ledger host itself runs for its `sha256` and
//! `ed25519_verify` functions: the host hashes with `sha2::Sha256` and checks
//! signatures with `ed25519_dalek`'s `VerifyingKey::from_bytes` and
//! `verify_strict`, so a contract computes here what it would compute there.
use vstd::prelude::*;
use sha2::Digest;

verus! {

/// The SHA-256 digest of a byte string.
pub uninterp spec fn sha256_digest(data: Seq<u8>) -> Seq<u8>;

/// SHA-256 of `data`, computed by `sha2::Sha256::digest`. The contract names
/// the result and states that it is 32 bytes long; nothing else of the hash
/// function is claimed.
#[verifier::external_body]
pub(crate) fn sha256(data: &[u8]) -> (r: Vec<u8>)
    ensures
        r@ == sha256_digest(data@),
        r@.len() == 32,
{
    sha2::Sha256::digest(data).to_vec()
}

/// Whether `signature` is a valid strict Ed25519 signature of `message`
/// under `public_key`.
pub uninterp spec fn ed25519_accepts(public_key: Seq<u8>, message: Seq<u8>, signature: Seq<u8>) -> bool;

/// Strict Ed25519 verification by `ed25519_dalek::VerifyingKey::from_bytes`
/// followed by `verify_strict`, as the ledger host does it; a key that does
/// not decode is refused. The contract names the outcome only.
#[verifier::external_body]
pub(crate) fn ed25519_verify(public_key: &[u8; 32], message: &[u8], signature: &[u8; 64]) -> (r: bool)
    ensures
        r == ed25519_accepts(public_key@, message@, signature@),
{
    match ed25519_dalek::VerifyingKey::from_bytes(public_key) {
        Ok(key) => key.verify_strict(message, &ed25519_dalek::Signature::from_bytes(signature)).is_ok(),
        Err(_) => false,
    }
}

} // verus!
