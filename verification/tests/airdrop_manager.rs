use contracts::airdrop_manager::{AirdropError, AirdropManager};
use contracts::merkle_distributor::{compute_leaf, less_than, verify};
use sha2::Digest;

fn hash_pair(a: &[u8], b: &[u8]) -> Vec<u8> {
    let mut buf = Vec::new();
    if a < b {
        buf.extend_from_slice(a);
        buf.extend_from_slice(b);
    } else {
        buf.extend_from_slice(b);
        buf.extend_from_slice(a);
    }
    sha2::Sha256::digest(&buf).to_vec()
}

/// A two-leaf tree over (alice, 100) and (bob, 250); alice is account 10
/// with ledger encoding `alice-address`, bob account 11 with `bob-address`.
fn tree() -> (Vec<u8>, Vec<u8>, Vec<u8>) {
    let alice_leaf = compute_leaf(b"alice-address", 100);
    let bob_leaf = compute_leaf(b"bob-address", 250);
    let root = hash_pair(&alice_leaf, &bob_leaf);
    (root, alice_leaf, bob_leaf)
}

fn setup() -> (AirdropManager, u64) {
    let admin = 1;
    let (root, _, _) = tree();
    let mut c = AirdropManager::new();
    c.init(admin, 50, 0, root, 1_000).unwrap();
    c.set_verified(admin, 10, true).unwrap();
    c.set_verified(admin, 11, true).unwrap();
    (c, admin)
}

#[test]
fn leaf_encodes_address_then_tagged_amount() {
    let mut buf = b"who".to_vec();
    buf.extend_from_slice(&[0, 0, 0, 10]);
    buf.extend_from_slice(&(-2i128).to_be_bytes());
    assert_eq!(compute_leaf(b"who", -2), sha2::Sha256::digest(&buf).to_vec());
}

#[test]
fn merkle_proofs_verify_and_order_bytes() {
    let (root, alice, bob) = tree();
    assert!(verify(&vec![bob.clone()], &root, &alice));
    assert!(verify(&vec![alice.clone()], &root, &bob));
    assert!(!verify(&vec![alice.clone()], &root, &alice));
    assert!(verify(&vec![], &alice, &alice));
    assert!(less_than(&[1, 2], &[1, 3]));
    assert!(less_than(&[1], &[1, 0]));
    assert!(!less_than(&[2], &[1, 9]));
}

#[test]
fn airdrop_claim_pays_once() {
    let (mut c, _admin) = setup();
    let (_, _, bob) = tree();
    assert_eq!(c.claim(10, b"alice-address", 100, &vec![bob.clone()], 10), Ok(100));
    assert_eq!(c.claim(10, b"alice-address", 100, &vec![bob.clone()], 10), Err(AirdropError::AlreadyClaimed));
}

#[test]
fn airdrop_refusals() {
    let (mut c, admin) = setup();
    let (_, alice, bob) = tree();
    assert_eq!(c.init(admin, 50, 0, vec![], 1), Err(AirdropError::AlreadyInitialized));
    assert_eq!(c.claim(11, b"bob-address", 999, &vec![alice.clone()], 10), Err(AirdropError::InvalidProof));
    assert_eq!(c.claim(11, b"bob-address", 250, &vec![alice.clone()], 1_001), Err(AirdropError::DeadlineExceeded));
    assert_eq!(c.claim(12, b"carol", 1, &vec![bob.clone()], 10), Err(AirdropError::IdentityNotVerified));
    c.set_blacklist(admin, 11, true).unwrap();
    assert_eq!(c.claim(11, b"bob-address", 250, &vec![alice.clone()], 10), Err(AirdropError::Blacklisted));
    c.set_blacklist(admin, 11, false).unwrap();
    assert_eq!(c.claim(11, b"bob-address", 250, &vec![alice.clone()], 10), Ok(250));
    assert_eq!(c.set_merkle_root(5, vec![]), Err(AirdropError::Unauthorized));
    assert_eq!(c.withdraw_remaining(admin, 1_000, 70), Err(AirdropError::DeadlineNotReached));
    assert_eq!(c.withdraw_remaining(admin, 1_001, 70), Ok(70));
    assert_eq!(c.withdraw_remaining(admin, 1_001, 0), Ok(0));
    c.set_require_verification(admin, false).unwrap();
    assert_eq!(c.claim_verified(12, 5, true, 10), Ok(5));
}

#[test]
fn airdrop_claim_with_another_accounts_proof_is_refused() {
    let (mut c, _admin) = setup();
    let (_, alice, _) = tree();
    // Alice's allocation proven from bob's leaf does not pay account 10 bob's amount.
    assert_eq!(c.claim(10, b"alice-address", 250, &vec![alice.clone()], 10), Err(AirdropError::InvalidProof));
}
