use contracts::common::Payout;
use contracts::state_channel::{state_message, ChannelStatus, SCError, StateChannelContract};
use ed25519_dalek::{Signer, SigningKey};
use sha2::Digest;

const ADMIN: u64 = 1;
const A: u64 = 10;
const B: u64 = 20;
const TOKEN: u64 = 77;
const SEED_A: u8 = 3;
const SEED_B: u8 = 4;

fn pubkey(seed: u8) -> [u8; 32] {
    SigningKey::from_bytes(&[seed; 32]).verifying_key().to_bytes()
}

/// The state hash as an off-ledger signer computes it.
fn state_hash(channel_id: u32, nonce: u64, bal_a: i128, bal_b: i128) -> [u8; 32] {
    let mut buf = [0u8; 44];
    buf[0..4].copy_from_slice(&channel_id.to_be_bytes());
    buf[4..12].copy_from_slice(&nonce.to_be_bytes());
    buf[12..28].copy_from_slice(&bal_a.to_be_bytes());
    buf[28..44].copy_from_slice(&bal_b.to_be_bytes());
    let digest = sha2::Sha256::digest(buf);
    let mut out = [0u8; 32];
    out.copy_from_slice(&digest);
    out
}

fn sign_state(channel_id: u32, nonce: u64, bal_a: i128, bal_b: i128) -> ([u8; 64], [u8; 64]) {
    let h = state_hash(channel_id, nonce, bal_a, bal_b);
    let sa = SigningKey::from_bytes(&[SEED_A; 32]).sign(&h).to_bytes();
    let sb = SigningKey::from_bytes(&[SEED_B; 32]).sign(&h).to_bytes();
    (sa, sb)
}

fn setup() -> StateChannelContract {
    let mut sc = StateChannelContract::new();
    sc.initialize(ADMIN).unwrap();
    sc
}

fn open(sc: &mut StateChannelContract) -> u32 {
    sc.open_channel(A, B, pubkey(SEED_A), pubkey(SEED_B), TOKEN, 10_000, 10_000, 60).unwrap()
}

fn submit(sc: &mut StateChannelContract, caller: u64, id: u32, nonce: u64, a: i128, b: i128, now: u64) -> Result<(), SCError> {
    let (sa, sb) = sign_state(id, nonce, a, b);
    sc.submit_state(caller, id, nonce, a, b, sa, sb, now)
}

#[test]
fn state_channel_tests_test_initialize_ok() {
    let sc = setup();
    assert_eq!(sc.admin, Some(ADMIN));
}

#[test]
fn state_channel_tests_test_initialize_twice_panics() {
    let mut sc = setup();
    assert_eq!(sc.initialize(ADMIN), Err(SCError::AlreadyInitialized));
}

#[test]
fn test_open_channel_records_deposits() {
    let mut sc = setup();
    let id = open(&mut sc);
    let ch = sc.get_channel(id).unwrap();
    assert_eq!(ch.total_deposit, 20_000);
    assert_eq!(ch.balance_a, 10_000);
    assert_eq!(ch.balance_b, 10_000);
    assert_eq!(ch.status, ChannelStatus::Open);
}

#[test]
fn test_open_channel_increments_ids() {
    let mut sc = setup();
    let id1 = open(&mut sc);
    let id2 = open(&mut sc);
    assert_eq!(id1, 1);
    assert_eq!(id2, 2);
}

#[test]
fn test_open_channel_negative_deposit_panics() {
    let mut sc = setup();
    let r = sc.open_channel(A, B, pubkey(SEED_A), pubkey(SEED_B), TOKEN, -1, 10_000, 60);
    assert_eq!(r, Err(SCError::ZeroAmount));
}

#[test]
fn test_submit_state_valid_transitions_to_closing() {
    let mut sc = setup();
    let id = open(&mut sc);
    submit(&mut sc, A, id, 1, 12_000, 8_000, 1_000).unwrap();
    let ch = sc.get_channel(id).unwrap();
    assert_eq!(ch.status, ChannelStatus::Closing);
    assert_eq!(ch.nonce, 1);
    assert_eq!(ch.balance_a, 12_000);
    assert_eq!(ch.balance_b, 8_000);
    assert_eq!(ch.challenge_expiry, 1_060);
}

#[test]
fn test_submit_state_bad_signature_panics() {
    let mut sc = setup();
    let id = open(&mut sc);
    let (sa, sb) = sign_state(id, 99, 12_000, 8_000);
    assert_eq!(sc.submit_state(A, id, 1, 12_000, 8_000, sa, sb, 0), Err(SCError::InvalidSignature));
}

#[test]
fn test_submit_state_balance_invariant_panics() {
    let mut sc = setup();
    let id = open(&mut sc);
    assert_eq!(submit(&mut sc, A, id, 1, 12_000, 9_000, 0), Err(SCError::BalanceInvariant));
}

#[test]
fn test_submit_state_non_participant_panics() {
    let mut sc = setup();
    let id = open(&mut sc);
    assert_eq!(submit(&mut sc, 999, id, 1, 10_000, 10_000, 0), Err(SCError::NotParticipant));
}

#[test]
fn test_submit_state_on_settled_channel_panics() {
    let mut sc = setup();
    let id = open(&mut sc);
    submit(&mut sc, A, id, 1, 10_000, 10_000, 0).unwrap();
    sc.settle(id, 120).unwrap();
    assert_eq!(submit(&mut sc, A, id, 2, 10_000, 10_000, 130), Err(SCError::InvalidStatus));
}

#[test]
fn test_challenge_with_higher_nonce_overrides() {
    let mut sc = setup();
    let id = open(&mut sc);
    submit(&mut sc, A, id, 1, 15_000, 5_000, 0).unwrap();
    let (sa, sb) = sign_state(id, 2, 12_000, 8_000);
    sc.challenge(B, id, 2, 12_000, 8_000, sa, sb, 10).unwrap();
    let ch = sc.get_channel(id).unwrap();
    assert_eq!(ch.nonce, 2);
    assert_eq!(ch.balance_a, 12_000);
    assert_eq!(ch.balance_b, 8_000);
}

#[test]
fn test_challenge_with_same_nonce_panics() {
    let mut sc = setup();
    let id = open(&mut sc);
    submit(&mut sc, A, id, 1, 10_000, 10_000, 0).unwrap();
    let (sa, sb) = sign_state(id, 1, 10_000, 10_000);
    assert_eq!(sc.challenge(B, id, 1, 10_000, 10_000, sa, sb, 0), Err(SCError::StaleNonce));
}

#[test]
fn test_challenge_with_lower_nonce_panics() {
    let mut sc = setup();
    let id = open(&mut sc);
    submit(&mut sc, A, id, 5, 10_000, 10_000, 0).unwrap();
    let (sa, sb) = sign_state(id, 3, 10_000, 10_000);
    assert_eq!(sc.challenge(B, id, 3, 10_000, 10_000, sa, sb, 0), Err(SCError::StaleNonce));
}

#[test]
fn test_settle_after_challenge_period_pays_balances() {
    let mut sc = setup();
    let id = open(&mut sc);
    submit(&mut sc, A, id, 1, 14_000, 6_000, 0).unwrap();
    let ps = sc.settle(id, 120).unwrap();
    assert_eq!(sc.get_channel(id).unwrap().status, ChannelStatus::Settled);
    assert_eq!(ps, vec![Payout { to: A, amount: 14_000 }, Payout { to: B, amount: 6_000 }]);
    // 50_000 - 10_000 + 14_000 and 50_000 - 10_000 + 6_000
    assert_eq!(50_000 - 10_000 + ps[0].amount, 54_000);
    assert_eq!(50_000 - 10_000 + ps[1].amount, 46_000);
}

#[test]
fn test_settle_before_challenge_expiry_panics() {
    let mut sc = setup();
    let id = open(&mut sc);
    submit(&mut sc, A, id, 1, 10_000, 10_000, 0).unwrap();
    assert_eq!(sc.settle(id, 0), Err(SCError::ChallengeActive));
}

#[test]
fn test_settle_on_open_channel_panics() {
    let mut sc = setup();
    let id = open(&mut sc);
    assert_eq!(sc.settle(id, 0), Err(SCError::InvalidStatus));
}

#[test]
fn test_cooperative_close_settles_immediately() {
    let mut sc = setup();
    let id = open(&mut sc);
    let (sa, sb) = sign_state(id, 7, 11_000, 9_000);
    let ps = sc.cooperative_close(id, 7, 11_000, 9_000, sa, sb).unwrap();
    assert_eq!(sc.get_channel(id).unwrap().status, ChannelStatus::Settled);
    assert_eq!(50_000 - 10_000 + ps[0].amount, 51_000);
    assert_eq!(50_000 - 10_000 + ps[1].amount, 49_000);
}

#[test]
fn test_cooperative_close_bad_sig_panics() {
    let mut sc = setup();
    let id = open(&mut sc);
    let (sa, sb) = sign_state(id, 7, 5_000, 15_000);
    assert_eq!(sc.cooperative_close(id, 7, 11_000, 9_000, sa, sb), Err(SCError::InvalidSignature));
}

#[test]
fn test_cooperative_close_balance_invariant_panics() {
    let mut sc = setup();
    let id = open(&mut sc);
    let (sa, sb) = sign_state(id, 1, 11_000, 10_000);
    assert_eq!(sc.cooperative_close(id, 1, 11_000, 10_000, sa, sb), Err(SCError::BalanceInvariant));
}

#[test]
fn test_compute_state_hash_matches_off_chain() {
    let on_chain = StateChannelContract::compute_state_hash(1, 5, 12_000, 8_000);
    let off_chain = state_hash(1, 5, 12_000, 8_000);
    assert_eq!(on_chain, off_chain.to_vec());
}

#[test]
fn state_channel_message_layout_is_big_endian() {
    let m = state_message(0x0102_0304, 5, -1, 2);
    assert_eq!(m.len(), 44);
    assert_eq!(&m[0..4], &[1, 2, 3, 4]);
    assert_eq!(&m[4..12], &[0, 0, 0, 0, 0, 0, 0, 5]);
    assert!(m[12..28].iter().all(|b| *b == 0xff));
    assert_eq!(m[43], 2);
}

#[test]
fn state_channel_settle_skips_empty_balance() {
    let mut sc = setup();
    let id = open(&mut sc);
    submit(&mut sc, B, id, 1, 0, 20_000, 0).unwrap();
    let ps = sc.settle(id, 60).unwrap();
    assert_eq!(ps, vec![Payout { to: B, amount: 20_000 }]);
    let ch = sc.get_channel(id).unwrap();
    assert_eq!((ch.balance_a, ch.balance_b), (0, 0));
}

#[test]
fn state_channel_missing_channel_not_found() {
    let mut sc = setup();
    assert_eq!(sc.settle(5, 0), Err(SCError::NotFound));
    assert_eq!(sc.get_channel(5), Err(SCError::NotFound));
}
