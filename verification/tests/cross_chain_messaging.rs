use contracts::cross_chain_messaging::{build_hash_input, CrossChainMessagingContract, MessagingError};
use ed25519_dalek::{Signer, SigningKey};
use sha2::Digest;

const SRC_CHAIN: u32 = 100;
const DST_CHAIN: u32 = 1;

/// Canonical bytes, hashed and signed with a key derived from `seed`.
fn sign_message(seed: u8, source_chain: u32, dest_chain: u32, nonce: u64, sender: &[u8], payload: &[u8]) -> ([u8; 32], [u8; 64]) {
    let mut data = Vec::new();
    data.extend_from_slice(&source_chain.to_be_bytes());
    data.extend_from_slice(&dest_chain.to_be_bytes());
    data.extend_from_slice(&nonce.to_be_bytes());
    data.extend_from_slice(sender);
    data.extend_from_slice(payload);
    let hash = sha2::Sha256::digest(&data);
    let signing_key = SigningKey::from_bytes(&[seed; 32]);
    let sig = signing_key.sign(&hash);
    (signing_key.verifying_key().to_bytes(), sig.to_bytes())
}

fn setup() -> (CrossChainMessagingContract, u64) {
    (CrossChainMessagingContract::new(), 1)
}

#[test]
fn cross_chain_messaging_test_test_initialize_success() {
    let (mut c, admin) = setup();
    assert_eq!(c.initialize(admin, DST_CHAIN), Ok(()));
}

#[test]
fn cross_chain_messaging_test_test_initialize_already_initialized() {
    let (mut c, admin) = setup();
    c.initialize(admin, DST_CHAIN).unwrap();
    assert_eq!(c.initialize(admin, DST_CHAIN), Err(MessagingError::AlreadyInitialized));
}

#[test]
fn test_register_relayer() {
    let (mut c, admin) = setup();
    c.initialize(admin, DST_CHAIN).unwrap();
    let pubkey = [9u8; 32];
    assert!(!c.is_active_relayer(pubkey));
    c.register_relayer(admin, pubkey).unwrap();
    assert!(c.is_active_relayer(pubkey));
}

#[test]
fn test_deregister_relayer() {
    let (mut c, admin) = setup();
    c.initialize(admin, DST_CHAIN).unwrap();
    let pubkey = [9u8; 32];
    c.register_relayer(admin, pubkey).unwrap();
    assert!(c.is_active_relayer(pubkey));
    c.deregister_relayer(admin, pubkey).unwrap();
    assert!(!c.is_active_relayer(pubkey));
    assert_eq!(c.deregister_relayer(admin, [8u8; 32]), Err(MessagingError::UnknownRelayer));
}

#[test]
fn test_register_relayer_unauthorized() {
    let (mut c, admin) = setup();
    c.initialize(admin, DST_CHAIN).unwrap();
    assert_eq!(c.register_relayer(2, [9u8; 32]), Err(MessagingError::Unauthorized));
}

#[test]
fn test_send_message_success() {
    let (mut c, admin) = setup();
    c.initialize(admin, DST_CHAIN).unwrap();
    let sender = [0xDE, 0xAD, 0xBE, 0xEF];
    let payload = b"hello cross-chain";
    let nonce = 1u64;
    let (pubkey, sig) = sign_message(3, SRC_CHAIN, DST_CHAIN, nonce, &sender, payload);
    c.register_relayer(admin, pubkey).unwrap();
    let msg_id = c.send_message(SRC_CHAIN, nonce, &sender, payload, pubkey, sig, 50).unwrap();
    let msg = c.get_message(&msg_id).unwrap();
    assert_eq!(msg.source_chain, SRC_CHAIN);
    assert_eq!(msg.dest_chain, DST_CHAIN);
    assert_eq!(msg.nonce, nonce);
    assert_eq!(msg.sender, sender.to_vec());
    assert_eq!(msg.payload, payload.to_vec());
    assert_eq!(msg.accepted_at, 50);
    let expected_id = sha2::Sha256::digest(build_hash_input(SRC_CHAIN, DST_CHAIN, nonce, &sender, payload)).to_vec();
    assert_eq!(msg_id, expected_id);
}

#[test]
fn test_nonce_marked_processed_after_message() {
    let (mut c, admin) = setup();
    c.initialize(admin, DST_CHAIN).unwrap();
    let sender = [0x01];
    let payload = b"payload";
    let nonce = 42u64;
    let (pubkey, sig) = sign_message(4, SRC_CHAIN, DST_CHAIN, nonce, &sender, payload);
    c.register_relayer(admin, pubkey).unwrap();
    assert!(!c.is_nonce_processed(SRC_CHAIN, nonce));
    c.send_message(SRC_CHAIN, nonce, &sender, payload, pubkey, sig, 0).unwrap();
    assert!(c.is_nonce_processed(SRC_CHAIN, nonce));
}

#[test]
fn test_send_message_unknown_relayer() {
    let (mut c, admin) = setup();
    c.initialize(admin, DST_CHAIN).unwrap();
    let (pubkey, sig) = sign_message(5, SRC_CHAIN, DST_CHAIN, 1, &[0x01], b"data");
    assert_eq!(
        c.send_message(SRC_CHAIN, 1, &[0x01], b"data", pubkey, sig, 0),
        Err(MessagingError::UnknownRelayer)
    );
}

#[test]
fn test_send_message_replay_attack() {
    let (mut c, admin) = setup();
    c.initialize(admin, DST_CHAIN).unwrap();
    let nonce = 7u64;
    let (pubkey, sig) = sign_message(6, SRC_CHAIN, DST_CHAIN, nonce, &[0x01], b"data");
    c.register_relayer(admin, pubkey).unwrap();
    c.send_message(SRC_CHAIN, nonce, &[0x01], b"data", pubkey, sig, 0).unwrap();
    assert_eq!(
        c.send_message(SRC_CHAIN, nonce, &[0x01], b"data", pubkey, sig, 0),
        Err(MessagingError::NonceReplayed)
    );
}

#[test]
fn test_send_message_deactivated_relayer() {
    let (mut c, admin) = setup();
    c.initialize(admin, DST_CHAIN).unwrap();
    let (pubkey, sig) = sign_message(7, SRC_CHAIN, DST_CHAIN, 1, &[0x01], b"data");
    c.register_relayer(admin, pubkey).unwrap();
    c.deregister_relayer(admin, pubkey).unwrap();
    assert_eq!(
        c.send_message(SRC_CHAIN, 1, &[0x01], b"data", pubkey, sig, 0),
        Err(MessagingError::UnknownRelayer)
    );
}

#[test]
fn send_message_with_forged_signature_is_refused() {
    let (mut c, admin) = setup();
    c.initialize(admin, DST_CHAIN).unwrap();
    let (pubkey, mut sig) = sign_message(8, SRC_CHAIN, DST_CHAIN, 1, &[0x01], b"data");
    c.register_relayer(admin, pubkey).unwrap();
    sig[0] ^= 1;
    assert_eq!(
        c.send_message(SRC_CHAIN, 1, &[0x01], b"data", pubkey, sig, 0),
        Err(MessagingError::InvalidSignature)
    );
    assert!(!c.is_nonce_processed(SRC_CHAIN, 1));
    let big = vec![0u8; 8193];
    assert_eq!(c.send_message(SRC_CHAIN, 1, &[0x01], &big, pubkey, sig, 0), Err(MessagingError::PayloadTooLarge));
}

#[test]
fn test_get_message_not_found() {
    let (mut c, admin) = setup();
    c.initialize(admin, DST_CHAIN).unwrap();
    assert!(matches!(c.get_message(&[1u8; 32]), Err(MessagingError::MessageNotFound)));
}

#[test]
fn test_multiple_sequential_nonces() {
    let (mut c, admin) = setup();
    c.initialize(admin, DST_CHAIN).unwrap();
    for nonce in 1u64..=3u64 {
        let (pubkey, sig) = sign_message(10 + nonce as u8, SRC_CHAIN, DST_CHAIN, nonce, &[0xAA], b"msg");
        c.register_relayer(admin, pubkey).unwrap();
        c.send_message(SRC_CHAIN, nonce, &[0xAA], b"msg", pubkey, sig, 0).unwrap();
        assert!(c.is_nonce_processed(SRC_CHAIN, nonce));
    }
}

#[test]
fn hash_input_is_big_endian_fields_then_bytes() {
    let v = build_hash_input(0x01020304, 0x0A0B0C0D, 0x1122334455667788, &[0xEE], &[0xFF, 0x00]);
    assert_eq!(
        v,
        vec![1, 2, 3, 4, 10, 11, 12, 13, 0x11, 0x22, 0x33, 0x44, 0x55, 0x66, 0x77, 0x88, 0xEE, 0xFF, 0x00]
    );
}
