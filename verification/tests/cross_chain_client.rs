use contracts::cross_chain_client::{canonical_bytes, ClientError, CrossChainClient};
use ed25519_dalek::{Signer, SigningKey};
use sha2::Digest;

const ADMIN: u64 = 1;

fn signed(seed: u8, source_chain: u32, nonce: u64, sender: &[u8], payload: &[u8]) -> ([u8; 32], [u8; 64], Vec<u8>) {
    let mut data = Vec::new();
    data.extend_from_slice(&source_chain.to_be_bytes());
    data.extend_from_slice(&nonce.to_be_bytes());
    data.extend_from_slice(sender);
    data.extend_from_slice(payload);
    let hash = sha2::Sha256::digest(&data).to_vec();
    let key = SigningKey::from_bytes(&[seed; 32]);
    (key.verifying_key().to_bytes(), key.sign(&hash).to_bytes(), hash)
}

fn setup() -> CrossChainClient {
    let mut c = CrossChainClient::new();
    c.init(ADMIN).unwrap();
    c
}

#[test]
fn client_canonical_bytes_layout() {
    let b = canonical_bytes(0x0A0B0C0D, 1, &[7, 8], &[9]);
    assert_eq!(b, vec![0x0A, 0x0B, 0x0C, 0x0D, 0, 0, 0, 0, 0, 0, 0, 1, 7, 8, 9]);
}

#[test]
fn client_ingests_valid_message_once() {
    let mut c = setup();
    let (pk, sig, hash) = signed(5, 10, 1, b"alice", b"hello");
    c.add_relayer(ADMIN, pk).unwrap();
    let id = c.ingest_message(10, 1, b"alice", b"hello", pk, sig, 77).unwrap();
    assert_eq!(id, hash);
    let m = c.get_message(&id).unwrap();
    assert_eq!(m.payload, b"hello".to_vec());
    assert_eq!(m.accepted_at, 77);
    assert!(c.is_processed(10, 1));
    assert_eq!(c.ingest_message(10, 1, b"alice", b"hello", pk, sig, 78), Err(ClientError::NonceReplayed));
}

#[test]
fn client_rejects_bad_signature_and_unknown_relayer() {
    let mut c = setup();
    let (pk, sig, _) = signed(5, 10, 1, b"alice", b"hello");
    assert_eq!(c.ingest_message(10, 1, b"alice", b"hello", pk, sig, 0), Err(ClientError::UnknownRelayer));
    c.add_relayer(ADMIN, pk).unwrap();
    assert_eq!(c.ingest_message(10, 1, b"alice", b"tampered", pk, sig, 0), Err(ClientError::InvalidSignature));
    assert!(!c.is_processed(10, 1));
    c.remove_relayer(ADMIN, pk).unwrap();
    assert_eq!(c.ingest_message(10, 1, b"alice", b"hello", pk, sig, 0), Err(ClientError::UnknownRelayer));
}

#[test]
fn client_admin_checks() {
    let mut c = CrossChainClient::new();
    assert_eq!(c.add_relayer(ADMIN, [1; 32]), Err(ClientError::NotInitialized));
    assert_eq!(c.ingest_message(1, 1, b"", b"", [1; 32], [0; 64], 0), Err(ClientError::NotInitialized));
    c.init(ADMIN).unwrap();
    assert_eq!(c.init(ADMIN), Err(ClientError::AlreadyInitialized));
    assert_eq!(c.add_relayer(2, [1; 32]), Err(ClientError::Unauthorized));
    assert_eq!(c.get_message(&[0; 32]).err(), Some(ClientError::MessageNotFound));
}
