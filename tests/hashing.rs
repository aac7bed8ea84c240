use blockchain_verifier::hash_util::{
    generate_block_hash, generate_block_number, generate_cross_chain_proof,
    generate_hash_lock, generate_signature_hash, generate_transaction_hash, to_hex,
    TAG_BLOCK, TAG_TRANSACTION,
};
use blockchain_verifier::policy::{
    generate_blockchain_hash, generate_smart_contract_code, SMART_CONTRACT_HEAD,
    SMART_CONTRACT_TAIL,
};
use sha2::{Digest, Sha256};

fn hex(b: &[u8]) -> String {
    b.iter().map(|x| format!("{:02x}", x)).collect()
}

fn framed(b: &[u8]) -> Vec<u8> {
    let mut v = (b.len() as u64).to_le_bytes().to_vec();
    v.extend_from_slice(b);
    v
}

fn stamped(tag: u8, text: &str, now: u64) -> Vec<u8> {
    let mut pre = vec![tag];
    pre.extend(framed(text.as_bytes()));
    pre.extend(now.to_le_bytes());
    Sha256::digest(&pre).to_vec()
}

#[test]
fn test_block_hash_generation() {
    let hash = generate_block_hash("test_tx", 1_700_000_000_000_000_000);
    assert!(hash.starts_with("0x"));
    assert_eq!(hash.len(), 64);
}

#[test]
fn test_transaction_hash_generation() {
    let hash = generate_transaction_hash("test_policy", 1_700_000_000_000_000_000);
    assert!(hash.starts_with("0x"));
    assert_eq!(hash.len(), 64);
}

#[test]
fn test_blockchain_hash_generation() {
    let hash = generate_blockchain_hash("test", "action", "data");
    assert!(hash.starts_with("0x"));
    assert_eq!(hash.len(), 64);
}

#[test]
fn test_policy_creation() {
    let policy_id = "test_policy_123".to_string();
    let smart_contract = generate_smart_contract_code(&policy_id);
    assert!(smart_contract.contains(&policy_id));
    assert!(smart_contract.contains("WCHL25"));
    assert!(smart_contract.contains("ICP"));
}

#[test]
fn smart_contract_places_the_policy_id_between_head_and_tail() {
    let code = generate_smart_contract_code("P-7");
    assert_eq!(code, format!("{}P-7{}", SMART_CONTRACT_HEAD, SMART_CONTRACT_TAIL));
}

#[test]
fn hex_text_of_bytes() {
    assert_eq!(to_hex(&[0x00, 0xab, 0xff, 0x10]), "00abff10");
    assert_eq!(to_hex(&[]), "");
}

#[test]
fn block_hash_is_a_digest_of_id_and_time() {
    let now = 1_234_567_890u64;
    let expected = format!("0x{}", &hex(&stamped(TAG_BLOCK, "tx-1", now))[..62]);
    assert_eq!(generate_block_hash("tx-1", now), expected);
    assert_ne!(generate_block_hash("tx-1", now), generate_block_hash("tx-1", now + 1));
    assert_ne!(generate_block_hash("tx-1", now), generate_block_hash("tx-2", now));
    let expected = format!("0x{}", &hex(&stamped(TAG_TRANSACTION, "p", now))[..62]);
    assert_eq!(generate_transaction_hash("p", now), expected);
}

#[test]
fn block_number_counts_block_times() {
    assert_eq!(generate_block_number(0), 0);
    assert_eq!(generate_block_number(25), 2);
    assert_eq!(generate_block_number(36), 3);
}

#[test]
fn blockchain_hash_is_a_digest_of_its_fields() {
    let mut pre = vec![9u8];
    pre.extend(framed(b"test"));
    pre.extend(framed(b"action"));
    pre.extend(framed(b"data"));
    let expected = format!("0x{}", &hex(&Sha256::digest(&pre))[..62]);
    assert_eq!(generate_blockchain_hash("test", "action", "data"), expected);
    // Field boundaries matter.
    assert_ne!(
        generate_blockchain_hash("test", "action", "data"),
        generate_blockchain_hash("testa", "ction", "data")
    );
}

#[test]
fn proofs_and_locks_are_full_digests() {
    let a = generate_cross_chain_proof("tx", 5);
    let b = generate_signature_hash("tx", 5);
    let c = generate_hash_lock("tx", 5);
    for s in [&a, &b, &c] {
        assert_eq!(s.len(), 64);
        assert!(s.chars().all(|ch| ch.is_ascii_hexdigit()));
    }
    assert_ne!(a, b);
    assert_ne!(b, c);
}
