use blockchain_verifier::consensus::{achieve_consensus, sort_names, bytes_less};
use blockchain_verifier::cross_chain::{
    perform_cross_chain_verification, ChainEvidence, CrossChainVerification,
};
use blockchain_verifier::enrichment::{
    apply_layer2_optimization, create_zero_knowledge_proof, generate_quantum_signature,
    verify_atomic_swap, verify_sharding, SwapStatus, SWAP_LOCK_NANOS,
};
use blockchain_verifier::error::VerificationError;
use blockchain_verifier::hash_util::generate_block_hash;
use blockchain_verifier::merkle::verify;
use blockchain_verifier::pipeline::{
    quantum_secure_transaction_id, Enrichments, TransactionStatus, VerificationStore,
};

const NOW: u64 = 1_700_000_000_000_000_000;

fn chains() -> Vec<String> {
    vec!["Ethereum".into(), "Polygon".into(), "Solana".into(), "ICP".into()]
}

fn ok(count: u32) -> Result<ChainEvidence, VerificationError> {
    Ok(ChainEvidence { verification_status: true, confirmation_count: count, proof: format!("proof-{}", count) })
}

fn unverified(count: u32) -> Result<ChainEvidence, VerificationError> {
    Ok(ChainEvidence { verification_status: false, confirmation_count: count, proof: String::new() })
}

fn all_enrichments(id: &str) -> Enrichments {
    Enrichments {
        quantum_signature: generate_quantum_signature(id, NOW),
        zero_knowledge_proof: create_zero_knowledge_proof(id, NOW),
        atomic_swap_details: verify_atomic_swap(id, NOW),
        layer2_optimization: apply_layer2_optimization(id, NOW),
        sharding_verification: verify_sharding(id, NOW),
    }
}

fn no_enrichments() -> Enrichments {
    Enrichments {
        quantum_signature: None,
        zero_knowledge_proof: None,
        atomic_swap_details: None,
        layer2_optimization: None,
        sharding_verification: None,
    }
}

#[test]
fn all_four_chains_confirm() {
    let mut store = VerificationStore::new(3);
    let outcomes = vec![ok(12), ok(15), ok(20), ok(8)];
    let rec = store
        .verify_transaction("tx-a".into(), NOW, &chains(), &outcomes, all_enrichments("tx-a"))
        .unwrap();
    assert_eq!(rec.status, TransactionStatus::CrossChainConfirmed);
    assert_eq!(rec.block_hash, generate_block_hash("tx-a", NOW));
    assert_eq!(rec.block_number, NOW / 12);
    let counts: Vec<u32> = rec.cross_chain_verification.iter().map(|v| v.confirmation_count).collect();
    assert_eq!(counts, vec![12, 15, 20, 8]);
    // Four chain leaves and five enrichment leaves.
    assert_eq!(rec.merkle_proof.len(), 9);
    let stored = store.get_transaction(&"tx-a".to_string()).unwrap();
    assert_eq!(stored.status, TransactionStatus::CrossChainConfirmed);
    assert_eq!(stored.cross_chain_verification.len(), 4);
    let proof = store.consensus_proofs.get(&"tx-a".to_string()).unwrap();
    assert!(proof.achieved_consensus);
    assert_eq!(proof.participating_chains, chains());
    assert_eq!(proof.validator_signatures.len(), 4);
    let logs = store.get_verification_logs(&"tx-a".to_string());
    assert_eq!(logs.len(), 1);
    assert!(logs[0].status);
    assert_eq!(logs[0].details, "Consensus reached");
    assert_eq!(logs[0].blockchain_hash, Some(rec.block_hash.clone()));
    assert!(logs[0].log_id.starts_with("LOG_"));
    assert_eq!(logs[0].log_id.len(), 40);
}

#[test]
fn two_of_four_is_not_consensus() {
    let mut store = VerificationStore::new(3);
    let outcomes = vec![ok(12), Err(VerificationError::AdapterUnavailable), ok(20), unverified(3)];
    let r = store.verify_transaction("tx-b".into(), NOW, &chains(), &outcomes, no_enrichments());
    let partial = match r {
        Err(VerificationError::ConsensusNotReached(t)) => t,
        _ => panic!("consensus should not be reached"),
    };
    assert_eq!(partial.status, TransactionStatus::Failed);
    let logs = store.get_verification_logs(&"tx-b".to_string());
    assert_eq!(logs.len(), 1);
    assert!(!logs[0].status);
    assert_eq!(
        logs[0].details,
        "Consensus not reached; unverified: Polygon; unverified: ICP; missing: quantum signature; \
         missing: zero-knowledge proof; missing: atomic swap; missing: layer-2 optimization; \
         missing: sharding verification"
    );
    let stored = store.get_transaction(&"tx-b".to_string()).unwrap();
    assert_eq!(stored.status, TransactionStatus::Failed);
    assert_eq!(stored, partial);
}

#[test]
fn stored_record_equals_returned_record() {
    let mut store = VerificationStore::new(3);
    let outcomes = vec![ok(12), ok(15), ok(20), ok(8)];
    let rec = store
        .verify_transaction("tx-c".into(), NOW, &chains(), &outcomes, all_enrichments("tx-c"))
        .unwrap();
    let again = store.get_transaction(&rec.transaction_id).unwrap();
    assert_eq!(again, rec);
    assert_eq!(store.get_all_transactions(), vec![rec]);
}

#[test]
fn one_unavailable_adapter_is_isolated() {
    let mut store = VerificationStore::new(3);
    let outcomes = vec![ok(12), ok(15), Err(VerificationError::AdapterUnavailable), ok(8)];
    let rec = store
        .verify_transaction("tx-d".into(), NOW, &chains(), &outcomes, all_enrichments("tx-d"))
        .unwrap();
    let v = &rec.cross_chain_verification;
    assert_eq!(v.len(), 4);
    assert_eq!(v[2].blockchain, "Solana");
    assert!(!v[2].verification_status);
    assert_eq!(v[2].confirmation_count, 0);
    assert!(v[2].cross_chain_proof.is_empty());
    for i in [0usize, 1, 3] {
        assert!(v[i].verification_status);
        assert_eq!(v[i].blockchain, chains()[i]);
    }
    assert_eq!(v[1].cross_chain_proof, "proof-15");
    assert_eq!(rec.status, TransactionStatus::CrossChainConfirmed);
}

#[test]
fn rerun_replaces_record_and_appends_log() {
    let mut store = VerificationStore::new(2);
    let first = vec![ok(1), unverified(0), unverified(0), unverified(0)];
    assert!(store.verify_transaction("tx-e".into(), NOW, &chains(), &first, no_enrichments()).is_err());
    let second = vec![ok(1), ok(2), unverified(0), unverified(0)];
    assert!(store.verify_transaction("tx-e".into(), NOW + 1, &chains(), &second, no_enrichments()).is_ok());
    assert_eq!(store.get_all_transactions().len(), 1);
    let logs = store.get_verification_logs(&"tx-e".to_string());
    assert_eq!(logs.len(), 2);
    assert!(!logs[0].status);
    assert!(logs[1].status);
    assert_eq!(store.get_transaction(&"tx-e".to_string()).unwrap().timestamp, NOW + 1);
}

#[test]
fn merkle_tree_of_a_run_proves_its_evidence() {
    let mut store = VerificationStore::new(1);
    let outcomes = vec![ok(12), ok(15), ok(20), ok(8)];
    let rec = store
        .verify_transaction("tx-f".into(), NOW, &chains(), &outcomes, no_enrichments())
        .unwrap();
    let tree = store.merkle_trees.get(&"tx-f".to_string()).unwrap();
    assert_eq!(tree.leaf_count, 4);
    assert_eq!(rec.merkle_proof.len(), tree.leaf_count as usize);
    let mut leaf = vec![0u8];
    leaf.extend((8u64).to_le_bytes());
    leaf.extend(b"Ethereum");
    leaf.push(1);
    leaf.extend((12u64).to_le_bytes());
    leaf.extend((8u64).to_le_bytes());
    leaf.extend(b"proof-12");
    assert!(verify(&leaf, &tree.proof_paths[0], &tree.root_hash));
}

#[test]
fn unknown_transaction_is_not_found() {
    let store = VerificationStore::new(3);
    assert_eq!(store.get_transaction(&"nope".to_string()), Err(VerificationError::NotFound));
    assert!(store.get_verification_logs(&"nope".to_string()).is_empty());
    assert!(store.get_all_transactions().is_empty());
}

#[test]
fn consensus_matches_success_count_for_every_threshold() {
    let names = chains();
    for successes in 0..=4usize {
        let outcomes: Vec<_> = (0..4).map(|i| if i < successes { ok(5) } else { unverified(0) }).collect();
        let evidence = perform_cross_chain_verification("tx", &names, &outcomes, NOW);
        for threshold in 0..=5u32 {
            let p = achieve_consensus("tx", &evidence, threshold, NOW);
            assert_eq!(p.achieved_consensus, successes as u32 >= threshold);
            assert_eq!(p.consensus_threshold, threshold);
            assert_eq!(p.participating_chains, names);
            assert_eq!(p.validator_signatures.len(), successes);
        }
    }
}

#[test]
fn consensus_id_does_not_depend_on_chain_order() {
    let names = chains();
    let outcomes = vec![ok(1), ok(2), ok(3), ok(4)];
    let evidence = perform_cross_chain_verification("tx", &names, &outcomes, NOW);
    let mut reversed: Vec<CrossChainVerification> = evidence.iter().map(|v| v.clone()).collect();
    reversed.reverse();
    let a = achieve_consensus("tx", &evidence, 3, NOW);
    let b = achieve_consensus("tx", &reversed, 3, NOW);
    assert_eq!(a.consensus_id, b.consensus_id);
    assert_ne!(a.participating_chains, b.participating_chains);
    let c = achieve_consensus("tx2", &evidence, 3, NOW);
    assert_ne!(a.consensus_id, c.consensus_id);
}

#[test]
fn names_sort_bytewise() {
    let names: Vec<Vec<u8>> = vec![b"Solana".to_vec(), b"ICP".to_vec(), b"Ethereum".to_vec(), b"IC".to_vec()];
    let sorted = sort_names(&names);
    assert_eq!(sorted, vec![b"Ethereum".to_vec(), b"IC".to_vec(), b"ICP".to_vec(), b"Solana".to_vec()]);
    assert!(bytes_less(b"IC", b"ICP"));
    assert!(!bytes_less(b"ICP", b"IC"));
    assert!(!bytes_less(b"a", b"a"));
}

#[test]
fn lightweight_attestation() {
    let store = VerificationStore::new(3);
    let outcomes = vec![ok(12), ok(15), ok(20), ok(8)];
    let v = store.verify_cross_chain_transaction(&"policy-1".to_string(), NOW, &chains(), &outcomes).unwrap();
    assert_eq!(v.blockchain, "Multi-Chain");
    assert!(v.verification_status);
    assert!(v.consensus_achieved);
    assert_eq!(v.confirmation_count, 8);
    assert!(v.transaction_hash.starts_with("0x"));
    assert!(store.get_all_transactions().is_empty());
    let weak = vec![ok(12), unverified(0), Err(VerificationError::AdapterUnavailable), ok(30)];
    let v = store.verify_cross_chain_transaction(&"policy-1".to_string(), NOW, &chains(), &weak).unwrap();
    assert!(!v.verification_status);
    assert_eq!(v.confirmation_count, 12);
}

#[test]
fn enrichment_fragments() {
    let q = generate_quantum_signature("t1", NOW).unwrap();
    assert_eq!(q.public_key, "QS_PUB_t1");
    assert!(q.signature.starts_with("QS_SIG_"));
    assert_eq!(q.signature.len(), 7 + 64);
    let z = create_zero_knowledge_proof("t1", NOW).unwrap();
    assert_eq!(z.proof_data, "ZK_PROOF_t1");
    assert_eq!(z.zk_snark_parameters.proving_key, "PK_t1");
    let a = verify_atomic_swap("t1", NOW).unwrap();
    assert_eq!(a.swap_id, "SWAP_t1");
    assert_eq!(a.swap_status, SwapStatus::Completed);
    assert_eq!(a.time_lock, NOW + SWAP_LOCK_NANOS);
    assert_eq!(verify_atomic_swap("t1", u64::MAX - 1).unwrap().time_lock, u64::MAX);
    let l = apply_layer2_optimization("t1", NOW).unwrap();
    assert_eq!(l.gas_savings_bps, 8500);
    let s = verify_sharding("t1", NOW).unwrap();
    assert_eq!(s.shard_id, "SHARD_t1");
    assert_eq!(s.shard_validators.len(), 3);
}

#[test]
fn quantum_secure_ids_are_fresh() {
    let a = quantum_secure_transaction_id();
    let b = quantum_secure_transaction_id();
    assert!(a.starts_with("QS_TX_"));
    assert_eq!(a.len(), 42);
    assert_ne!(a, b);
}
