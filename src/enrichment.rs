//! Optional evidence fragments that proof enrichers attach to a transaction
//! record, and the providers that derive them from a transaction id and the
//! time of the run.
//!
//! Fractions are held as basis points (1/10000), so that the records stay
//! exact.

use crate::hash_util::{
    generate_hash_lock, generate_signature_hash, hex_of, prefixed, stamped_digest_of,
    TAG_HASH_LOCK, TAG_SIGNATURE,
};
use vstd::prelude::*;

verus! {

/// A post-quantum signature over a transaction.
#[derive(Debug, PartialEq, Eq)]
pub struct QuantumSignature {
    pub signature_type: String,
    pub public_key: String,
    pub signature: String,
    pub verification_status: bool,
    pub quantum_resistance_level: String,
    pub signature_timestamp: u64,
    pub post_quantum_algorithm: String,
}

/// The parameters of a zk-SNARK proof.
#[derive(Debug, PartialEq, Eq)]
pub struct ZKSnarkParameters {
    pub proving_key: String,
    pub verification_key: String,
    pub trusted_setup: String,
    pub circuit_constraints: u32,
    pub proof_size: u64,
}

/// A zero-knowledge proof about a transaction.
#[derive(Debug, PartialEq, Eq)]
pub struct ZeroKnowledgeProof {
    pub proof_type: String,
    pub proof_data: String,
    pub verification_key: String,
    pub proof_validity: bool,
    pub privacy_level: String,
    pub proof_timestamp: u64,
    pub zk_snark_parameters: ZKSnarkParameters,
}

/// The stages of an atomic swap.
#[derive(Clone, Copy, Debug, PartialEq, Eq, Structural)]
pub enum SwapStatus {
    Initiated,
    HashLocked,
    TimeLocked,
    Completed,
    Expired,
    Failed,
}

/// An atomic swap attestation.
#[derive(Debug, PartialEq, Eq)]
pub struct AtomicSwapDetails {
    pub swap_id: String,
    pub source_chain: String,
    pub destination_chain: String,
    pub amount: u64,
    pub swap_status: SwapStatus,
    pub hash_lock: String,
    pub time_lock: u64,
    pub participants: Vec<String>,
    pub swap_timestamp: u64,
}

/// A layer-2 optimization record.
#[derive(Debug, PartialEq, Eq)]
pub struct Layer2Optimization {
    pub layer2_protocol: String,
    pub rollup_type: String,
    pub gas_savings_bps: u32,
    pub transaction_speed: u32,
    pub security_level: String,
    pub optimization_timestamp: u64,
    pub batch_size: u32,
    pub compression_ratio_bps: u32,
}

/// A sharding verification record.
#[derive(Debug, PartialEq, Eq)]
pub struct ShardingVerification {
    pub shard_id: String,
    pub shard_count: u32,
    pub verification_status: bool,
    pub consensus_mechanism: String,
    pub cross_shard_communication: bool,
    pub sharding_timestamp: u64,
    pub shard_validators: Vec<String>,
    pub shard_consensus_score_bps: u32,
}

impl Clone for QuantumSignature {
    fn clone(&self) -> (r: Self)
        ensures
            r == *self,
    {
        QuantumSignature {
            signature_type: self.signature_type.clone(),
            public_key: self.public_key.clone(),
            signature: self.signature.clone(),
            verification_status: self.verification_status,
            quantum_resistance_level: self.quantum_resistance_level.clone(),
            signature_timestamp: self.signature_timestamp,
            post_quantum_algorithm: self.post_quantum_algorithm.clone(),
        }
    }
}

impl Clone for ZKSnarkParameters {
    fn clone(&self) -> (r: Self)
        ensures
            r == *self,
    {
        ZKSnarkParameters {
            proving_key: self.proving_key.clone(),
            verification_key: self.verification_key.clone(),
            trusted_setup: self.trusted_setup.clone(),
            circuit_constraints: self.circuit_constraints,
            proof_size: self.proof_size,
        }
    }
}

impl Clone for ZeroKnowledgeProof {
    fn clone(&self) -> (r: Self)
        ensures
            r == *self,
    {
        ZeroKnowledgeProof {
            proof_type: self.proof_type.clone(),
            proof_data: self.proof_data.clone(),
            verification_key: self.verification_key.clone(),
            proof_validity: self.proof_validity,
            privacy_level: self.privacy_level.clone(),
            proof_timestamp: self.proof_timestamp,
            zk_snark_parameters: self.zk_snark_parameters.clone(),
        }
    }
}

impl Clone for Layer2Optimization {
    fn clone(&self) -> (r: Self)
        ensures
            r == *self,
    {
        Layer2Optimization {
            layer2_protocol: self.layer2_protocol.clone(),
            rollup_type: self.rollup_type.clone(),
            gas_savings_bps: self.gas_savings_bps,
            transaction_speed: self.transaction_speed,
            security_level: self.security_level.clone(),
            optimization_timestamp: self.optimization_timestamp,
            batch_size: self.batch_size,
            compression_ratio_bps: self.compression_ratio_bps,
        }
    }
}

/// A copy of a list of texts.
pub fn copy_texts(v: &Vec<String>) -> (r: Vec<String>)
    ensures
        r@ == v@,
{
    let mut r: Vec<String> = Vec::new();
    let mut i: usize = 0;
    while i < v.len()
        invariant
            i <= v@.len(),
            r@ == v@.take(i as int),
        decreases v.len() - i,
    {
        r.push(v[i].clone());
        assert(r@ =~= v@.take(i + 1));
        i = i + 1;
    }
    assert(v@.take(i as int) =~= v@);
    r
}

impl AtomicSwapDetails {
    /// Field by field equal to `o`, comparing lists by their elements.
    pub open spec fn same(&self, o: &Self) -> bool {
        &&& self.swap_id == o.swap_id
        &&& self.source_chain == o.source_chain
        &&& self.destination_chain == o.destination_chain
        &&& self.amount == o.amount
        &&& self.swap_status == o.swap_status
        &&& self.hash_lock == o.hash_lock
        &&& self.time_lock == o.time_lock
        &&& self.participants@ == o.participants@
        &&& self.swap_timestamp == o.swap_timestamp
    }

    /// A copy that is field by field equal to this one.
    pub fn duplicate(&self) -> (r: Self)
        ensures
            r.same(self),
    {
        AtomicSwapDetails {
            swap_id: self.swap_id.clone(),
            source_chain: self.source_chain.clone(),
            destination_chain: self.destination_chain.clone(),
            amount: self.amount,
            swap_status: self.swap_status,
            hash_lock: self.hash_lock.clone(),
            time_lock: self.time_lock,
            participants: copy_texts(&self.participants),
            swap_timestamp: self.swap_timestamp,
        }
    }
}

impl ShardingVerification {
    /// Field by field equal to `o`, comparing lists by their elements.
    pub open spec fn same(&self, o: &Self) -> bool {
        &&& self.shard_id == o.shard_id
        &&& self.shard_count == o.shard_count
        &&& self.verification_status == o.verification_status
        &&& self.consensus_mechanism == o.consensus_mechanism
        &&& self.cross_shard_communication == o.cross_shard_communication
        &&& self.sharding_timestamp == o.sharding_timestamp
        &&& self.shard_validators@ == o.shard_validators@
        &&& self.shard_consensus_score_bps == o.shard_consensus_score_bps
    }

    /// A copy that is field by field equal to this one.
    pub fn duplicate(&self) -> (r: Self)
        ensures
            r.same(self),
    {
        ShardingVerification {
            shard_id: self.shard_id.clone(),
            shard_count: self.shard_count,
            verification_status: self.verification_status,
            consensus_mechanism: self.consensus_mechanism.clone(),
            cross_shard_communication: self.cross_shard_communication,
            sharding_timestamp: self.sharding_timestamp,
            shard_validators: copy_texts(&self.shard_validators),
            shard_consensus_score_bps: self.shard_consensus_score_bps,
        }
    }
}

/// How long a swap's hash lock holds, in nanoseconds (one hour).
pub const SWAP_LOCK_NANOS: u64 = 3_600_000_000_000;

/// One unit of the swapped asset in its smallest denomination.
pub const SWAP_AMOUNT: u64 = 1_000_000_000_000_000_000;

/// The post-quantum signature of a transaction signed at `now`.
pub fn generate_quantum_signature(transaction_id: &str, now: u64) -> (r: Option<QuantumSignature>)
    ensures
        r matches Some(q) && {
            &&& q.signature_type@ == "Post-Quantum"@
            &&& q.public_key@ == "QS_PUB_"@ + transaction_id@
            &&& q.signature@ == "QS_SIG_"@ + hex_of(
                stamped_digest_of(TAG_SIGNATURE, transaction_id@, now),
            )
            &&& q.verification_status
            &&& q.signature_timestamp == now
            &&& q.quantum_resistance_level@ == "Level 3"@
            &&& q.post_quantum_algorithm@ == "CRYSTALS-Kyber"@
        },
{
    let signature_hash = generate_signature_hash(transaction_id, now);
    Some(
        QuantumSignature {
            signature_type: String::from_str("Post-Quantum"),
            public_key: prefixed("QS_PUB_", transaction_id),
            signature: prefixed("QS_SIG_", signature_hash.as_str()),
            verification_status: true,
            quantum_resistance_level: String::from_str("Level 3"),
            signature_timestamp: now,
            post_quantum_algorithm: String::from_str("CRYSTALS-Kyber"),
        },
    )
}

/// The zero-knowledge proof of a transaction made at `now`.
pub fn create_zero_knowledge_proof(transaction_id: &str, now: u64) -> (r: Option<ZeroKnowledgeProof>)
    ensures
        r matches Some(z) && {
            &&& z.proof_type@ == "zk-SNARK"@
            &&& z.proof_data@ == "ZK_PROOF_"@ + transaction_id@
            &&& z.privacy_level@ == "High"@
            &&& z.verification_key@ == "ZK_VK_"@ + transaction_id@
            &&& z.proof_validity
            &&& z.proof_timestamp == now
            &&& z.zk_snark_parameters.proving_key@ == "PK_"@ + transaction_id@
            &&& z.zk_snark_parameters.verification_key@ == "VK_"@ + transaction_id@
            &&& z.zk_snark_parameters.trusted_setup@ == "Trusted Setup Complete"@
            &&& z.zk_snark_parameters.circuit_constraints == 1000000
            &&& z.zk_snark_parameters.proof_size == 2048
        },
{
    Some(
        ZeroKnowledgeProof {
            proof_type: String::from_str("zk-SNARK"),
            proof_data: prefixed("ZK_PROOF_", transaction_id),
            verification_key: prefixed("ZK_VK_", transaction_id),
            proof_validity: true,
            privacy_level: String::from_str("High"),
            proof_timestamp: now,
            zk_snark_parameters: ZKSnarkParameters {
                proving_key: prefixed("PK_", transaction_id),
                verification_key: prefixed("VK_", transaction_id),
                trusted_setup: String::from_str("Trusted Setup Complete"),
                circuit_constraints: 1000000,
                proof_size: 2048,
            },
        },
    )
}

/// The atomic swap attestation of a transaction made at `now`; its time lock
/// ends an hour later, or at the largest time when that would overflow.
pub fn verify_atomic_swap(transaction_id: &str, now: u64) -> (r: Option<AtomicSwapDetails>)
    ensures
        r matches Some(a) && {
            &&& a.swap_id@ == "SWAP_"@ + transaction_id@
            &&& a.source_chain@ == "Ethereum"@
            &&& a.destination_chain@ == "ICP"@
            &&& a.amount == SWAP_AMOUNT
            &&& a.swap_status == SwapStatus::Completed
            &&& a.hash_lock@ == hex_of(stamped_digest_of(TAG_HASH_LOCK, transaction_id@, now))
            &&& now <= u64::MAX - SWAP_LOCK_NANOS ==> a.time_lock == now + SWAP_LOCK_NANOS
            &&& now > u64::MAX - SWAP_LOCK_NANOS ==> a.time_lock == u64::MAX
            &&& a.participants@.len() == 2
            &&& a.participants@[0]@ == "0x1234..."@
            &&& a.participants@[1]@ == "ICP_Principal"@
            &&& a.swap_timestamp == now
        },
{
    let time_lock = if now <= u64::MAX - SWAP_LOCK_NANOS {
        now + SWAP_LOCK_NANOS
    } else {
        u64::MAX
    };
    let mut participants: Vec<String> = Vec::new();
    participants.push(String::from_str("0x1234..."));
    participants.push(String::from_str("ICP_Principal"));
    Some(
        AtomicSwapDetails {
            swap_id: prefixed("SWAP_", transaction_id),
            source_chain: String::from_str("Ethereum"),
            destination_chain: String::from_str("ICP"),
            amount: SWAP_AMOUNT,
            swap_status: SwapStatus::Completed,
            hash_lock: generate_hash_lock(transaction_id, now),
            time_lock,
            participants,
            swap_timestamp: now,
        },
    )
}

/// The layer-2 optimization record of a transaction made at `now`.
pub fn apply_layer2_optimization(transaction_id: &str, now: u64) -> (r: Option<Layer2Optimization>)
    ensures
        r matches Some(l) && {
            &&& l.layer2_protocol@ == "Optimistic Rollup"@
            &&& l.rollup_type@ == "Arbitrum"@
            &&& l.security_level@ == "High"@
            &&& l.gas_savings_bps == 8500
            &&& l.transaction_speed == 10
            &&& l.batch_size == 1000
            &&& l.compression_ratio_bps == 7500
            &&& l.optimization_timestamp == now
        },
{
    Some(
        Layer2Optimization {
            layer2_protocol: String::from_str("Optimistic Rollup"),
            rollup_type: String::from_str("Arbitrum"),
            gas_savings_bps: 8500,
            transaction_speed: 10,
            security_level: String::from_str("High"),
            optimization_timestamp: now,
            batch_size: 1000,
            compression_ratio_bps: 7500,
        },
    )
}

/// The sharding verification of a transaction made at `now`.
pub fn verify_sharding(transaction_id: &str, now: u64) -> (r: Option<ShardingVerification>)
    ensures
        r matches Some(s) && {
            &&& s.shard_id@ == "SHARD_"@ + transaction_id@
            &&& s.shard_count == 64
            &&& s.consensus_mechanism@ == "Proof of Stake"@
            &&& s.cross_shard_communication
            &&& s.verification_status
            &&& s.sharding_timestamp == now
            &&& s.shard_validators@.len() == 3
            &&& s.shard_validators@[0]@ == "Validator_1"@
            &&& s.shard_validators@[1]@ == "Validator_2"@
            &&& s.shard_validators@[2]@ == "Validator_3"@
            &&& s.shard_consensus_score_bps == 9500
        },
{
    let mut validators: Vec<String> = Vec::new();
    validators.push(String::from_str("Validator_1"));
    validators.push(String::from_str("Validator_2"));
    validators.push(String::from_str("Validator_3"));
    Some(
        ShardingVerification {
            shard_id: prefixed("SHARD_", transaction_id),
            shard_count: 64,
            verification_status: true,
            consensus_mechanism: String::from_str("Proof of Stake"),
            cross_shard_communication: true,
            sharding_timestamp: now,
            shard_validators: validators,
            shard_consensus_score_bps: 9500,
        },
    )
}

} // verus!
