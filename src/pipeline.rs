//! The verification pipeline: from the evidence collected for a transaction
//! to the composite record, its Merkle tree and consensus proof, all stored
//! under the transaction id, and an entry in the append-only audit log.

use crate::consensus::{
    achieve_consensus, chain_names, confirmed_count, consensus_id_of, lemma_consensus_correct, success_count, texts,
    ConsensusProof,
};
use crate::cross_chain::{
    perform_cross_chain_verification, records_outcome, ChainEvidence, CrossChainVerification,
};
use crate::enrichment::{
    AtomicSwapDetails, Layer2Optimization, QuantumSignature, ShardingVerification,
    ZeroKnowledgeProof,
};
use crate::error::VerificationError;
use crate::hash_util::{
    append_framed_text, append_u64, framed_text, generate_block_hash, generate_block_number,
    generate_cross_chain_proof, generate_transaction_hash, hex_of, prefixed, prefixed_hex, stamped_digest_of, to_hex, u64_bytes, BLOCK_TIME, TAG_BLOCK,
    TAG_CROSS_CHAIN_PROOF, TAG_TRANSACTION,
};
use crate::merkle::{build, digests, leaf_level, MerkleTree};
use crate::table::KeyedTable;
use vstd::prelude::*;

verus! {

/// Where a transaction stands in the pipeline.
#[derive(Clone, Copy, Debug, PartialEq, Eq, Structural)]
pub enum TransactionStatus {
    Pending,
    Confirmed,
    Failed,
    CrossChainConfirmed,
    QuantumSecured,
    Layer2Optimized,
    ShardingVerified,
}

/// The composite record of one verification run.
#[derive(Debug, PartialEq, Eq)]
pub struct BlockchainTransaction {
    pub transaction_id: String,
    pub block_hash: String,
    pub block_number: u64,
    pub timestamp: u64,
    pub gas_used: u64,
    pub gas_price: u64,
    pub status: TransactionStatus,
    pub confirmations: u32,
    pub merkle_proof: Vec<String>,
    pub cross_chain_verification: Vec<CrossChainVerification>,
    pub quantum_signature: Option<QuantumSignature>,
    pub zero_knowledge_proof: Option<ZeroKnowledgeProof>,
    pub atomic_swap_details: Option<AtomicSwapDetails>,
    pub layer2_optimization: Option<Layer2Optimization>,
    pub sharding_verification: Option<ShardingVerification>,
}

/// One entry of the audit log of a transaction.
#[derive(Debug, PartialEq, Eq)]
pub struct VerificationLog {
    pub log_id: String,
    pub transaction_id: String,
    pub verification_type: String,
    pub status: bool,
    pub timestamp: u64,
    pub details: String,
    pub blockchain_hash: Option<String>,
}

/// What the proof enrichers produced for a run; an enricher that failed
/// leaves its field empty.
#[derive(Debug, PartialEq, Eq)]
pub struct Enrichments {
    pub quantum_signature: Option<QuantumSignature>,
    pub zero_knowledge_proof: Option<ZeroKnowledgeProof>,
    pub atomic_swap_details: Option<AtomicSwapDetails>,
    pub layer2_optimization: Option<Layer2Optimization>,
    pub sharding_verification: Option<ShardingVerification>,
}

/// Both absent, or both present and field by field equal.
pub open spec fn same_swap(a: Option<AtomicSwapDetails>, b: Option<AtomicSwapDetails>) -> bool {
    match (a, b) {
        (Some(x), Some(y)) => x.same(&y),
        (None, None) => true,
        _ => false,
    }
}

/// Both absent, or both present and field by field equal.
pub open spec fn same_sharding(a: Option<ShardingVerification>, b: Option<ShardingVerification>) -> bool {
    match (a, b) {
        (Some(x), Some(y)) => x.same(&y),
        (None, None) => true,
        _ => false,
    }
}

impl Clone for VerificationLog {
    fn clone(&self) -> (r: Self)
        ensures
            r == *self,
    {
        let blockchain_hash = match &self.blockchain_hash {
            Some(h) => Some(h.clone()),
            None => None,
        };
        VerificationLog {
            log_id: self.log_id.clone(),
            transaction_id: self.transaction_id.clone(),
            verification_type: self.verification_type.clone(),
            status: self.status,
            timestamp: self.timestamp,
            details: self.details.clone(),
            blockchain_hash,
        }
    }
}

impl BlockchainTransaction {
    /// Field by field equal to `o`, comparing lists by their elements.
    pub open spec fn same(&self, o: &Self) -> bool {
        &&& self.transaction_id == o.transaction_id
        &&& self.block_hash == o.block_hash
        &&& self.block_number == o.block_number
        &&& self.timestamp == o.timestamp
        &&& self.gas_used == o.gas_used
        &&& self.gas_price == o.gas_price
        &&& self.status == o.status
        &&& self.confirmations == o.confirmations
        &&& self.merkle_proof@ == o.merkle_proof@
        &&& self.cross_chain_verification@ == o.cross_chain_verification@
        &&& self.quantum_signature == o.quantum_signature
        &&& self.zero_knowledge_proof == o.zero_knowledge_proof
        &&& same_swap(self.atomic_swap_details, o.atomic_swap_details)
        &&& self.layer2_optimization == o.layer2_optimization
        &&& same_sharding(self.sharding_verification, o.sharding_verification)
    }

    /// A copy that is field by field equal to this one.
    pub fn duplicate(&self) -> (r: Self)
        ensures
            r.same(self),
    {
        let mut evidence: Vec<CrossChainVerification> = Vec::new();
        let mut i: usize = 0;
        while i < self.cross_chain_verification.len()
            invariant
                i <= self.cross_chain_verification@.len(),
                evidence@ == self.cross_chain_verification@.take(i as int),
            decreases self.cross_chain_verification.len() - i,
        {
            evidence.push(self.cross_chain_verification[i].clone());
            assert(evidence@ =~= self.cross_chain_verification@.take(i + 1));
            i = i + 1;
        }
        assert(self.cross_chain_verification@.take(i as int) =~= self.cross_chain_verification@);
        let quantum_signature = match &self.quantum_signature {
            Some(q) => Some(q.clone()),
            None => None,
        };
        let zero_knowledge_proof = match &self.zero_knowledge_proof {
            Some(z) => Some(z.clone()),
            None => None,
        };
        let atomic_swap_details = match &self.atomic_swap_details {
            Some(a) => Some(a.duplicate()),
            None => None,
        };
        let layer2_optimization = match &self.layer2_optimization {
            Some(l) => Some(l.clone()),
            None => None,
        };
        let sharding_verification = match &self.sharding_verification {
            Some(s) => Some(s.duplicate()),
            None => None,
        };
        BlockchainTransaction {
            transaction_id: self.transaction_id.clone(),
            block_hash: self.block_hash.clone(),
            block_number: self.block_number,
            timestamp: self.timestamp,
            gas_used: self.gas_used,
            gas_price: self.gas_price,
            status: self.status,
            confirmations: self.confirmations,
            merkle_proof: crate::enrichment::copy_texts(&self.merkle_proof),
            cross_chain_verification: evidence,
            quantum_signature,
            zero_knowledge_proof,
            atomic_swap_details,
            layer2_optimization,
            sharding_verification,
        }
    }
}


/// Gas recorded for every verified transaction.
pub const GAS_USED: u64 = 21000;

/// Gas price recorded for every verified transaction.
pub const GAS_PRICE: u64 = 20_000_000_000;

/// Block confirmations recorded for every verified transaction.
pub const CONFIRMATIONS: u32 = 12;

/// Kinds of Merkle leaf, so that leaves of different evidence never coincide.
pub const LEAF_CHAIN: u8 = 0;
pub const LEAF_QUANTUM: u8 = 1;
pub const LEAF_ZK: u8 = 2;
pub const LEAF_SWAP: u8 = 3;
pub const LEAF_LAYER2: u8 = 4;
pub const LEAF_SHARDING: u8 = 5;

/// The leaf of one chain's evidence.
pub open spec fn chain_leaf(v: CrossChainVerification) -> Seq<u8> {
    seq![LEAF_CHAIN] + framed_text(v.blockchain@) + seq![if v.verification_status { 1u8 } else { 0u8 }]
        + u64_bytes(v.confirmation_count as u64) + framed_text(v.cross_chain_proof@)
}

/// The leaf of an enrichment fragment, identified by its key text.
pub open spec fn fragment_leaf(kind: u8, key: Seq<char>) -> Seq<u8> {
    seq![kind] + framed_text(key)
}

/// The leaf of a fragment when it is present, and none otherwise.
pub open spec fn optional_leaf(kind: u8, key: Option<Seq<char>>) -> Seq<Seq<u8>> {
    match key {
        Some(k) => seq![fragment_leaf(kind, k)],
        None => Seq::empty(),
    }
}

/// The leaves of the enrichment fragments, in a fixed order.
pub open spec fn enrichment_leaves(e: Enrichments) -> Seq<Seq<u8>> {
    optional_leaf(
        LEAF_QUANTUM,
        match e.quantum_signature {
            Some(q) => Some(q.signature@),
            None => None,
        },
    ) + optional_leaf(
        LEAF_ZK,
        match e.zero_knowledge_proof {
            Some(z) => Some(z.proof_data@),
            None => None,
        },
    ) + optional_leaf(
        LEAF_SWAP,
        match e.atomic_swap_details {
            Some(a) => Some(a.hash_lock@),
            None => None,
        },
    ) + optional_leaf(
        LEAF_LAYER2,
        match e.layer2_optimization {
            Some(l) => Some(l.layer2_protocol@),
            None => None,
        },
    ) + optional_leaf(
        LEAF_SHARDING,
        match e.sharding_verification {
            Some(s) => Some(s.shard_id@),
            None => None,
        },
    )
}

/// The leaves of a run: one per chain in the configured order, then one per
/// enrichment fragment produced.
pub open spec fn evidence_leaves(evidence: Seq<CrossChainVerification>, e: Enrichments) -> Seq<Seq<u8>> {
    evidence.map_values(|v: CrossChainVerification| chain_leaf(v)) + enrichment_leaves(e)
}

fn chain_leaf_bytes(v: &CrossChainVerification) -> (r: Vec<u8>)
    ensures
        r@ == chain_leaf(*v),
{
    let mut b: Vec<u8> = Vec::new();
    b.push(LEAF_CHAIN);
    append_framed_text(&mut b, v.blockchain.as_str());
    b.push(if v.verification_status { 1u8 } else { 0u8 });
    append_u64(&mut b, v.confirmation_count as u64);
    append_framed_text(&mut b, v.cross_chain_proof.as_str());
    assert(b@ =~= chain_leaf(*v));
    b
}

fn push_fragment_leaf(leaves: &mut Vec<Vec<u8>>, kind: u8, key: Option<&String>)
    ensures
        digests(final(leaves)@) == digests(old(leaves)@) + optional_leaf(
            kind,
            match key {
                Some(k) => Some(k@),
                None => None,
            },
        ),
{
    let ghost before = digests(leaves@);
    match key {
        Some(k) => {
            let mut b: Vec<u8> = Vec::new();
            b.push(kind);
            append_framed_text(&mut b, k.as_str());
            assert(b@ =~= fragment_leaf(kind, k@));
            leaves.push(b);
            assert(digests(leaves@) =~= before + seq![fragment_leaf(kind, k@)]);
        },
        None => {
            assert(before + Seq::<Seq<u8>>::empty() =~= before);
        },
    }
}

fn evidence_leaf_bytes(evidence: &Vec<CrossChainVerification>, e: &Enrichments) -> (r: Vec<Vec<u8>>)
    ensures
        digests(r@) == evidence_leaves(evidence@, *e),
{
    let mut leaves: Vec<Vec<u8>> = Vec::new();
    let mut i: usize = 0;
    while i < evidence.len()
        invariant
            i <= evidence@.len(),
            leaves@.len() == i,
            forall|j: int| 0 <= j < i ==> #[trigger] leaves@[j]@ == chain_leaf(evidence@[j]),
        decreases evidence.len() - i,
    {
        leaves.push(chain_leaf_bytes(&evidence[i]));
        i = i + 1;
    }
    let ghost chains = digests(leaves@);
    assert(chains =~= evidence@.map_values(|v: CrossChainVerification| chain_leaf(v)));
    push_fragment_leaf(
        &mut leaves,
        LEAF_QUANTUM,
        match &e.quantum_signature {
            Some(q) => Some(&q.signature),
            None => None,
        },
    );
    push_fragment_leaf(
        &mut leaves,
        LEAF_ZK,
        match &e.zero_knowledge_proof {
            Some(z) => Some(&z.proof_data),
            None => None,
        },
    );
    push_fragment_leaf(
        &mut leaves,
        LEAF_SWAP,
        match &e.atomic_swap_details {
            Some(a) => Some(&a.hash_lock),
            None => None,
        },
    );
    push_fragment_leaf(
        &mut leaves,
        LEAF_LAYER2,
        match &e.layer2_optimization {
            Some(l) => Some(&l.layer2_protocol),
            None => None,
        },
    );
    push_fragment_leaf(
        &mut leaves,
        LEAF_SHARDING,
        match &e.sharding_verification {
            Some(s) => Some(&s.shard_id),
            None => None,
        },
    );
    assert(digests(leaves@) =~= evidence_leaves(evidence@, *e));
    leaves
}

/// The hex text of each digest.
pub open spec fn hex_texts(ds: Seq<Seq<u8>>) -> Seq<Seq<char>> {
    ds.map_values(|d: Seq<u8>| hex_of(d))
}

fn hex_list(ds: &Vec<Vec<u8>>) -> (r: Vec<String>)
    ensures
        texts(r@) == hex_texts(digests(ds@)),
{
    let mut r: Vec<String> = Vec::new();
    let mut i: usize = 0;
    while i < ds.len()
        invariant
            i <= ds@.len(),
            r@.len() == i,
            forall|j: int| 0 <= j < i ==> #[trigger] r@[j]@ == hex_of(ds@[j]@),
        decreases ds.len() - i,
    {
        r.push(to_hex(ds[i].as_slice()));
        i = i + 1;
    }
    assert(texts(r@) =~= hex_texts(digests(ds@)));
    r
}


/// Relies on `uuid::Uuid::new_v4` and its `Display`: a random version-4 UUID
/// in hyphenated form, which is 36 characters long.
#[verifier::external_body]
fn fresh_uuid() -> (r: String)
    ensures
        r@.len() == 36,
{
    uuid::Uuid::new_v4().to_string()
}

/// A fresh id for a quantum-secure transaction: `QS_TX_` and a random UUID.
pub fn quantum_secure_transaction_id() -> (r: String)
    ensures
        r@.subrange(0, 6) == "QS_TX_"@,
        r@.len() == 42,
{
    let id = prefixed("QS_TX_", fresh_uuid().as_str());
    proof {
        reveal_strlit("QS_TX_");
    }
    assert(id@.subrange(0, 6) =~= "QS_TX_"@);
    id
}

/// The first words of a log entry's details.
pub open spec fn outcome_text(achieved: bool) -> Seq<char> {
    if achieved {
        "Consensus reached"@
    } else {
        "Consensus not reached"@
    }
}

/// A note for each chain that did not verify the transaction, in order.
pub open spec fn unverified_notes(evidence: Seq<CrossChainVerification>) -> Seq<char>
    decreases evidence.len(),
{
    if evidence.len() == 0 {
        Seq::empty()
    } else {
        unverified_notes(evidence.drop_last()) + if evidence.last().verification_status {
            Seq::empty()
        } else {
            "; unverified: "@ + evidence.last().blockchain@
        }
    }
}

/// `note` when `absent` holds.
pub open spec fn note_if(absent: bool, note: Seq<char>) -> Seq<char> {
    if absent {
        note
    } else {
        Seq::empty()
    }
}

/// A note for each enrichment that is missing, in a fixed order.
pub open spec fn missing_notes(e: Enrichments) -> Seq<char> {
    note_if(e.quantum_signature is None, "; missing: quantum signature"@) + note_if(
        e.zero_knowledge_proof is None,
        "; missing: zero-knowledge proof"@,
    ) + note_if(e.atomic_swap_details is None, "; missing: atomic swap"@) + note_if(
        e.layer2_optimization is None,
        "; missing: layer-2 optimization"@,
    ) + note_if(e.sharding_verification is None, "; missing: sharding verification"@)
}

/// The details of the log entry of a run.
pub open spec fn run_details(
    achieved: bool,
    evidence: Seq<CrossChainVerification>,
    e: Enrichments,
) -> Seq<char> {
    outcome_text(achieved) + unverified_notes(evidence) + missing_notes(e)
}

fn append_note_if(out: &mut String, absent: bool, note: &str)
    ensures
        final(out)@ == old(out)@ + note_if(absent, note@),
{
    if absent {
        out.append(note);
    } else {
        assert(out@ + note_if(absent, note@) =~= out@);
    }
}

fn details_text(achieved: bool, evidence: &Vec<CrossChainVerification>, e: &Enrichments) -> (r: String)
    ensures
        r@ == run_details(achieved, evidence@, *e),
{
    let mut out = if achieved {
        String::from_str("Consensus reached")
    } else {
        String::from_str("Consensus not reached")
    };
    let ghost head = out@;
    let mut i: usize = 0;
    assert(evidence@.take(0) =~= Seq::<CrossChainVerification>::empty());
    assert(out@ =~= head + unverified_notes(evidence@.take(0)));
    while i < evidence.len()
        invariant
            i <= evidence@.len(),
            out@ == head + unverified_notes(evidence@.take(i as int)),
        decreases evidence.len() - i,
    {
        let v = &evidence[i];
        assert(evidence@.take(i + 1).drop_last() =~= evidence@.take(i as int));
        if !v.verification_status {
            out.append("; unverified: ");
            out.append(v.blockchain.as_str());
        }
        assert(out@ =~= head + unverified_notes(evidence@.take(i + 1)));
        i = i + 1;
    }
    assert(evidence@.take(i as int) =~= evidence@);
    append_note_if(&mut out, e.quantum_signature.is_none(), "; missing: quantum signature");
    append_note_if(&mut out, e.zero_knowledge_proof.is_none(), "; missing: zero-knowledge proof");
    append_note_if(&mut out, e.atomic_swap_details.is_none(), "; missing: atomic swap");
    append_note_if(&mut out, e.layer2_optimization.is_none(), "; missing: layer-2 optimization");
    append_note_if(&mut out, e.sharding_verification.is_none(), "; missing: sharding verification");
    assert(out@ =~= run_details(achieved, evidence@, *e));
    out
}

/// The entries of the log that belong to `transaction_id`, in order.
pub open spec fn logs_for(logs: Seq<VerificationLog>, transaction_id: Seq<char>) -> Seq<VerificationLog>
    decreases logs.len(),
{
    if logs.len() == 0 {
        Seq::empty()
    } else if logs.last().transaction_id@ == transaction_id {
        logs_for(logs.drop_last(), transaction_id).push(logs.last())
    } else {
        logs_for(logs.drop_last(), transaction_id)
    }
}

/// The record that a run produced: the one returned, or the one carried by
/// its consensus failure.
pub open spec fn run_record(r: Result<BlockchainTransaction, VerificationError>) -> BlockchainTransaction {
    match r {
        Ok(t) => t,
        Err(VerificationError::ConsensusNotReached(t)) => t,
        Err(_) => arbitrary(),
    }
}

/// `rec` is the composite record of a run for `transaction_id` at `now`,
/// from the given adapter outcomes and enrichments under `threshold`.
pub open spec fn assembled(
    rec: BlockchainTransaction,
    transaction_id: Seq<char>,
    now: u64,
    chains: Seq<String>,
    outcomes: Seq<Result<ChainEvidence, VerificationError>>,
    e: Enrichments,
    threshold: u32,
) -> bool {
    &&& rec.transaction_id@ == transaction_id
    &&& rec.block_hash@ == prefixed_hex(stamped_digest_of(TAG_BLOCK, transaction_id, now))
    &&& rec.block_number == now / BLOCK_TIME
    &&& rec.timestamp == now
    &&& rec.gas_used == GAS_USED
    &&& rec.gas_price == GAS_PRICE
    &&& rec.confirmations == CONFIRMATIONS
    &&& rec.cross_chain_verification@.len() == chains.len()
    &&& forall|i: int|
        0 <= i < chains.len() ==> #[trigger] records_outcome(
            rec.cross_chain_verification@[i],
            chains[i]@,
            transaction_id,
            outcomes[i],
            now,
        )
    &&& rec.status == if confirmed_count(outcomes) >= threshold {
        TransactionStatus::CrossChainConfirmed
    } else {
        TransactionStatus::Failed
    }
    &&& texts(rec.merkle_proof@) == hex_texts(
        leaf_level(evidence_leaves(rec.cross_chain_verification@, e)),
    )
    &&& rec.quantum_signature == e.quantum_signature
    &&& rec.zero_knowledge_proof == e.zero_knowledge_proof
    &&& rec.atomic_swap_details == e.atomic_swap_details
    &&& rec.layer2_optimization == e.layer2_optimization
    &&& rec.sharding_verification == e.sharding_verification
}

/// `entry` is the log entry of a run for `transaction_id` at `now`.
pub open spec fn logged(
    entry: VerificationLog,
    transaction_id: Seq<char>,
    now: u64,
    achieved: bool,
    details: Seq<char>,
    block_hash: Seq<char>,
) -> bool {
    &&& entry.transaction_id@ == transaction_id
    &&& entry.verification_type@ == "Cross-Chain Verification"@
    &&& entry.status == achieved
    &&& entry.timestamp == now
    &&& entry.details@ == details
    &&& entry.blockchain_hash is Some
    &&& entry.blockchain_hash->Some_0@ == block_hash
    &&& entry.log_id@.len() == 40
}

/// The stores of the pipeline: composite records, Merkle trees and consensus
/// proofs under their transaction id, and the append-only audit log.
pub struct VerificationStore {
    pub consensus_threshold: u32,
    pub transactions: KeyedTable<BlockchainTransaction>,
    pub merkle_trees: KeyedTable<MerkleTree>,
    pub consensus_proofs: KeyedTable<ConsensusProof>,
    pub verification_logs: Vec<VerificationLog>,
}

impl VerificationStore {
    /// Each table holds one value per key.
    pub open spec fn wf(&self) -> bool {
        &&& self.transactions.wf()
        &&& self.merkle_trees.wf()
        &&& self.consensus_proofs.wf()
    }

    /// Empty stores; consensus will need `consensus_threshold` verified chains.
    pub fn new(consensus_threshold: u32) -> (r: Self)
        ensures
            r.wf(),
            r.consensus_threshold == consensus_threshold,
            r.transactions.keys@.len() == 0,
            r.merkle_trees.keys@.len() == 0,
            r.consensus_proofs.keys@.len() == 0,
            r.verification_logs@.len() == 0,
    {
        VerificationStore {
            consensus_threshold,
            transactions: KeyedTable::new(),
            merkle_trees: KeyedTable::new(),
            consensus_proofs: KeyedTable::new(),
            verification_logs: Vec::new(),
        }
    }

    /// Runs the assembly stage of the pipeline for `transaction_id` at `now`,
    /// once every adapter and enricher has answered: `outcomes[i]` is what
    /// the adapter of `chains[i]` gave, `enrichments` what the enrichers
    /// produced. The record, its Merkle tree and its consensus proof are
    /// stored under the transaction id, replacing an earlier run's, and one
    /// entry is appended to the log. The record is returned when consensus is
    /// reached, and otherwise carried by `ConsensusNotReached`.
    pub fn verify_transaction(
        &mut self,
        transaction_id: String,
        now: u64,
        chains: &Vec<String>,
        outcomes: &Vec<Result<ChainEvidence, VerificationError>>,
        enrichments: Enrichments,
    ) -> (r: Result<BlockchainTransaction, VerificationError>)
        requires
            old(self).wf(),
            chains.len() == outcomes.len(),
            chains.len() >= 1,
            chains.len() + 5 <= u32::MAX,
        ensures
            final(self).wf(),
            final(self).consensus_threshold == old(self).consensus_threshold,
            r is Ok <==> confirmed_count(outcomes@) >= old(self).consensus_threshold,
            r is Ok || r matches Err(VerificationError::ConsensusNotReached(_)),
            assembled(
                run_record(r),
                transaction_id@,
                now,
                chains@,
                outcomes@,
                enrichments,
                old(self).consensus_threshold,
            ),
            final(self).transactions.has(transaction_id@),
            final(self).transactions.at(transaction_id@).same(&run_record(r)),
            final(self).transactions.same_except(&old(self).transactions, transaction_id@),
            final(self).merkle_trees.has(transaction_id@),
            final(self).merkle_trees.at(transaction_id@).built_from(
                evidence_leaves(run_record(r).cross_chain_verification@, enrichments),
            ),
            final(self).merkle_trees.same_except(&old(self).merkle_trees, transaction_id@),
            final(self).consensus_proofs.has(transaction_id@),
            final(self).consensus_proofs.at(transaction_id@).achieved_consensus == r is Ok,
            final(self).consensus_proofs.at(transaction_id@).consensus_threshold
                == old(self).consensus_threshold,
            texts(final(self).consensus_proofs.at(transaction_id@).participating_chains@) == texts(
                chains@,
            ),
            final(self).consensus_proofs.at(transaction_id@).consensus_id@ == consensus_id_of(
                transaction_id@,
                texts(chains@),
            ),
            final(self).consensus_proofs.same_except(&old(self).consensus_proofs, transaction_id@),
            final(self).verification_logs@.len() == old(self).verification_logs@.len() + 1,
            final(self).verification_logs@.drop_last() == old(self).verification_logs@,
            logged(
                final(self).verification_logs@.last(),
                transaction_id@,
                now,
                r is Ok,
                run_details(r is Ok, run_record(r).cross_chain_verification@, enrichments),
                run_record(r).block_hash@,
            ),
    {
        let threshold = self.consensus_threshold;
        let block_hash = generate_block_hash(transaction_id.as_str(), now);
        let evidence = perform_cross_chain_verification(
            transaction_id.as_str(),
            chains,
            outcomes,
            now,
        );
        let leaves = evidence_leaf_bytes(&evidence, &enrichments);
        assert(digests(leaves@).len() == leaves@.len());
        assert(evidence_leaves(evidence@, enrichments).len() >= evidence@.len());
        let tree = match build(&leaves) {
            Ok(t) => t,
            Err(e) => {
                return Err(e);
            },
        };
        let consensus = achieve_consensus(transaction_id.as_str(), &evidence, threshold, now);
        proof {
            assert forall|i: int| 0 <= i < evidence@.len() implies #[trigger] records_outcome(
                evidence@[i],
                texts(chains@)[i],
                transaction_id@,
                outcomes@[i],
                now,
            ) by {
                assert(records_outcome(evidence@[i], chains@[i]@, transaction_id@, outcomes@[i], now));
            }
            lemma_consensus_correct(
                texts(chains@),
                transaction_id@,
                outcomes@,
                now,
                evidence@,
                threshold,
                consensus,
            );
            assert forall|i: int| 0 <= i < evidence@.len() implies #[trigger] chain_names(evidence@)[i]
                == texts(chains@)[i] by {
                assert(records_outcome(evidence@[i], chains@[i]@, transaction_id@, outcomes@[i], now));
            }
            assert(chain_names(evidence@) =~= texts(chains@));
        }
        let achieved = consensus.achieved_consensus;
        let details = details_text(achieved, &evidence, &enrichments);
        let merkle_proof = hex_list(&tree.leaf_hashes);
        let log_id = prefixed("LOG_", fresh_uuid().as_str());
        proof {
            reveal_strlit("LOG_");
        }
        let verification_type = String::from_str("Cross-Chain Verification");
        let log_entry = VerificationLog {
            log_id,
            transaction_id: transaction_id.clone(),
            verification_type,
            status: achieved,
            timestamp: now,
            details,
            blockchain_hash: Some(block_hash.clone()),
        };
        let record = BlockchainTransaction {
            transaction_id: transaction_id.clone(),
            block_hash,
            block_number: generate_block_number(now),
            timestamp: now,
            gas_used: GAS_USED,
            gas_price: GAS_PRICE,
            status: if achieved {
                TransactionStatus::CrossChainConfirmed
            } else {
                TransactionStatus::Failed
            },
            confirmations: CONFIRMATIONS,
            merkle_proof,
            cross_chain_verification: evidence,
            quantum_signature: enrichments.quantum_signature,
            zero_knowledge_proof: enrichments.zero_knowledge_proof,
            atomic_swap_details: enrichments.atomic_swap_details,
            layer2_optimization: enrichments.layer2_optimization,
            sharding_verification: enrichments.sharding_verification,
        };
        self.transactions.insert(transaction_id.clone(), record.duplicate());
        self.merkle_trees.insert(transaction_id.clone(), tree);
        self.consensus_proofs.insert(transaction_id, consensus);
        self.verification_logs.push(log_entry);
        assert(self.verification_logs@.drop_last() =~= old(self).verification_logs@);
        if achieved {
            Ok(record)
        } else {
            Err(VerificationError::ConsensusNotReached(record))
        }
    }

    /// The record stored under `transaction_id`, or `NotFound`.
    pub fn get_transaction(&self, transaction_id: &String) -> (r: Result<
        BlockchainTransaction,
        VerificationError,
    >)
        requires
            self.wf(),
        ensures
            self.transactions.has(transaction_id@) ==> (r matches Ok(t) && t.same(
                &self.transactions.at(transaction_id@),
            )),
            !self.transactions.has(transaction_id@) ==> r matches Err(VerificationError::NotFound),
    {
        match self.transactions.get(transaction_id) {
            Some(t) => Ok(t.duplicate()),
            None => Err(VerificationError::NotFound),
        }
    }

    /// Every stored record, in the order their ids were first stored.
    pub fn get_all_transactions(&self) -> (r: Vec<BlockchainTransaction>)
        ensures
            r@.len() == self.transactions.values@.len(),
            forall|i: int|
                0 <= i < r@.len() ==> #[trigger] r@[i].same(&self.transactions.values@[i]),
    {
        let values = &self.transactions.values;
        let mut r: Vec<BlockchainTransaction> = Vec::new();
        let mut i: usize = 0;
        while i < values.len()
            invariant
                values == &self.transactions.values,
                i <= values@.len(),
                r@.len() == i,
                forall|j: int| 0 <= j < i ==> #[trigger] r@[j].same(&values@[j]),
            decreases values.len() - i,
        {
            r.push(values[i].duplicate());
            i = i + 1;
        }
        r
    }

    /// The log entries of `transaction_id`, oldest first; empty when there
    /// are none.
    pub fn get_verification_logs(&self, transaction_id: &String) -> (r: Vec<VerificationLog>)
        ensures
            r@ == logs_for(self.verification_logs@, transaction_id@),
    {
        let logs = &self.verification_logs;
        let mut r: Vec<VerificationLog> = Vec::new();
        let mut i: usize = 0;
        assert(logs@.take(0) =~= Seq::<VerificationLog>::empty());
        while i < logs.len()
            invariant
                logs == &self.verification_logs,
                i <= logs@.len(),
                r@ == logs_for(logs@.take(i as int), transaction_id@),
            decreases logs.len() - i,
        {
            assert(logs@.take(i + 1).drop_last() =~= logs@.take(i as int));
            if logs[i].transaction_id == *transaction_id {
                r.push(logs[i].clone());
            }
            i = i + 1;
        }
        assert(logs@.take(i as int) =~= logs@);
        r
    }

    /// A lightweight attestation of `policy_id` at `now`, from the adapter
    /// outcomes of the configured chains: verified exactly when at least the
    /// threshold of chains verified it, with the smallest confirmation count
    /// among the verified chains. Nothing is stored.
    pub fn verify_cross_chain_transaction(
        &self,
        policy_id: &String,
        now: u64,
        chains: &Vec<String>,
        outcomes: &Vec<Result<ChainEvidence, VerificationError>>,
    ) -> (r: Result<CrossChainVerification, VerificationError>)
        requires
            chains.len() == outcomes.len(),
        ensures
            r matches Ok(v) && {
                &&& v.blockchain@ == "Multi-Chain"@
                &&& v.transaction_hash@ == prefixed_hex(
                    stamped_digest_of(TAG_TRANSACTION, policy_id@, now),
                )
                &&& v.verification_status == (confirmed_count(outcomes@)
                    >= self.consensus_threshold)
                &&& v.consensus_achieved == v.verification_status
                &&& v.verification_timestamp == now
                &&& v.cross_chain_proof@ == hex_of(
                    stamped_digest_of(TAG_CROSS_CHAIN_PROOF, policy_id@, now),
                )
                &&& exists|evidence: Seq<CrossChainVerification>|
                    {
                        &&& evidence.len() == chains@.len()
                        &&& forall|i: int|
                            0 <= i < evidence.len() ==> #[trigger] records_outcome(
                                evidence[i],
                                chains@[i]@,
                                policy_id@,
                                outcomes@[i],
                                now,
                            )
                        &&& v.confirmation_count == least_confirmations(evidence)
                    }
            },
    {
        let evidence = perform_cross_chain_verification(policy_id.as_str(), chains, outcomes, now);
        let consensus = achieve_consensus(
            policy_id.as_str(),
            &evidence,
            self.consensus_threshold,
            now,
        );
        proof {
            assert forall|i: int| 0 <= i < evidence@.len() implies #[trigger] records_outcome(
                evidence@[i],
                texts(chains@)[i],
                policy_id@,
                outcomes@[i],
                now,
            ) by {
                assert(records_outcome(evidence@[i], chains@[i]@, policy_id@, outcomes@[i], now));
            }
            lemma_consensus_correct(
                texts(chains@),
                policy_id@,
                outcomes@,
                now,
                evidence@,
                self.consensus_threshold,
                consensus,
            );
        }
        let least = least_verified_confirmations(&evidence);
        Ok(
            CrossChainVerification {
                blockchain: String::from_str("Multi-Chain"),
                transaction_hash: generate_transaction_hash(policy_id.as_str(), now),
                verification_status: consensus.achieved_consensus,
                confirmation_count: least,
                verification_timestamp: now,
                consensus_achieved: consensus.achieved_consensus,
                cross_chain_proof: generate_cross_chain_proof(policy_id.as_str(), now),
            },
        )
    }
}


/// The smallest confirmation count among the verified chains; 0 when no
/// chain verified.
pub open spec fn least_confirmations(evidence: Seq<CrossChainVerification>) -> u32
    decreases evidence.len(),
{
    if evidence.len() == 0 {
        0
    } else {
        let rest = least_confirmations(evidence.drop_last());
        let v = evidence.last();
        if !v.verification_status {
            rest
        } else if success_count(evidence.drop_last()) == 0 || v.confirmation_count < rest {
            v.confirmation_count
        } else {
            rest
        }
    }
}

fn least_verified_confirmations(evidence: &Vec<CrossChainVerification>) -> (r: u32)
    ensures
        r == least_confirmations(evidence@),
{
    let mut least: u32 = 0;
    let mut any = false;
    let mut i: usize = 0;
    assert(evidence@.take(0) =~= Seq::<CrossChainVerification>::empty());
    while i < evidence.len()
        invariant
            i <= evidence@.len(),
            least == least_confirmations(evidence@.take(i as int)),
            any == (success_count(evidence@.take(i as int)) > 0),
        decreases evidence.len() - i,
    {
        let v = &evidence[i];
        assert(evidence@.take(i + 1).drop_last() =~= evidence@.take(i as int));
        if v.verification_status {
            if !any || v.confirmation_count < least {
                least = v.confirmation_count;
            }
            any = true;
        }
        i = i + 1;
    }
    assert(evidence@.take(i as int) =~= evidence@);
    least
}


/// A failed adapter is isolated: in the record of a run its chain is
/// unverified with no confirmations, while every other chain carries exactly
/// what its own adapter reported.
pub proof fn lemma_failed_adapter_isolated(
    rec: BlockchainTransaction,
    transaction_id: Seq<char>,
    now: u64,
    chains: Seq<String>,
    outcomes: Seq<Result<ChainEvidence, VerificationError>>,
    e: Enrichments,
    threshold: u32,
    failed: int,
)
    requires
        assembled(rec, transaction_id, now, chains, outcomes, e, threshold),
        0 <= failed < chains.len(),
        outcomes[failed] is Err,
    ensures
        rec.cross_chain_verification@.len() == chains.len(),
        rec.cross_chain_verification@[failed].blockchain@ == chains[failed]@,
        !rec.cross_chain_verification@[failed].verification_status,
        rec.cross_chain_verification@[failed].confirmation_count == 0,
        forall|j: int|
            0 <= j < chains.len() && j != failed && outcomes[j] is Ok ==> {
                &&& (#[trigger] rec.cross_chain_verification@[j]).blockchain@ == chains[j]@
                &&& rec.cross_chain_verification@[j].verification_status
                    == outcomes[j]->Ok_0.verification_status
                &&& rec.cross_chain_verification@[j].confirmation_count
                    == outcomes[j]->Ok_0.confirmation_count
                &&& rec.cross_chain_verification@[j].cross_chain_proof@ == outcomes[j]->Ok_0.proof@
            },
{
    assert(records_outcome(
        rec.cross_chain_verification@[failed],
        chains[failed]@,
        transaction_id,
        outcomes[failed],
        now,
    ));
    assert forall|j: int| 0 <= j < chains.len() && j != failed && outcomes[j] is Ok implies {
        &&& (#[trigger] rec.cross_chain_verification@[j]).blockchain@ == chains[j]@
        &&& rec.cross_chain_verification@[j].verification_status
            == outcomes[j]->Ok_0.verification_status
        &&& rec.cross_chain_verification@[j].confirmation_count
            == outcomes[j]->Ok_0.confirmation_count
        &&& rec.cross_chain_verification@[j].cross_chain_proof@ == outcomes[j]->Ok_0.proof@
    } by {
        assert(records_outcome(
            rec.cross_chain_verification@[j],
            chains[j]@,
            transaction_id,
            outcomes[j],
            now,
        ));
    }
}

} // verus!
