//! Threshold consensus over per-chain evidence.

use crate::cross_chain::{records_outcome, ChainEvidence, CrossChainVerification};
use crate::error::VerificationError;
use crate::hash_util::{
    append_framed, append_framed_text, digest_hex, framed, framed_text, generate_consensus_proof,
    hex_of, sha256, sha256_of, stamped_digest_of, TAG_CONSENSUS_ID, TAG_CONSENSUS_PROOF,
};
use crate::merkle::{copy_bytes, digests};
use vstd::prelude::*;
use vstd::utf8::encode_utf8;

verus! {

/// The aggregate of the evidence of all configured chains.
#[derive(Clone, Debug, PartialEq, Eq)]
pub struct ConsensusProof {
    pub consensus_id: String,
    pub participating_chains: Vec<String>,
    pub consensus_threshold: u32,
    pub achieved_consensus: bool,
    pub consensus_timestamp: u64,
    pub proof_data: String,
    pub validator_signatures: Vec<String>,
}

/// The number of chains whose evidence is verified.
pub open spec fn success_count(evidences: Seq<CrossChainVerification>) -> nat
    decreases evidences.len(),
{
    if evidences.len() == 0 {
        0
    } else {
        success_count(evidences.drop_last()) + if evidences.last().verification_status {
            1nat
        } else {
            0nat
        }
    }
}

/// The proofs of the verified chains, in order.
pub open spec fn verified_proofs(evidences: Seq<CrossChainVerification>) -> Seq<Seq<char>>
    decreases evidences.len(),
{
    if evidences.len() == 0 {
        Seq::empty()
    } else if evidences.last().verification_status {
        verified_proofs(evidences.drop_last()).push(evidences.last().cross_chain_proof@)
    } else {
        verified_proofs(evidences.drop_last())
    }
}

/// The names of the chains, in order.
pub open spec fn chain_names(evidences: Seq<CrossChainVerification>) -> Seq<Seq<char>> {
    evidences.map_values(|v: CrossChainVerification| v.blockchain@)
}

/// The views of a list of texts.
pub open spec fn texts(v: Seq<String>) -> Seq<Seq<char>> {
    v.map_values(|s: String| s@)
}

/// Byte strings in lexicographic order: a proper prefix comes first.
pub open spec fn bytes_lt(a: Seq<u8>, b: Seq<u8>) -> bool
    decreases a.len(),
{
    if a.len() == 0 {
        b.len() > 0
    } else if b.len() == 0 {
        false
    } else if a[0] != b[0] {
        a[0] < b[0]
    } else {
        bytes_lt(a.drop_first(), b.drop_first())
    }
}

/// The first index from `from` on whose element `x` sorts before.
pub open spec fn insert_pos(t: Seq<Seq<u8>>, x: Seq<u8>, from: int) -> int
    decreases t.len() - from,
{
    if from >= t.len() || bytes_lt(x, t[from]) {
        from
    } else {
        insert_pos(t, x, from + 1)
    }
}

/// The byte strings of `s` in lexicographic order (an insertion sort, stable
/// for equal strings).
pub open spec fn sort_bytes(s: Seq<Seq<u8>>) -> Seq<Seq<u8>>
    decreases s.len(),
{
    if s.len() == 0 {
        Seq::empty()
    } else {
        let t = sort_bytes(s.drop_last());
        t.insert(insert_pos(t, s.last(), 0), s.last())
    }
}

/// Each byte string preceded by its length, all concatenated.
pub open spec fn framed_all(s: Seq<Seq<u8>>) -> Seq<u8>
    decreases s.len(),
{
    if s.len() == 0 {
        Seq::empty()
    } else {
        framed_all(s.drop_last()) + framed(s.last())
    }
}

/// The UTF-8 bytes of each name.
pub open spec fn name_bytes(names: Seq<Seq<char>>) -> Seq<Seq<u8>> {
    names.map_values(|n: Seq<char>| encode_utf8(n))
}

/// What the consensus id is the digest of: the transaction id and the sorted
/// chain names.
pub open spec fn consensus_id_preimage(transaction_id: Seq<char>, names: Seq<Seq<char>>) -> Seq<u8> {
    seq![TAG_CONSENSUS_ID] + framed_text(transaction_id) + framed_all(sort_bytes(name_bytes(names)))
}

/// The consensus id of a transaction over the given chains.
pub open spec fn consensus_id_of(transaction_id: Seq<char>, names: Seq<Seq<char>>) -> Seq<char> {
    hex_of(sha256_of(consensus_id_preimage(transaction_id, names)))
}

/// Whether `a` sorts strictly before `b`.
pub fn bytes_less(a: &[u8], b: &[u8]) -> (r: bool)
    ensures
        r == bytes_lt(a@, b@),
{
    let mut i: usize = 0;
    assert(a@.skip(0) =~= a@);
    assert(b@.skip(0) =~= b@);
    loop
        invariant
            i <= a@.len(),
            i <= b@.len(),
            bytes_lt(a@, b@) == bytes_lt(a@.skip(i as int), b@.skip(i as int)),
        decreases a@.len() - i,
    {
        if i == a.len() {
            return i < b.len();
        }
        if i == b.len() {
            return false;
        }
        if a[i] != b[i] {
            return a[i] < b[i];
        }
        assert(a@.skip(i as int).drop_first() =~= a@.skip(i + 1));
        assert(b@.skip(i as int).drop_first() =~= b@.skip(i + 1));
        i = i + 1;
    }
}

fn insert_sorted(sorted: &mut Vec<Vec<u8>>, x: Vec<u8>)
    ensures
        digests(final(sorted)@) == digests(old(sorted)@).insert(
            insert_pos(digests(old(sorted)@), x@, 0),
            x@,
        ),
{
    let ghost t = digests(sorted@);
    let mut j: usize = 0;
    while j < sorted.len() && !bytes_less(x.as_slice(), sorted[j].as_slice())
        invariant
            t == digests(sorted@),
            j <= sorted.len(),
            insert_pos(t, x@, 0) == insert_pos(t, x@, j as int),
        decreases sorted.len() - j,
    {
        j = j + 1;
    }
    sorted.insert(j, x);
    assert(digests(sorted@) =~= t.insert(j as int, x@));
}

/// The byte strings of `names` in lexicographic order.
pub fn sort_names(names: &Vec<Vec<u8>>) -> (r: Vec<Vec<u8>>)
    ensures
        digests(r@) == sort_bytes(digests(names@)),
{
    let mut sorted: Vec<Vec<u8>> = Vec::new();
    let mut i: usize = 0;
    assert(digests(names@).take(0) =~= Seq::<Seq<u8>>::empty());
    while i < names.len()
        invariant
            i <= names.len(),
            digests(sorted@) == sort_bytes(digests(names@).take(i as int)),
        decreases names.len() - i,
    {
        let ghost s = digests(names@).take(i + 1);
        assert(s.drop_last() =~= digests(names@).take(i as int));
        insert_sorted(&mut sorted, copy_bytes(names[i].as_slice()));
        i = i + 1;
    }
    assert(digests(names@).take(i as int) =~= digests(names@));
    sorted
}

fn consensus_id(transaction_id: &str, evidences: &Vec<CrossChainVerification>) -> (r: String)
    ensures
        r@ == consensus_id_of(transaction_id@, chain_names(evidences@)),
{
    let ghost names = chain_names(evidences@);
    let mut bytes: Vec<Vec<u8>> = Vec::new();
    let mut i: usize = 0;
    while i < evidences.len()
        invariant
            names == chain_names(evidences@),
            i <= evidences.len(),
            bytes.len() == i,
            forall|j: int| 0 <= j < i ==> #[trigger] bytes@[j]@ == encode_utf8(names[j]),
        decreases evidences.len() - i,
    {
        bytes.push(copy_bytes(evidences[i].blockchain.as_str().as_bytes()));
        i = i + 1;
    }
    assert(digests(bytes@) =~= name_bytes(names));
    let sorted = sort_names(&bytes);
    let ghost ordered = digests(sorted@);
    let mut pre: Vec<u8> = Vec::new();
    pre.push(TAG_CONSENSUS_ID);
    append_framed_text(&mut pre, transaction_id);
    let ghost head = pre@;
    let mut k: usize = 0;
    assert(ordered.take(0) =~= Seq::<Seq<u8>>::empty());
    assert(pre@ =~= head + framed_all(ordered.take(0)));
    while k < sorted.len()
        invariant
            ordered == digests(sorted@),
            k <= sorted.len(),
            pre@ == head + framed_all(ordered.take(k as int)),
        decreases sorted.len() - k,
    {
        append_framed(&mut pre, sorted[k].as_slice());
        assert(ordered.take(k + 1).drop_last() =~= ordered.take(k as int));
        assert(pre@ =~= head + framed_all(ordered.take(k + 1)));
        k = k + 1;
    }
    assert(ordered.take(k as int) =~= ordered);
    assert(pre@ =~= consensus_id_preimage(transaction_id@, names));
    let d = sha256(pre.as_slice());
    digest_hex(d.as_slice())
}

/// Reduces the evidence of all configured chains to a consensus proof:
/// consensus is achieved exactly when at least `threshold` chains verified
/// the transaction. Every chain is listed as participating, verified or not,
/// and the proofs of the verified ones form the validator evidence.
pub fn achieve_consensus(
    transaction_id: &str,
    evidences: &Vec<CrossChainVerification>,
    threshold: u32,
    now: u64,
) -> (p: ConsensusProof)
    ensures
        p.achieved_consensus == (success_count(evidences@) >= threshold),
        p.consensus_threshold == threshold,
        texts(p.participating_chains@) == chain_names(evidences@),
        p.consensus_id@ == consensus_id_of(transaction_id@, chain_names(evidences@)),
        p.consensus_timestamp == now,
        p.proof_data@ == hex_of(stamped_digest_of(TAG_CONSENSUS_PROOF, transaction_id@, now)),
        texts(p.validator_signatures@) == verified_proofs(evidences@),
{
    let ghost ev = evidences@;
    let mut count: usize = 0;
    let mut chains: Vec<String> = Vec::new();
    let mut signatures: Vec<String> = Vec::new();
    let mut i: usize = 0;
    assert(ev.take(0) =~= Seq::<CrossChainVerification>::empty());
    while i < evidences.len()
        invariant
            ev == evidences@,
            i <= ev.len(),
            count == success_count(ev.take(i as int)),
            count <= i,
            chains@.len() == i,
            forall|j: int| 0 <= j < i ==> #[trigger] chains@[j]@ == ev[j].blockchain@,
            texts(signatures@) == verified_proofs(ev.take(i as int)),
        decreases ev.len() - i,
    {
        let v = &evidences[i];
        let ghost prefix = ev.take(i + 1);
        assert(prefix.drop_last() =~= ev.take(i as int));
        if v.verification_status {
            count = count + 1;
            signatures.push(v.cross_chain_proof.clone());
            assert(texts(signatures@) =~= verified_proofs(ev.take(i as int)).push(
                v.cross_chain_proof@,
            ));
        }
        chains.push(v.blockchain.clone());
        i = i + 1;
    }
    assert(ev.take(i as int) =~= ev);
    assert(texts(chains@) =~= chain_names(ev));
    ConsensusProof {
        consensus_id: consensus_id(transaction_id, evidences),
        participating_chains: chains,
        consensus_threshold: threshold,
        achieved_consensus: count as u64 >= threshold as u64,
        consensus_timestamp: now,
        proof_data: generate_consensus_proof(transaction_id, now),
        validator_signatures: signatures,
    }
}

/// The number of adapter outcomes that report a verified transaction.
pub open spec fn confirmed_count(outcomes: Seq<Result<ChainEvidence, VerificationError>>) -> nat
    decreases outcomes.len(),
{
    if outcomes.len() == 0 {
        0
    } else {
        confirmed_count(outcomes.drop_last()) + match outcomes.last() {
            Ok(e) => if e.verification_status {
                1nat
            } else {
                0nat
            },
            Err(_) => 0nat,
        }
    }
}

/// Over the records that the cross-chain stage makes from adapter outcomes,
/// consensus is achieved exactly when at least `threshold` adapters reported
/// a verified transaction; failed adapters count as unverified, and the count
/// lies between zero and the number of chains.
pub proof fn lemma_consensus_correct(
    chains: Seq<Seq<char>>,
    transaction_id: Seq<char>,
    outcomes: Seq<Result<ChainEvidence, VerificationError>>,
    now: u64,
    evidences: Seq<CrossChainVerification>,
    threshold: u32,
    p: ConsensusProof,
)
    requires
        chains.len() == outcomes.len(),
        evidences.len() == outcomes.len(),
        forall|i: int|
            0 <= i < evidences.len() ==> #[trigger] records_outcome(
                evidences[i],
                chains[i],
                transaction_id,
                outcomes[i],
                now,
            ),
        p.achieved_consensus == (success_count(evidences) >= threshold),
    ensures
        success_count(evidences) == confirmed_count(outcomes),
        confirmed_count(outcomes) <= outcomes.len(),
        p.achieved_consensus == (confirmed_count(outcomes) >= threshold),
    decreases evidences.len(),
{
    if evidences.len() > 0 {
        let n = evidences.len() - 1;
        assert(records_outcome(evidences[n], chains[n], transaction_id, outcomes[n], now));
        let q = ConsensusProof {
            achieved_consensus: success_count(evidences.drop_last()) >= threshold,
            ..p
        };
        assert forall|i: int| 0 <= i < n implies #[trigger] records_outcome(
            evidences.drop_last()[i],
            chains.drop_last()[i],
            transaction_id,
            outcomes.drop_last()[i],
            now,
        ) by {
            assert(records_outcome(evidences[i], chains[i], transaction_id, outcomes[i], now));
        }
        lemma_consensus_correct(
            chains.drop_last(),
            transaction_id,
            outcomes.drop_last(),
            now,
            evidences.drop_last(),
            threshold,
            q,
        );
    }
}

} // verus!
