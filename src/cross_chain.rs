//! Per-chain evidence: what each configured chain adapter reported about a
//! transaction, with one record per adapter whether it answered or not.

use crate::error::VerificationError;
use crate::hash_util::{
    append_framed_text, framed_text, prefixed_hex, sha256, sha256_of, to_prefixed_hex,
    TAG_CHAIN_TRANSACTION,
};
use vstd::prelude::*;

verus! {

/// What one chain adapter reports for a transaction.
#[derive(Clone, Debug, PartialEq, Eq)]
pub struct ChainEvidence {
    pub verification_status: bool,
    pub confirmation_count: u32,
    pub proof: String,
}

/// The evidence of one chain, as the pipeline records it.
#[derive(Debug, PartialEq, Eq)]
pub struct CrossChainVerification {
    pub blockchain: String,
    pub transaction_hash: String,
    pub verification_status: bool,
    pub confirmation_count: u32,
    pub verification_timestamp: u64,
    pub consensus_achieved: bool,
    pub cross_chain_proof: String,
}

impl Clone for CrossChainVerification {
    fn clone(&self) -> (r: Self)
        ensures
            r == *self,
    {
        CrossChainVerification {
            blockchain: self.blockchain.clone(),
            transaction_hash: self.transaction_hash.clone(),
            verification_status: self.verification_status,
            confirmation_count: self.confirmation_count,
            verification_timestamp: self.verification_timestamp,
            consensus_achieved: self.consensus_achieved,
            cross_chain_proof: self.cross_chain_proof.clone(),
        }
    }
}

/// What the digest naming a transaction on one chain is taken of.
pub open spec fn chain_transaction_preimage(chain: Seq<char>, transaction_id: Seq<char>) -> Seq<u8> {
    seq![TAG_CHAIN_TRANSACTION] + framed_text(chain) + framed_text(transaction_id)
}

/// The hash under which a transaction is recorded for one chain.
pub open spec fn chain_transaction_hash(chain: Seq<char>, transaction_id: Seq<char>) -> Seq<char> {
    prefixed_hex(sha256_of(chain_transaction_preimage(chain, transaction_id)))
}

/// `v` is the record of `chain` for `transaction_id` after its adapter gave
/// `outcome` at time `now`: what the adapter reported, or, when it failed,
/// an unverified entry with no confirmations.
pub open spec fn records_outcome(
    v: CrossChainVerification,
    chain: Seq<char>,
    transaction_id: Seq<char>,
    outcome: Result<ChainEvidence, VerificationError>,
    now: u64,
) -> bool {
    &&& v.blockchain@ == chain
    &&& v.transaction_hash@ == chain_transaction_hash(chain, transaction_id)
    &&& v.verification_timestamp == now
    &&& match outcome {
        Ok(e) => {
            &&& v.verification_status == e.verification_status
            &&& v.confirmation_count == e.confirmation_count
            &&& v.consensus_achieved == e.verification_status
            &&& v.cross_chain_proof@ == e.proof@
        },
        Err(_) => {
            &&& !v.verification_status
            &&& v.confirmation_count == 0
            &&& !v.consensus_achieved
            &&& v.cross_chain_proof@.len() == 0
        },
    }
}

fn chain_transaction_digest(chain: &str, transaction_id: &str) -> (r: String)
    ensures
        r@ == chain_transaction_hash(chain@, transaction_id@),
{
    let mut pre: Vec<u8> = Vec::new();
    pre.push(TAG_CHAIN_TRANSACTION);
    append_framed_text(&mut pre, chain);
    append_framed_text(&mut pre, transaction_id);
    assert(pre@ =~= chain_transaction_preimage(chain@, transaction_id@));
    let d = sha256(pre.as_slice());
    to_prefixed_hex(d.as_slice())
}

/// The record of one chain after its adapter gave `outcome`.
pub fn record_outcome(
    chain: &String,
    transaction_id: &str,
    outcome: &Result<ChainEvidence, VerificationError>,
    now: u64,
) -> (v: CrossChainVerification)
    ensures
        records_outcome(v, chain@, transaction_id@, *outcome, now),
{
    let transaction_hash = chain_transaction_digest(chain.as_str(), transaction_id);
    match outcome {
        Ok(e) => CrossChainVerification {
            blockchain: chain.clone(),
            transaction_hash,
            verification_status: e.verification_status,
            confirmation_count: e.confirmation_count,
            verification_timestamp: now,
            consensus_achieved: e.verification_status,
            cross_chain_proof: e.proof.clone(),
        },
        Err(_) => CrossChainVerification {
            blockchain: chain.clone(),
            transaction_hash,
            verification_status: false,
            confirmation_count: 0,
            verification_timestamp: now,
            consensus_achieved: false,
            cross_chain_proof: String::new(),
        },
    }
}

/// One record per configured chain, in the configured order: `outcomes[i]`
/// is what the adapter of `chains[i]` gave. A failed adapter does not stop
/// the others; its chain is recorded as unverified.
pub fn perform_cross_chain_verification(
    transaction_id: &str,
    chains: &Vec<String>,
    outcomes: &Vec<Result<ChainEvidence, VerificationError>>,
    now: u64,
) -> (r: Vec<CrossChainVerification>)
    requires
        chains.len() == outcomes.len(),
    ensures
        r@.len() == chains@.len(),
        forall|i: int|
            0 <= i < r@.len() ==> #[trigger] records_outcome(
                r@[i],
                chains@[i]@,
                transaction_id@,
                outcomes@[i],
                now,
            ),
{
    let mut r: Vec<CrossChainVerification> = Vec::new();
    let mut i: usize = 0;
    while i < chains.len()
        invariant
            chains.len() == outcomes.len(),
            i <= chains.len(),
            r@.len() == i,
            forall|j: int|
                0 <= j < i ==> #[trigger] records_outcome(
                    r@[j],
                    chains@[j]@,
                    transaction_id@,
                    outcomes@[j],
                    now,
                ),
        decreases chains.len() - i,
    {
        r.push(record_outcome(&chains[i], transaction_id, &outcomes[i], now));
        i = i + 1;
    }
    r
}

} // verus!
