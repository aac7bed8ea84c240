//! The errors that the pipeline and its stores report.

use crate::pipeline::BlockchainTransaction;
use vstd::prelude::*;

verus! {

/// What can go wrong in a verification run or a query.
#[derive(Debug, PartialEq, Eq)]
pub enum VerificationError {
    /// No record is stored under the requested transaction id.
    NotFound,
    /// A chain adapter failed or timed out.
    AdapterUnavailable,
    /// A proof enricher failed or timed out.
    EnrichmentUnavailable,
    /// Fewer chains than the threshold verified the transaction; carries the
    /// record of the run, which is stored all the same.
    ConsensusNotReached(BlockchainTransaction),
    /// A Merkle tree was asked for over no leaves at all.
    EmptyInput,
    /// A snapshot of the stores could not be saved or restored.
    SerializationFailure,
}

} // verus!
