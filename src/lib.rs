//! A transaction verification pipeline: Merkle inclusion proofs, cross-chain
//! evidence, threshold consensus and keyed stores of composite records.
//!
//! - `hash_util`: SHA-256 digests, hex text and the encodings hashed over.
//! - `merkle`: Merkle trees with one inclusion proof per leaf.
//! - `cross_chain`: one evidence record per configured chain adapter.
//! - `consensus`: threshold consensus over that evidence.
//! - `enrichment`: the optional proof fragments attached to a record.
//! - `pipeline`: assembly of the composite record, its stores and audit log.
//! - `table`: values under unique text keys.
//! - `error`: what a run or a query can report.
//! - `policy`, `dao`, `funds`: records of the collaborators that consume the
//!   pipeline's proofs.

pub mod hash_util;
pub mod error;
pub mod merkle;
pub mod cross_chain;
pub mod consensus;
pub mod enrichment;
pub mod table;
pub mod pipeline;
pub mod policy;
pub mod dao;
pub mod funds;
