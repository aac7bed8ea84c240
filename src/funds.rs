//! Records of fund-transfer bookkeeping that collaborators exchange with the
//! pipeline.

use std::collections::BTreeMap;
use vstd::prelude::*;

verus! {

/// The kind of a fund transaction.
#[derive(Clone, Copy, Debug, PartialEq, Eq, Structural)]
pub enum TransactionType {
    Allocation,
    Release,
    Transfer,
    Refund,
    Fee,
}

/// Where a fund transaction stands.
#[derive(Clone, Copy, Debug, PartialEq, Eq, Structural)]
pub enum TransactionStatus {
    Pending,
    Processing,
    Completed,
    Failed,
    Cancelled,
}

/// A movement of funds under a policy.
#[derive(Clone, Debug, PartialEq, Eq)]
pub struct FundTransaction {
    pub id: String,
    pub policy_id: String,
    pub transaction_type: TransactionType,
    pub amount: u64,
    pub from_address: String,
    pub to_address: String,
    pub timestamp: u64,
    pub status: TransactionStatus,
    pub transaction_hash: String,
    pub metadata: BTreeMap<String, String>,
}

/// The running balance of a policy's funds.
#[derive(Clone, Debug, PartialEq, Eq)]
pub struct FundBalance {
    pub policy_id: String,
    pub total_allocated: u64,
    pub total_released: u64,
    pub total_transferred: u64,
    pub current_balance: u64,
    pub last_updated: u64,
}

/// Volumes of fund movement over recent periods.
#[derive(Clone, Debug, PartialEq, Eq)]
pub struct RealTimeMetrics {
    pub current_time: u64,
    pub active_transactions: u32,
    pub pending_amount: u64,
    pub daily_volume: u64,
    pub weekly_volume: u64,
    pub monthly_volume: u64,
}

} // verus!
