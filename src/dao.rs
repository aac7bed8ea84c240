//! Records of DAO governance that collaborators exchange with the pipeline:
//! proposals, their execution, and votes.

use vstd::prelude::*;

verus! {

/// Where a proposal stands.
#[derive(Clone, Copy, Debug, PartialEq, Eq, Structural)]
pub enum ProposalStatus {
    Draft,
    Active,
    Passed,
    Rejected,
    Executed,
    Expired,
}

/// How a proposal was carried out.
#[derive(Clone, Debug, PartialEq, Eq)]
pub struct ProposalExecution {
    pub executed_at: u64,
    pub executor: String,
    pub execution_hash: String,
    pub success: bool,
    pub error_message: Option<String>,
}

/// A governance proposal and its tally.
#[derive(Clone, Debug, PartialEq, Eq)]
pub struct Proposal {
    pub id: String,
    pub title: String,
    pub description: String,
    pub category: String,
    pub proposer: String,
    pub created_at: u64,
    pub voting_start: u64,
    pub voting_end: u64,
    pub status: ProposalStatus,
    pub yes_votes: u32,
    pub no_votes: u32,
    pub abstain_votes: u32,
    pub total_votes: u32,
    pub quorum_required: u32,
    pub execution_data: Option<ProposalExecution>,
}

/// The choice of a vote.
#[derive(Clone, Copy, Debug, PartialEq, Eq, Structural)]
pub enum VoteType {
    Yes,
    No,
    Abstain,
}

/// One member's vote on a proposal.
#[derive(Clone, Debug, PartialEq, Eq)]
pub struct Vote {
    pub proposal_id: String,
    pub voter: String,
    pub vote_type: VoteType,
    pub voting_power: u32,
    pub timestamp: u64,
    pub reason: Option<String>,
}

/// The role of a DAO member.
#[derive(Clone, Copy, Debug, PartialEq, Eq, Structural)]
pub enum MemberRole {
    Citizen,
    PolicyMaker,
    Auditor,
    Contractor,
    Admin,
}

} // verus!
