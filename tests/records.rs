use blockchain_verifier::dao::{Proposal, ProposalStatus};
use blockchain_verifier::funds::{FundTransaction, TransactionStatus, TransactionType};
use std::collections::BTreeMap;

#[test]
fn test_complaint_creation() {
    let complaint_id = "test_complaint_123".to_string();
    assert!(complaint_id.contains("test"));
}

#[test]
fn test_proposal_creation() {
    let proposal_id = "test_proposal_123".to_string();
    assert!(proposal_id.contains("test"));
    let proposal = Proposal {
        id: proposal_id.clone(),
        title: "t".into(),
        description: "d".into(),
        category: "c".into(),
        proposer: "p".into(),
        created_at: 1,
        voting_start: 1,
        voting_end: 2,
        status: ProposalStatus::Draft,
        yes_votes: 0,
        no_votes: 0,
        abstain_votes: 0,
        total_votes: 0,
        quorum_required: 3,
        execution_data: None,
    };
    assert_eq!(proposal.clone(), proposal);
}

#[test]
fn test_transaction_creation() {
    let transaction_id = "test_transaction_123".to_string();
    assert!(transaction_id.contains("test"));
    let tx = FundTransaction {
        id: transaction_id,
        policy_id: "p".into(),
        transaction_type: TransactionType::Release,
        amount: 10,
        from_address: "a".into(),
        to_address: "b".into(),
        timestamp: 0,
        status: TransactionStatus::Pending,
        transaction_hash: "h".into(),
        metadata: BTreeMap::new(),
    };
    assert_eq!(tx.clone(), tx);
}
