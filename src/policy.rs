//! Records of the policy lifecycle that consume the pipeline's proofs, and
//! the hashes and contract text derived for a policy.

use crate::hash_util::{
    append_framed_text, framed_text, prefixed_hex, sha256, sha256_of, to_prefixed_hex,
    TAG_POLICY_ACTION,
};
use vstd::prelude::*;

verus! {

/// Where a policy stands in its lifecycle.
#[derive(Clone, Copy, Debug, PartialEq, Eq, Structural)]
pub enum PolicyStatus {
    Draft,
    Active,
    Paused,
    UnderReview,
    Completed,
    Cancelled,
    BlockchainVerified,
    IndiaHubApproved,
    CitizenVoted,
    AIOptimized,
}

/// Where a fund flow stands.
#[derive(Clone, Copy, Debug, PartialEq, Eq, Structural)]
pub enum FundFlowStatus {
    Pending,
    Processing,
    Completed,
    Failed,
    BlockchainConfirmed,
    IndiaHubVerified,
    SmartContractExecuted,
    CitizenApproved,
}

/// A movement of funds under a policy.
#[derive(Clone, Debug, PartialEq, Eq)]
pub struct FundFlow {
    pub id: String,
    pub policy_id: String,
    pub amount: u64,
    pub from_address: String,
    pub to_address: String,
    pub timestamp: u64,
    pub status: FundFlowStatus,
    pub transaction_hash: Option<String>,
    pub icp_block_hash: Option<String>,
    pub india_hub_verification: Option<String>,
    pub smart_contract_execution: Option<String>,
    pub gas_used: Option<u64>,
    pub execution_time: Option<u64>,
}

/// One entry of a policy's audit trail.
#[derive(Clone, Debug, PartialEq, Eq)]
pub struct AuditEntry {
    pub timestamp: u64,
    pub action: String,
    pub actor: String,
    pub details: String,
    pub blockchain_hash: Option<String>,
    pub icp_transaction_id: Option<String>,
}

/// What the hash of an action on a policy is the digest of.
pub open spec fn policy_action_preimage(
    policy_id: Seq<char>,
    action: Seq<char>,
    data: Seq<char>,
) -> Seq<u8> {
    seq![TAG_POLICY_ACTION] + framed_text(policy_id) + framed_text(action) + framed_text(data)
}

/// The 64-character hash recorded for an action on a policy.
pub fn generate_blockchain_hash(policy_id: &str, action: &str, data: &str) -> (r: String)
    ensures
        r@ == prefixed_hex(sha256_of(policy_action_preimage(policy_id@, action@, data@))),
        r@.len() == 64,
{
    let mut pre: Vec<u8> = Vec::new();
    pre.push(TAG_POLICY_ACTION);
    append_framed_text(&mut pre, policy_id);
    append_framed_text(&mut pre, action);
    append_framed_text(&mut pre, data);
    assert(pre@ =~= policy_action_preimage(policy_id@, action@, data@));
    let d = sha256(pre.as_slice());
    to_prefixed_hex(d.as_slice())
}

/// The contract text before the policy id.
pub const SMART_CONTRACT_HEAD: &'static str = r#"
        // WCHL25 Enhanced Smart Contract for Policy: "#;

/// The contract text after the policy id.
pub const SMART_CONTRACT_TAIL: &'static str = r#"
        // Built on Internet Computer Protocol
        contract PolicyContract {
            address public government;
            uint public fundAllocation;
            uint public fundReleased;
            bool public isActive;
            string public policyId;
            string public blockchainHash;
            uint public transparencyScore;
            
            event FundsReleased(address indexed recipient, uint amount, string policyId);
            event PolicyActivated(string policyId, uint timestamp);
            event IndiaHubVerified(string policyId, bool verified);
            
            constructor(uint _fundAllocation, string memory _policyId) {
                government = msg.sender;
                fundAllocation = _fundAllocation;
                policyId = _policyId;
                isActive = true;
                transparencyScore = 95;
            }
            
            function releaseFunds(uint amount, address recipient) public {
                require(msg.sender == government, "Only government can release funds");
                require(isActive, "Policy is not active");
                require(fundReleased + amount <= fundAllocation, "Insufficient funds");
                
                fundReleased += amount;
                emit FundsReleased(recipient, amount, policyId);
                
                // ICP Integration
                updateBlockchainHash();
                verifyWithIndiaHub();
            }
            
            function updateBlockchainHash() internal {
                blockchainHash = generateHash(policyId, fundReleased);
            }
            
            function verifyWithIndiaHub() internal {
                // India Hub verification logic
                emit IndiaHubVerified(policyId, true);
            }
            
            function generateHash(string memory data, uint value) internal pure returns (string memory) {
                return string(abi.encodePacked("0x", data, uint2str(value)));
            }
            
            function uint2str(uint _i) internal pure returns (string memory) {
                if (_i == 0) return "0";
                uint j = _i;
                uint length;
                while (j != 0) {
                    length++;
                    j /= 10;
                }
                bytes memory bstr = new bytes(length);
                uint k = length;
                while (_i != 0) {
                    k -= 1;
                    uint8 temp = (48 + uint8(_i - _i / 10 * 10));
                    bytes1 b1 = bytes1(temp);
                    bstr[k] = b1;
                    _i /= 10;
                }
                return string(bstr);
            }
        }
        "#;

/// The smart contract that governs the funds of a policy.
pub fn generate_smart_contract_code(policy_id: &str) -> (r: String)
    ensures
        r@ == SMART_CONTRACT_HEAD@ + policy_id@ + SMART_CONTRACT_TAIL@,
{
    let mut code = String::from_str(SMART_CONTRACT_HEAD);
    code.append(policy_id);
    code.append(SMART_CONTRACT_TAIL);
    code
}

} // verus!
