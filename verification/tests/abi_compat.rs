//! Cross-checks the library's fixed-layout encoder against the reference
//! Solidity ABI encoder: for these all-static records, the canonical bytes
//! must match what `alloy_sol_types` produces for the corresponding tuple.

use alloy_sol_types::private::Address;
use alloy_sol_types::SolValue;

use zkredit::codec::encode_agent_authority;
use zkredit::codec::encode_asset_claim;
use zkredit::codec::encode_credit_line;
use zkredit::codec::AgentAuthorityPublicValues;
use zkredit::codec::AssetClaimPublicValues;
use zkredit::codec::CreditLinePublicValues;

#[test]
fn asset_claim_matches_reference_abi_encoding() {
    let mut asset = [0u8; 32];
    asset[31] = 1;
    let v = AssetClaimPublicValues {
        source_chain_id: 1,
        asset_address: asset,
        min_balance_threshold: 100,
        user_address: [0xAA; 20],
        target_chain_id: 2,
        nullifier: [0x5C; 32],
    };
    let ours = encode_asset_claim(&v);
    let reference = (
        v.source_chain_id,
        v.asset_address,
        v.min_balance_threshold,
        Address::from(v.user_address),
        v.target_chain_id,
        v.nullifier,
    )
        .abi_encode();
    assert_eq!(ours, reference);
}

#[test]
fn credit_line_matches_reference_abi_encoding() {
    let v = CreditLinePublicValues {
        credit_provider: [0x11; 32],
        min_credit_amount: 500,
        user_address: [0x22; 20],
        target_chain_id: 7,
        nullifier: [0x33; 32],
    };
    let ours = encode_credit_line(&v);
    let reference = (
        v.credit_provider,
        v.min_credit_amount,
        Address::from(v.user_address),
        v.target_chain_id,
        v.nullifier,
    )
        .abi_encode();
    assert_eq!(ours, reference);
}

#[test]
fn agent_authority_matches_reference_abi_encoding() {
    let v = AgentAuthorityPublicValues {
        agent_id: [0x44; 32],
        user_address: [0x55; 20],
        max_spending_limit: 0x0123_4567_89AB_CDEF,
        target_chain_id: u64::MAX,
        nullifier: [0x66; 32],
    };
    let ours = encode_agent_authority(&v);
    let reference = (
        v.agent_id,
        Address::from(v.user_address),
        v.max_spending_limit,
        v.target_chain_id,
        v.nullifier,
    )
        .abi_encode();
    assert_eq!(ours, reference);
}
