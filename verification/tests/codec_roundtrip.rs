use zkredit::codec::decode_agent_authority;
use zkredit::codec::decode_asset_claim;
use zkredit::codec::decode_credit_line;
use zkredit::codec::encode_agent_authority;
use zkredit::codec::encode_asset_claim;
use zkredit::codec::encode_credit_line;
use zkredit::codec::AgentAuthorityPublicValues;
use zkredit::codec::AssetClaimPublicValues;
use zkredit::codec::CreditLinePublicValues;

fn sample_asset_claim() -> AssetClaimPublicValues {
    let mut asset = [0u8; 32];
    asset[31] = 1;
    AssetClaimPublicValues {
        source_chain_id: 1,
        asset_address: asset,
        min_balance_threshold: 100,
        user_address: [0xAA; 20],
        target_chain_id: 2,
        nullifier: [0x5C; 32],
    }
}

#[test]
fn asset_claim_layout_is_exact() {
    let v = sample_asset_claim();
    let bytes = encode_asset_claim(&v);
    assert_eq!(bytes.len(), 192);
    // word 0: sourceChainId = 1, big-endian in the last 8 bytes
    assert_eq!(&bytes[0..31], &[0u8; 31]);
    assert_eq!(bytes[31], 1);
    // word 1: asset address verbatim
    assert_eq!(&bytes[32..64], &v.asset_address[..]);
    // word 2: threshold 100
    assert_eq!(&bytes[64..95], &[0u8; 31]);
    assert_eq!(bytes[95], 100);
    // word 3: address left-padded with 12 zero bytes
    assert_eq!(&bytes[96..108], &[0u8; 12]);
    assert_eq!(&bytes[108..128], &v.user_address[..]);
    // word 4: targetChainId = 2
    assert_eq!(&bytes[128..159], &[0u8; 31]);
    assert_eq!(bytes[159], 2);
    // word 5: nullifier verbatim
    assert_eq!(&bytes[160..192], &v.nullifier[..]);
}

#[test]
fn asset_claim_round_trip() {
    let v = sample_asset_claim();
    let bytes = encode_asset_claim(&v);
    let back = decode_asset_claim(&bytes).expect("canonical bytes must decode");
    assert_eq!(back.source_chain_id, v.source_chain_id);
    assert_eq!(back.asset_address, v.asset_address);
    assert_eq!(back.min_balance_threshold, v.min_balance_threshold);
    assert_eq!(back.user_address, v.user_address);
    assert_eq!(back.target_chain_id, v.target_chain_id);
    assert_eq!(back.nullifier, v.nullifier);
}

#[test]
fn asset_claim_round_trip_large_values() {
    let mut v = sample_asset_claim();
    v.source_chain_id = u64::MAX;
    v.min_balance_threshold = 0x0123_4567_89AB_CDEF;
    v.target_chain_id = u64::MAX - 1;
    let bytes = encode_asset_claim(&v);
    let back = decode_asset_claim(&bytes).expect("canonical bytes must decode");
    assert_eq!(back.source_chain_id, v.source_chain_id);
    assert_eq!(back.min_balance_threshold, v.min_balance_threshold);
    assert_eq!(back.target_chain_id, v.target_chain_id);
}

#[test]
fn credit_line_round_trip() {
    let v = CreditLinePublicValues {
        credit_provider: [0x11; 32],
        min_credit_amount: 500,
        user_address: [0x22; 20],
        target_chain_id: 7,
        nullifier: [0x33; 32],
    };
    let bytes = encode_credit_line(&v);
    assert_eq!(bytes.len(), 160);
    let back = decode_credit_line(&bytes).expect("canonical bytes must decode");
    assert_eq!(back.credit_provider, v.credit_provider);
    assert_eq!(back.min_credit_amount, v.min_credit_amount);
    assert_eq!(back.user_address, v.user_address);
    assert_eq!(back.target_chain_id, v.target_chain_id);
    assert_eq!(back.nullifier, v.nullifier);
}

#[test]
fn agent_authority_round_trip() {
    let v = AgentAuthorityPublicValues {
        agent_id: [0x44; 32],
        user_address: [0x55; 20],
        max_spending_limit: 12345,
        target_chain_id: 9,
        nullifier: [0x66; 32],
    };
    let bytes = encode_agent_authority(&v);
    assert_eq!(bytes.len(), 160);
    let back = decode_agent_authority(&bytes).expect("canonical bytes must decode");
    assert_eq!(back.agent_id, v.agent_id);
    assert_eq!(back.user_address, v.user_address);
    assert_eq!(back.max_spending_limit, v.max_spending_limit);
    assert_eq!(back.target_chain_id, v.target_chain_id);
    assert_eq!(back.nullifier, v.nullifier);
}

#[test]
fn decode_rejects_wrong_length() {
    let v = sample_asset_claim();
    let mut bytes = encode_asset_claim(&v);
    bytes.pop();
    assert!(decode_asset_claim(&bytes).is_none());
    assert!(decode_credit_line(&[0u8; 159]).is_none());
    assert!(decode_agent_authority(&[0u8; 161]).is_none());
}

#[test]
fn decode_rejects_nonzero_padding() {
    let v = sample_asset_claim();
    let mut bytes = encode_asset_claim(&v);
    // first padding byte of the sourceChainId word
    bytes[0] = 1;
    assert!(decode_asset_claim(&bytes).is_none());
}

#[test]
fn distinct_records_encode_distinctly() {
    let a = sample_asset_claim();
    let mut b = sample_asset_claim();
    b.target_chain_id = 3;
    assert_ne!(encode_asset_claim(&a), encode_asset_claim(&b));
}
