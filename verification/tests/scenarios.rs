use zkredit::codec::decode_asset_claim;
use zkredit::compute_commitment;
use zkredit::get_current_time;
use zkredit::orchestrator::run_agent_authority;
use zkredit::orchestrator::run_asset_claim;
use zkredit::orchestrator::run_credit_line;
use zkredit::orchestrator::verify_and_commit;
use zkredit::orchestrator::AbortReason;
use zkredit::threshold::verify_attestation;
use zkredit::threshold::Attestation;
use zkredit::threshold::Claim;
use zkredit::verify_balance_proof;

fn user() -> [u8; 20] {
    [0xAA; 20]
}

fn asset() -> [u8; 32] {
    let mut a = [0u8; 32];
    a[31] = 1;
    a
}

fn valid_signature() -> [u8; 64] {
    let mut s = [0u8; 64];
    s[0] = 1;
    s
}

#[test]
fn mock_clock_is_fixed() {
    assert_eq!(get_current_time(), 1648176000);
}

#[test]
fn asset_claim_success_commits_expected_record() {
    let out = run_asset_claim(1, asset(), 100, user(), 2, 150, valid_signature(), [0u8; 32])
        .expect("a sufficient balance with a valid proof must succeed");
    let record = decode_asset_claim(&out).expect("committed bytes must decode");
    assert_eq!(record.source_chain_id, 1);
    assert_eq!(record.asset_address, asset());
    assert_eq!(record.min_balance_threshold, 100);
    assert_eq!(record.user_address, user());
    assert_eq!(record.target_chain_id, 2);
    assert_eq!(record.nullifier, compute_commitment(&user(), &asset(), 100, 2));
}

#[test]
fn asset_claim_insufficient_balance_aborts() {
    let r = run_asset_claim(1, asset(), 100, user(), 2, 99, valid_signature(), [0u8; 32]);
    assert_eq!(r, Err(AbortReason::InsufficientQuantity));
}

#[test]
fn asset_claim_invalid_proof_aborts() {
    let r = run_asset_claim(1, asset(), 100, user(), 2, 150, [0u8; 64], [0u8; 32]);
    assert_eq!(r, Err(AbortReason::InvalidAttestation));
}

#[test]
fn credit_line_insufficient_credit_aborts() {
    let provider = [0x11; 32];
    let r = run_credit_line(provider, 500, user(), 2, 400, valid_signature(), [0u8; 32]);
    assert_eq!(r, Err(AbortReason::InsufficientQuantity));
}

#[test]
fn credit_line_success_commits() {
    let provider = [0x11; 32];
    let out = run_credit_line(provider, 500, user(), 2, 600, valid_signature(), [0u8; 32])
        .expect("sufficient credit with a valid approval must succeed");
    assert_eq!(out.len(), 160);
    assert_eq!(&out[128..160], &compute_commitment(&user(), &provider, 500, 2)[..]);
}

#[test]
fn agent_authority_expired_aborts() {
    let agent = [0x77; 32];
    let expired = get_current_time() - 1;
    let r = run_agent_authority(agent, user(), 1000, 2, valid_signature(), 0b1011, expired);
    assert_eq!(r, Err(AbortReason::AuthorizationExpired));
}

#[test]
fn agent_authority_success_commits() {
    let agent = [0x77; 32];
    let not_expired = get_current_time();
    let out = run_agent_authority(agent, user(), 1000, 2, valid_signature(), 0b1011, not_expired)
        .expect("a valid, unexpired authorization must succeed");
    assert_eq!(out.len(), 160);
    assert_eq!(&out[128..160], &compute_commitment(&user(), &agent, 1000, 2)[..]);
}

#[test]
fn agent_authority_invalid_signature_aborts() {
    let agent = [0x77; 32];
    let r = run_agent_authority(agent, user(), 1000, 2, [0u8; 64], 0, u64::MAX);
    assert_eq!(r, Err(AbortReason::InvalidAttestation));
}

#[test]
fn balance_proof_marker_decides() {
    assert!(verify_balance_proof(&valid_signature(), &user(), &asset(), 150));
    assert!(!verify_balance_proof(&[0u8; 64], &user(), &asset(), 150));
}

fn attestation(quantity: u64, expiry: u64) -> Attestation {
    Attestation {
        subject: user(),
        resource_id: asset(),
        quantity,
        expiry,
        signature: valid_signature(),
    }
}

fn claim(threshold: u64) -> Claim {
    Claim { subject: user(), resource_id: asset(), declared_threshold: threshold, destination_context: 2 }
}

#[test]
fn attestation_below_threshold_never_verifies() {
    let now = get_current_time();
    assert!(!verify_attestation(&attestation(99, u64::MAX), &claim(100), now));
    assert_eq!(
        verify_and_commit(&attestation(99, u64::MAX), &claim(100), now),
        Err(AbortReason::InsufficientQuantity)
    );
}

#[test]
fn expired_attestation_never_verifies() {
    let now = get_current_time();
    // quantity far above the threshold: expiry still decides
    assert!(!verify_attestation(&attestation(u64::MAX, now - 1), &claim(100), now));
    assert_eq!(
        verify_and_commit(&attestation(u64::MAX, now - 1), &claim(100), now),
        Err(AbortReason::AuthorizationExpired)
    );
}

#[test]
fn attestation_subject_mismatch_fails() {
    let now = get_current_time();
    let mut a = attestation(150, u64::MAX);
    a.subject[0] ^= 1;
    assert!(!verify_attestation(&a, &claim(100), now));
    assert_eq!(verify_and_commit(&a, &claim(100), now), Err(AbortReason::InvalidAttestation));
}

#[test]
fn valid_attestation_commits_the_claim_nullifier() {
    let now = get_current_time();
    let a = attestation(150, now);
    let c = claim(100);
    assert!(verify_attestation(&a, &c, now));
    let nullifier = verify_and_commit(&a, &c, now).expect("a supported claim must commit");
    assert_eq!(nullifier, compute_commitment(&user(), &asset(), 100, 2));
}
