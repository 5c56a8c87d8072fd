//! Circuit orchestration: one verify-then-commit-then-encode pass per
//! variant.
//!
//! Each run checks the variant's threshold condition and the attestation, and
//! either aborts with a reason — producing no output bytes at all — or
//! derives the nullifier and hands back the canonical encoded record.  The
//! sequence is the same for all three variants; only the mapping of fields to
//! the resource and threshold roles differs.

use vstd::prelude::*;

use crate::codec::AgentAuthorityPublicValues;
use crate::codec::AgentAuthorityView;
use crate::codec::AssetClaimPublicValues;
use crate::codec::AssetClaimView;
use crate::codec::CreditLinePublicValues;
use crate::codec::CreditLineView;
use crate::codec::encode_agent_authority;
use crate::codec::encode_asset_claim;
use crate::codec::encode_credit_line;
use crate::codec::spec_encode_agent_authority;
use crate::codec::spec_encode_asset_claim;
use crate::codec::spec_encode_credit_line;
use crate::current_time;
use crate::get_current_time;
use crate::nullifier::compute_commitment;
use crate::nullifier::spec_commitment;
use crate::threshold::Attestation;
use crate::threshold::Claim;
use crate::threshold::bytes20_eq;
use crate::threshold::bytes32_eq;
use crate::threshold::spec_signature_marker_valid;
use crate::threshold::spec_verify_attestation;
use crate::threshold::verify_agent_auth;
use crate::threshold::verify_balance_proof;
use crate::threshold::verify_credit_approval;

verus! {

/// Why a proof run aborted.  The reason is a diagnostic for the host; it is
/// never part of the public output, so the private quantity cannot leak
/// through it.
#[derive(PartialEq, Eq, Structural, Clone, Copy, Debug)]
pub enum AbortReason {
    /// The private quantity is below the declared threshold.
    InsufficientQuantity,
    /// The attestation's signature marker is invalid or the attestation does
    /// not speak about the claim's subject and resource.
    InvalidAttestation,
    /// The attestation or authorization expired before verification time.
    AuthorizationExpired,
}

/// The generic verify-then-commit core shared by the circuit variants:
/// either the attestation supports the claim at time `now` and the claim's
/// nullifier comes back, or the run aborts with the first failing check and
/// nothing is produced.
pub fn verify_and_commit(attestation: &Attestation, claim: &Claim, now: u64) -> (r: Result<
    [u8; 32],
    AbortReason,
>)
    ensures
        r is Ok <==> spec_verify_attestation(*attestation, *claim, now),
        r is Ok ==> r->Ok_0@ == spec_commitment(
            claim.subject@,
            claim.resource_id@,
            claim.declared_threshold,
            claim.destination_context,
        ),
        attestation.quantity < claim.declared_threshold ==> r == Err::<
            [u8; 32],
            AbortReason,
        >(AbortReason::InsufficientQuantity),
        attestation.quantity >= claim.declared_threshold && !(spec_signature_marker_valid(
            attestation.signature@,
        ) && attestation.subject@ == claim.subject@ && attestation.resource_id@
            == claim.resource_id@) ==> r == Err::<[u8; 32], AbortReason>(
            AbortReason::InvalidAttestation,
        ),
        attestation.quantity >= claim.declared_threshold && spec_signature_marker_valid(
            attestation.signature@,
        ) && attestation.subject@ == claim.subject@ && attestation.resource_id@
            == claim.resource_id@ && attestation.expiry < now ==> r == Err::<
            [u8; 32],
            AbortReason,
        >(AbortReason::AuthorizationExpired),
{
    if attestation.quantity < claim.declared_threshold {
        return Err(AbortReason::InsufficientQuantity);
    }
    if attestation.signature[0] == 0 {
        return Err(AbortReason::InvalidAttestation);
    }
    if !bytes20_eq(&attestation.subject, &claim.subject) {
        return Err(AbortReason::InvalidAttestation);
    }
    if !bytes32_eq(&attestation.resource_id, &claim.resource_id) {
        return Err(AbortReason::InvalidAttestation);
    }
    if attestation.expiry < now {
        return Err(AbortReason::AuthorizationExpired);
    }
    Ok(
        compute_commitment(
            &claim.subject,
            &claim.resource_id,
            claim.declared_threshold,
            claim.destination_context,
        ),
    )
}

/// The bytes a successful asset-claim run commits: the canonical record with
/// the nullifier derived from the claim's binding fields.
pub open spec fn spec_asset_claim_output(
    source_chain_id: u64,
    asset_address: Seq<u8>,
    min_balance_threshold: u64,
    user_address: Seq<u8>,
    target_chain_id: u64,
) -> Seq<u8> {
    spec_encode_asset_claim(
        AssetClaimView {
            source_chain_id,
            asset_address,
            min_balance_threshold,
            user_address,
            target_chain_id,
            nullifier: spec_commitment(
                user_address,
                asset_address,
                min_balance_threshold,
                target_chain_id,
            ),
        },
    )
}

/// The bytes a successful credit-line run commits.
pub open spec fn spec_credit_line_output(
    credit_provider: Seq<u8>,
    min_credit_amount: u64,
    user_address: Seq<u8>,
    target_chain_id: u64,
) -> Seq<u8> {
    spec_encode_credit_line(
        CreditLineView {
            credit_provider,
            min_credit_amount,
            user_address,
            target_chain_id,
            nullifier: spec_commitment(
                user_address,
                credit_provider,
                min_credit_amount,
                target_chain_id,
            ),
        },
    )
}

/// The bytes a successful agent-authority run commits.
pub open spec fn spec_agent_authority_output(
    agent_id: Seq<u8>,
    user_address: Seq<u8>,
    max_spending_limit: u64,
    target_chain_id: u64,
) -> Seq<u8> {
    spec_encode_agent_authority(
        AgentAuthorityView {
            agent_id,
            user_address,
            max_spending_limit,
            target_chain_id,
            nullifier: spec_commitment(
                user_address,
                agent_id,
                max_spending_limit,
                target_chain_id,
            ),
        },
    )
}

/// One asset-claim proof run: the subject proves a balance of at least
/// `min_balance_threshold` of `asset_address` without revealing
/// `actual_balance`.  Succeeds exactly when the balance meets the threshold
/// and the balance proof is structurally valid; on success the committed
/// bytes are the canonical record, nullifier included.
pub fn run_asset_claim(
    source_chain_id: u64,
    asset_address: [u8; 32],
    min_balance_threshold: u64,
    user_address: [u8; 20],
    target_chain_id: u64,
    actual_balance: u64,
    balance_proof: [u8; 64],
    _api_key_hash: [u8; 32],
) -> (r: Result<Vec<u8>, AbortReason>)
    ensures
        r is Ok <==> (actual_balance >= min_balance_threshold && spec_signature_marker_valid(
            balance_proof@,
        )),
        actual_balance < min_balance_threshold ==> r == Err::<Vec<u8>, AbortReason>(
            AbortReason::InsufficientQuantity,
        ),
        actual_balance >= min_balance_threshold && !spec_signature_marker_valid(balance_proof@)
            ==> r == Err::<Vec<u8>, AbortReason>(AbortReason::InvalidAttestation),
        r is Ok ==> r->Ok_0@ == spec_asset_claim_output(
            source_chain_id,
            asset_address@,
            min_balance_threshold,
            user_address@,
            target_chain_id,
        ),
{
    if actual_balance < min_balance_threshold {
        return Err(AbortReason::InsufficientQuantity);
    }
    if !verify_balance_proof(&balance_proof, &user_address, &asset_address, actual_balance) {
        return Err(AbortReason::InvalidAttestation);
    }
    let nullifier = compute_commitment(
        &user_address,
        &asset_address,
        min_balance_threshold,
        target_chain_id,
    );
    let record = AssetClaimPublicValues {
        source_chain_id,
        asset_address,
        min_balance_threshold,
        user_address,
        target_chain_id,
        nullifier,
    };
    let bytes = encode_asset_claim(&record);
    proof {
        assert(record@ =~= (AssetClaimView {
            source_chain_id,
            asset_address: asset_address@,
            min_balance_threshold,
            user_address: user_address@,
            target_chain_id,
            nullifier: spec_commitment(
                user_address@,
                asset_address@,
                min_balance_threshold,
                target_chain_id,
            ),
        }));
    }
    Ok(bytes)
}

/// One credit-line proof run: the subject proves an approved credit line of
/// at least `min_credit_amount` from `credit_provider` without revealing
/// `actual_credit_limit`.
pub fn run_credit_line(
    credit_provider: [u8; 32],
    min_credit_amount: u64,
    user_address: [u8; 20],
    target_chain_id: u64,
    actual_credit_limit: u64,
    credit_approval: [u8; 64],
    _credit_terms_hash: [u8; 32],
) -> (r: Result<Vec<u8>, AbortReason>)
    ensures
        r is Ok <==> (actual_credit_limit >= min_credit_amount && spec_signature_marker_valid(
            credit_approval@,
        )),
        actual_credit_limit < min_credit_amount ==> r == Err::<Vec<u8>, AbortReason>(
            AbortReason::InsufficientQuantity,
        ),
        actual_credit_limit >= min_credit_amount && !spec_signature_marker_valid(credit_approval@)
            ==> r == Err::<Vec<u8>, AbortReason>(AbortReason::InvalidAttestation),
        r is Ok ==> r->Ok_0@ == spec_credit_line_output(
            credit_provider@,
            min_credit_amount,
            user_address@,
            target_chain_id,
        ),
{
    if actual_credit_limit < min_credit_amount {
        return Err(AbortReason::InsufficientQuantity);
    }
    if !verify_credit_approval(&credit_approval, &user_address, &credit_provider, actual_credit_limit) {
        return Err(AbortReason::InvalidAttestation);
    }
    let nullifier = compute_commitment(
        &user_address,
        &credit_provider,
        min_credit_amount,
        target_chain_id,
    );
    let record = CreditLinePublicValues {
        credit_provider,
        min_credit_amount,
        user_address,
        target_chain_id,
        nullifier,
    };
    let bytes = encode_credit_line(&record);
    proof {
        assert(record@ =~= (CreditLineView {
            credit_provider: credit_provider@,
            min_credit_amount,
            user_address: user_address@,
            target_chain_id,
            nullifier: spec_commitment(
                user_address@,
                credit_provider@,
                min_credit_amount,
                target_chain_id,
            ),
        }));
    }
    Ok(bytes)
}

/// One agent-authority proof run: the subject proves it authorized
/// `agent_id` to spend up to `max_spending_limit`, with an authorization that
/// must not have expired at verification time.
pub fn run_agent_authority(
    agent_id: [u8; 32],
    user_address: [u8; 20],
    max_spending_limit: u64,
    target_chain_id: u64,
    auth_signature: [u8; 64],
    _permissions_bitmap: u32,
    expiration_time: u64,
) -> (r: Result<Vec<u8>, AbortReason>)
    ensures
        r is Ok <==> (spec_signature_marker_valid(auth_signature@) && expiration_time
            >= current_time()),
        !spec_signature_marker_valid(auth_signature@) ==> r == Err::<Vec<u8>, AbortReason>(
            AbortReason::InvalidAttestation,
        ),
        spec_signature_marker_valid(auth_signature@) && expiration_time < current_time() ==> r
            == Err::<Vec<u8>, AbortReason>(AbortReason::AuthorizationExpired),
        r is Ok ==> r->Ok_0@ == spec_agent_authority_output(
            agent_id@,
            user_address@,
            max_spending_limit,
            target_chain_id,
        ),
{
    if !verify_agent_auth(&auth_signature, &user_address, &agent_id, max_spending_limit) {
        return Err(AbortReason::InvalidAttestation);
    }
    let now = get_current_time();
    if now > expiration_time {
        return Err(AbortReason::AuthorizationExpired);
    }
    let nullifier = compute_commitment(
        &user_address,
        &agent_id,
        max_spending_limit,
        target_chain_id,
    );
    let record = AgentAuthorityPublicValues {
        agent_id,
        user_address,
        max_spending_limit,
        target_chain_id,
        nullifier,
    };
    let bytes = encode_agent_authority(&record);
    proof {
        assert(record@ =~= (AgentAuthorityView {
            agent_id: agent_id@,
            user_address: user_address@,
            max_spending_limit,
            target_chain_id,
            nullifier: spec_commitment(
                user_address@,
                agent_id@,
                max_spending_limit,
                target_chain_id,
            ),
        }));
    }
    Ok(bytes)
}

} // verus!
