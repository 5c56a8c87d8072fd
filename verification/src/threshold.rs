//! Threshold verification: checks that a signed attestation supports a public
//! claim.
//!
//! An attestation passes for a claim exactly when its structural signature
//! marker is set, it speaks about the claim's subject and resource, it has not
//! expired, and the attested quantity meets the declared threshold.  The
//! signature check here is the protocol's structural placeholder (first byte
//! of the blob non-zero), standing in for a real signature scheme.

use vstd::prelude::*;

verus! {

/// A signed statement from an external provider: the subject holds at least
/// `quantity` of the resource, valid until `expiry`.
pub struct Attestation {
    /// 20-byte address of the party the statement is about.
    pub subject: [u8; 20],
    /// 32-byte identifier of the asset, credit provider or agent.
    pub resource_id: [u8; 32],
    /// Attested available quantity (balance, credit, spending limit).
    pub quantity: u64,
    /// Unix timestamp after which the attestation is no longer valid.
    pub expiry: u64,
    /// Opaque signature blob binding the fields above.
    pub signature: [u8; 64],
}

/// The public statement being proven: the subject meets `declared_threshold`
/// for the resource, scoped to one destination chain.
pub struct Claim {
    /// 20-byte address of the claiming party.
    pub subject: [u8; 20],
    /// 32-byte identifier of the asset, credit provider or agent.
    pub resource_id: [u8; 32],
    /// Publicly declared lower bound on the private attested quantity.
    pub declared_threshold: u64,
    /// Identifier of the target chain the proof is scoped to.
    pub destination_context: u64,
}

/// Structural validity of a signature blob: the placeholder scheme marks a
/// well-formed signature with a non-zero first byte.
pub open spec fn spec_signature_marker_valid(signature: Seq<u8>) -> bool {
    signature[0] != 0
}

/// When an attestation verifies for a claim at time `now`: valid signature
/// marker, matching subject and resource, not expired, and attested quantity
/// at or above the declared threshold.
pub open spec fn spec_verify_attestation(attestation: Attestation, claim: Claim, now: u64) -> bool {
    &&& spec_signature_marker_valid(attestation.signature@)
    &&& attestation.subject@ == claim.subject@
    &&& attestation.resource_id@ == claim.resource_id@
    &&& attestation.expiry >= now
    &&& attestation.quantity >= claim.declared_threshold
}

/// Compares two 20-byte addresses.
pub fn bytes20_eq(a: &[u8; 20], b: &[u8; 20]) -> (r: bool)
    ensures
        r == (a@ == b@),
{
    let mut i: usize = 0;
    while i < 20
        invariant
            i <= 20,
            forall|j: int| 0 <= j < i ==> a@[j] == b@[j],
        decreases 20 - i,
    {
        if a[i] != b[i] {
            return false;
        }
        i += 1;
    }
    assert(a@ =~= b@);
    true
}

/// Compares two 32-byte identifiers.
pub fn bytes32_eq(a: &[u8; 32], b: &[u8; 32]) -> (r: bool)
    ensures
        r == (a@ == b@),
{
    let mut i: usize = 0;
    while i < 32
        invariant
            i <= 32,
            forall|j: int| 0 <= j < i ==> a@[j] == b@[j],
        decreases 32 - i,
    {
        if a[i] != b[i] {
            return false;
        }
        i += 1;
    }
    assert(a@ =~= b@);
    true
}

/// Decides whether `attestation` supports `claim` at time `now`.  Any single
/// failing condition yields `false`; the orchestrator treats `false` as fatal.
pub fn verify_attestation(attestation: &Attestation, claim: &Claim, now: u64) -> (r: bool)
    ensures
        r == spec_verify_attestation(*attestation, *claim, now),
{
    if attestation.signature[0] == 0 {
        return false;
    }
    if !bytes20_eq(&attestation.subject, &claim.subject) {
        return false;
    }
    if !bytes32_eq(&attestation.resource_id, &claim.resource_id) {
        return false;
    }
    if attestation.expiry < now {
        return false;
    }
    attestation.quantity >= claim.declared_threshold
}

/// Checks a balance attestation for an asset claim.  The placeholder scheme
/// accepts exactly the proofs whose first byte is non-zero; a production
/// deployment replaces this with a real signature check over
/// `(user, asset, amount)`.
pub fn verify_balance_proof(proof: &[u8; 64], user: &[u8; 20], asset: &[u8; 32], amount: u64) -> (r:
    bool)
    ensures
        r == spec_signature_marker_valid(proof@),
{
    if proof[0] == 0 {
        return false;
    }
    true
}

/// Checks a credit-line approval from a credit provider.  Same placeholder
/// scheme as `verify_balance_proof`, over `(user, provider, credit_limit)`.
pub fn verify_credit_approval(
    approval: &[u8; 64],
    user: &[u8; 20],
    provider: &[u8; 32],
    credit_limit: u64,
) -> (r: bool)
    ensures
        r == spec_signature_marker_valid(approval@),
{
    if approval[0] == 0 {
        return false;
    }
    true
}

/// Checks a user's authorization of an agent.  Same placeholder scheme, over
/// `(user, agent_id, spending_limit)`.
pub fn verify_agent_auth(
    auth_signature: &[u8; 64],
    user: &[u8; 20],
    agent_id: &[u8; 32],
    spending_limit: u64,
) -> (r: bool)
    ensures
        r == spec_signature_marker_valid(auth_signature@),
{
    if auth_signature[0] == 0 {
        return false;
    }
    true
}

/// An attested quantity below the declared threshold never verifies, whatever
/// the signature, subject, resource or expiry look like.
pub proof fn lemma_insufficient_quantity_never_verifies(
    attestation: Attestation,
    claim: Claim,
    now: u64,
)
    requires
        attestation.quantity < claim.declared_threshold,
    ensures
        !spec_verify_attestation(attestation, claim, now),
{
}

/// An expired attestation never verifies, regardless of the attested
/// quantity or any other field.
pub proof fn lemma_expired_never_verifies(attestation: Attestation, claim: Claim, now: u64)
    requires
        attestation.expiry < now,
    ensures
        !spec_verify_attestation(attestation, claim, now),
{
}

} // verus!
