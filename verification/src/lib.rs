//! Threshold-gated cross-chain claims: a party proves to an on-chain
//! verifier that a private attested fact (an asset balance, an approved
//! credit line, a delegated spending authority) meets a public threshold,
//! without revealing the fact's exact value, and produces a non-replayable
//! output record.
//!
//! The pieces, in the order a proof run uses them: `connectors` fetches
//! signed facts from external providers before a run; `threshold` checks an
//! attestation against a claim; `nullifier` derives the deterministic
//! anti-replay commitment; `codec` lays the verified facts out as the
//! bit-exact record the on-chain verifier consumes; `orchestrator` drives
//! one verify-then-commit-then-encode pass per circuit variant and aborts
//! with no output on any failure.

pub mod codec;
pub mod connectors;
pub mod nullifier;
pub mod orchestrator;
pub mod threshold;

use vstd::prelude::*;

pub use connectors::create_connector;
pub use connectors::BankConnector;
pub use connectors::CEXConnector;
pub use connectors::CreditProviderConnector;
pub use connectors::CreditProviderResponse;
pub use nullifier::compute_commitment;
pub use threshold::verify_agent_auth;
pub use threshold::verify_balance_proof;
pub use threshold::verify_credit_approval;

verus! {

/// Mock clock used by the verification layer: a fixed timestamp, so that a
/// proof run is deterministic and reproducible.
pub open spec fn current_time() -> u64 {
    1648176000
}

/// Returns the time a verification run considers "now".
/// The deployment described here runs inside a deterministic prover, so the
/// clock is a fixed timestamp rather than a system call.
pub fn get_current_time() -> (r: u64)
    ensures
        r == current_time(),
{
    1648176000
}

} // verus!
