//! Attestation providers: the pluggable connectors that fetch signed facts
//! (available credit, account ownership) from external systems before a proof
//! run.
//!
//! Each connector owns its immutable configuration and exposes the same
//! capability set: verify ownership, fetch available credit, generate a
//! credit proof.  The connectors here are the protocol's built-in stand-ins
//! for a custodial-exchange API and a bank API; their network calls are
//! mocked with fixed responses, and the payloads they sign are canonical byte
//! concatenations of the fields being attested.  The factory maps a provider
//! type tag to a connector and fails fast on an unrecognized tag.

use vstd::prelude::*;

use vstd::string::StringSliceAdditionalSpecFns;

verus! {

/// A credit provider's answer to an availability query.
pub struct CreditProviderResponse {
    /// Whether the query succeeded; when false, only `error_message` is
    /// meaningful.
    pub success: bool,
    /// The attested available credit.
    pub available_credit: u128,
    /// Unix timestamp until which the attestation is valid.
    pub expiration_timestamp: u64,
    /// Signature binding the subject and provider account to the answer.
    pub signature: Vec<u8>,
    /// Human-readable failure description, present exactly on failure.
    pub error_message: Option<String>,
}

/// The capability set every attestation provider implements.  What a
/// concrete provider answers is its own affair — these calls run outside the
/// proof — so the trait itself promises nothing; the built-in connectors
/// state their exact mock behaviour on their own impls.
pub trait CreditProviderConnector {
    /// Confirms that `auth_data` proves the subject's control of the named
    /// provider account.
    fn verify_ownership(&self, user_address: [u8; 20], provider_id: &str, auth_data: &[u8]) -> bool;

    /// Fetches the available credit for the subject's account, signed by the
    /// provider.
    fn get_available_credit(
        &self,
        user_address: [u8; 20],
        provider_id: &str,
        auth_data: &[u8],
    ) -> CreditProviderResponse;

    /// Produces the signature consumed as an attestation, binding the
    /// subject, the provider account and the requested amount.
    fn generate_credit_proof(
        &self,
        user_address: [u8; 20],
        provider_address: [u8; 20],
        provider_id: &str,
        requested_amount: u128,
        auth_data: &[u8],
    ) -> Vec<u8>;
}

/// Compares two strings for equality.  Works on the UTF-8 bytes; equal bytes
/// mean equal character sequences because UTF-8 encoding is lossless.
pub fn str_eq(a: &str, b: &str) -> (r: bool)
    ensures
        r == (a@ == b@),
{
    proof {
        vstd::utf8::encode_utf8_decode_utf8(a@);
        vstd::utf8::encode_utf8_decode_utf8(b@);
    }
    let ab = a.as_bytes();
    let bb = b.as_bytes();
    if ab.len() != bb.len() {
        return false;
    }
    let mut i: usize = 0;
    while i < ab.len()
        invariant
            ab@ == a.spec_bytes(),
            bb@ == b.spec_bytes(),
            ab@.len() == bb@.len(),
            i <= ab@.len(),
            forall|j: int| 0 <= j < i ==> ab@[j] == bb@[j],
        decreases ab@.len() - i,
    {
        if ab[i] != bb[i] {
            return false;
        }
        i += 1;
    }
    proof {
        assert(ab@ =~= bb@);
    }
    true
}

/// Little-endian byte `k` of a 128-bit amount.
pub open spec fn u128_le_byte(x: u128, k: int) -> u8
    recommends
        0 <= k < 16,
{
    ((x >> ((8 * k) as u128)) & 0xff) as u8
}

/// The 16 little-endian bytes of a 128-bit amount.
pub open spec fn u128_le_bytes(x: u128) -> Seq<u8> {
    Seq::new(16, |k: int| u128_le_byte(x, k))
}

/// Canonical signing payload binding a subject to a provider account:
/// the subject's address followed by the account identifier's bytes.
fn attestation_payload(user_address: &[u8; 20], provider_id: &str) -> (r: Vec<u8>)
    ensures
        r@ == user_address@ + provider_id.spec_bytes(),
{
    let mut out: Vec<u8> = Vec::new();
    let mut i: usize = 0;
    while i < 20
        invariant
            i <= 20,
            out@ == user_address@.take(i as int),
        decreases 20 - i,
    {
        let x = user_address[i];
        out.push(x);
        proof {
            assert(user_address@.take(i + 1) =~= user_address@.take(i as int).push(x));
        }
        i += 1;
    }
    proof {
        assert(user_address@.take(20) =~= user_address@);
    }
    let id_bytes = provider_id.as_bytes();
    let mut j: usize = 0;
    while j < id_bytes.len()
        invariant
            id_bytes@ == provider_id.spec_bytes(),
            j <= id_bytes@.len(),
            out@ == user_address@ + id_bytes@.take(j as int),
        decreases id_bytes@.len() - j,
    {
        let x = id_bytes[j];
        out.push(x);
        proof {
            assert(id_bytes@.take(j + 1) =~= id_bytes@.take(j as int).push(x));
        }
        j += 1;
    }
    proof {
        assert(id_bytes@.take(id_bytes@.len() as int) =~= id_bytes@);
    }
    out
}

/// Canonical signing payload for a credit proof: subject, provider account,
/// requested amount (little-endian) and provider address, concatenated.
fn proof_payload(
    user_address: &[u8; 20],
    provider_id: &str,
    requested_amount: u128,
    provider_address: &[u8; 20],
) -> (r: Vec<u8>)
    ensures
        r@ == user_address@ + provider_id.spec_bytes() + u128_le_bytes(requested_amount)
            + provider_address@,
{
    let mut out = attestation_payload(user_address, provider_id);
    let ghost amount_bytes = u128_le_bytes(requested_amount);
    let mut k: usize = 0;
    while k < 16
        invariant
            k <= 16,
            amount_bytes == u128_le_bytes(requested_amount),
            out@ == user_address@ + provider_id.spec_bytes() + amount_bytes.take(k as int),
        decreases 16 - k,
    {
        let x = ((requested_amount >> ((8 * k) as u128)) & 0xff) as u8;
        out.push(x);
        proof {
            assert(amount_bytes.take(k + 1) =~= amount_bytes.take(k as int).push(x));
        }
        k += 1;
    }
    proof {
        assert(amount_bytes.take(16) =~= amount_bytes);
    }
    let mut i: usize = 0;
    while i < 20
        invariant
            i <= 20,
            out@ == user_address@ + provider_id.spec_bytes() + u128_le_bytes(requested_amount)
                + provider_address@.take(i as int),
        decreases 20 - i,
    {
        let x = provider_address[i];
        out.push(x);
        proof {
            assert(provider_address@.take(i + 1) =~= provider_address@.take(i as int).push(x));
        }
        i += 1;
    }
    proof {
        assert(provider_address@.take(20) =~= provider_address@);
    }
    out
}

/// Connector for a custodial-exchange-style provider.
pub struct CEXConnector {
    pub api_key: String,
    pub api_secret: String,
    pub base_url: String,
}

impl CEXConnector {
    /// Builds a connector owning its configuration.
    pub fn new(api_key: &str, api_secret: &str, base_url: &str) -> (r: Self)
        ensures
            r.api_key@ == api_key@,
            r.api_secret@ == api_secret@,
            r.base_url@ == base_url@,
    {
        CEXConnector {
            api_key: api_key.to_owned(),
            api_secret: api_secret.to_owned(),
            base_url: base_url.to_owned(),
        }
    }

    /// Mock exchange API signature: a fixed marker blob, whatever the
    /// payload.  A production connector computes an HMAC here.
    fn create_signature(&self, _payload: &[u8]) -> (r: Vec<u8>)
        ensures
            r@ == seq![1u8, 2u8, 3u8, 4u8, 5u8],
    {
        let mut sig: Vec<u8> = Vec::new();
        sig.push(1u8);
        sig.push(2u8);
        sig.push(3u8);
        sig.push(4u8);
        sig.push(5u8);
        proof {
            assert(sig@ =~= seq![1u8, 2u8, 3u8, 4u8, 5u8]);
        }
        sig
    }
}

impl CreditProviderConnector for CEXConnector {
    /// Mock: the exchange always confirms ownership.
    fn verify_ownership(&self, _user_address: [u8; 20], _provider_id: &str, _auth_data: &[u8]) -> (r:
        bool)
        ensures
            r == true,
    {
        true
    }

    /// Mock: a fixed successful response, signed over the canonical
    /// subject-and-account payload.
    fn get_available_credit(
        &self,
        user_address: [u8; 20],
        provider_id: &str,
        _auth_data: &[u8],
    ) -> (r: CreditProviderResponse)
        ensures
            r.success == true,
            r.available_credit == 10000,
            r.expiration_timestamp == 1648262400,
            r.signature@ == seq![1u8, 2u8, 3u8, 4u8, 5u8],
            r.error_message is None,
    {
        let payload = attestation_payload(&user_address, provider_id);
        CreditProviderResponse {
            success: true,
            available_credit: 10000,
            expiration_timestamp: 1648262400,
            signature: self.create_signature(payload.as_slice()),
            error_message: None,
        }
    }

    /// Mock: signs the canonical credit-proof payload with the fixed marker.
    fn generate_credit_proof(
        &self,
        user_address: [u8; 20],
        provider_address: [u8; 20],
        provider_id: &str,
        requested_amount: u128,
        _auth_data: &[u8],
    ) -> (r: Vec<u8>)
        ensures
            r@ == seq![1u8, 2u8, 3u8, 4u8, 5u8],
    {
        let payload = proof_payload(&user_address, provider_id, requested_amount, &provider_address);
        self.create_signature(payload.as_slice())
    }
}

/// Connector for a bank-style provider.
pub struct BankConnector {
    pub api_key: String,
    pub client_id: String,
    pub base_url: String,
}

impl BankConnector {
    /// Builds a connector owning its configuration.
    pub fn new(api_key: &str, client_id: &str, base_url: &str) -> (r: Self)
        ensures
            r.api_key@ == api_key@,
            r.client_id@ == client_id@,
            r.base_url@ == base_url@,
    {
        BankConnector {
            api_key: api_key.to_owned(),
            client_id: client_id.to_owned(),
            base_url: base_url.to_owned(),
        }
    }

    /// Mock bank API signature: a fixed marker blob, whatever the payload.
    fn create_signature(&self, _payload: &[u8]) -> (r: Vec<u8>)
        ensures
            r@ == seq![6u8, 7u8, 8u8, 9u8, 10u8],
    {
        let mut sig: Vec<u8> = Vec::new();
        sig.push(6u8);
        sig.push(7u8);
        sig.push(8u8);
        sig.push(9u8);
        sig.push(10u8);
        proof {
            assert(sig@ =~= seq![6u8, 7u8, 8u8, 9u8, 10u8]);
        }
        sig
    }
}

impl CreditProviderConnector for BankConnector {
    /// Mock: the bank always confirms ownership.
    fn verify_ownership(&self, _user_address: [u8; 20], _provider_id: &str, _auth_data: &[u8]) -> (r:
        bool)
        ensures
            r == true,
    {
        true
    }

    /// Mock: a fixed successful response, signed over the canonical
    /// subject-and-account payload.
    fn get_available_credit(
        &self,
        user_address: [u8; 20],
        provider_id: &str,
        _auth_data: &[u8],
    ) -> (r: CreditProviderResponse)
        ensures
            r.success == true,
            r.available_credit == 50000,
            r.expiration_timestamp == 1648348800,
            r.signature@ == seq![6u8, 7u8, 8u8, 9u8, 10u8],
            r.error_message is None,
    {
        let payload = attestation_payload(&user_address, provider_id);
        CreditProviderResponse {
            success: true,
            available_credit: 50000,
            expiration_timestamp: 1648348800,
            signature: self.create_signature(payload.as_slice()),
            error_message: None,
        }
    }

    /// Mock: signs the canonical credit-proof payload with the fixed marker.
    fn generate_credit_proof(
        &self,
        user_address: [u8; 20],
        provider_address: [u8; 20],
        provider_id: &str,
        requested_amount: u128,
        _auth_data: &[u8],
    ) -> (r: Vec<u8>)
        ensures
            r@ == seq![6u8, 7u8, 8u8, 9u8, 10u8],
    {
        let payload = proof_payload(&user_address, provider_id, requested_amount, &provider_address);
        self.create_signature(payload.as_slice())
    }
}

/// Configuration handed to the factory: each provider type reads the keys it
/// recognizes and falls back to its defaults for the rest.
pub struct ProviderConfig {
    pub api_key: Option<String>,
    pub api_secret: Option<String>,
    pub client_id: Option<String>,
    pub base_url: Option<String>,
}

/// A fatal configuration error from the factory.
#[derive(PartialEq, Eq, Structural, Clone, Copy, Debug)]
pub enum ConfigError {
    /// The provider type tag names no known connector.
    UnsupportedProviderType,
}

/// A connector of any supported provider type.
pub enum Connector {
    Cex(CEXConnector),
    Bank(BankConnector),
}

/// A configured value, or the provider's default where none was given.
pub open spec fn spec_config_or(v: Option<String>, default: Seq<char>) -> Seq<char> {
    match v {
        Option::Some(s) => s@,
        Option::None => default,
    }
}

/// Reads a configured value, falling back to a default.
fn config_or(v: &Option<String>, default: &str) -> (r: String)
    ensures
        r@ == spec_config_or(*v, default@),
{
    match v {
        Option::Some(s) => s.clone(),
        Option::None => default.to_owned(),
    }
}

/// Builds the connector for a provider type tag.  Recognizes exactly "cex"
/// and "bank"; anything else is a fatal configuration error, reported before
/// any attestation logic runs.
pub fn create_connector(provider_type: &str, config: &ProviderConfig) -> (r: Result<
    Connector,
    ConfigError,
>)
    ensures
        r is Ok <==> (provider_type@ == "cex"@ || provider_type@ == "bank"@),
        provider_type@ == "cex"@ ==> (r matches Ok(Connector::Cex(c)) && c.api_key@
            == spec_config_or(config.api_key, ""@) && c.api_secret@ == spec_config_or(
            config.api_secret,
            ""@,
        ) && c.base_url@ == spec_config_or(config.base_url, "https://api.example.com"@)),
        provider_type@ == "bank"@ ==> (r matches Ok(Connector::Bank(c)) && c.api_key@
            == spec_config_or(config.api_key, ""@) && c.client_id@ == spec_config_or(
            config.client_id,
            ""@,
        ) && c.base_url@ == spec_config_or(config.base_url, "https://api.bank.com"@)),
        provider_type@ != "cex"@ && provider_type@ != "bank"@ ==> r == Err::<
            Connector,
            ConfigError,
        >(ConfigError::UnsupportedProviderType),
{
    proof {
        reveal_strlit("cex");
        reveal_strlit("bank");
        assert("cex"@.len() == 3);
        assert("bank"@.len() == 4);
        assert("cex"@ != "bank"@);
    }
    if str_eq(provider_type, "cex") {
        let api_key = config_or(&config.api_key, "");
        let api_secret = config_or(&config.api_secret, "");
        let base_url = config_or(&config.base_url, "https://api.example.com");
        Ok(
            Connector::Cex(
                CEXConnector::new(api_key.as_str(), api_secret.as_str(), base_url.as_str()),
            ),
        )
    } else if str_eq(provider_type, "bank") {
        let api_key = config_or(&config.api_key, "");
        let client_id = config_or(&config.client_id, "");
        let base_url = config_or(&config.base_url, "https://api.bank.com");
        Ok(
            Connector::Bank(
                BankConnector::new(api_key.as_str(), client_id.as_str(), base_url.as_str()),
            ),
        )
    } else {
        Err(ConfigError::UnsupportedProviderType)
    }
}

impl CreditProviderConnector for Connector {
    /// Dispatches to the configured provider; every built-in provider's mock
    /// confirms ownership.
    fn verify_ownership(&self, user_address: [u8; 20], provider_id: &str, auth_data: &[u8]) -> (r:
        bool)
        ensures
            r == true,
    {
        match self {
            Connector::Cex(c) => c.verify_ownership(user_address, provider_id, auth_data),
            Connector::Bank(c) => c.verify_ownership(user_address, provider_id, auth_data),
        }
    }

    /// Dispatches to the configured provider's mock availability answer.
    fn get_available_credit(
        &self,
        user_address: [u8; 20],
        provider_id: &str,
        auth_data: &[u8],
    ) -> (r: CreditProviderResponse)
        ensures
            r.success == true,
            r.error_message is None,
            self is Cex ==> r.available_credit == 10000 && r.expiration_timestamp == 1648262400
                && r.signature@ == seq![1u8, 2u8, 3u8, 4u8, 5u8],
            self is Bank ==> r.available_credit == 50000 && r.expiration_timestamp == 1648348800
                && r.signature@ == seq![6u8, 7u8, 8u8, 9u8, 10u8],
    {
        match self {
            Connector::Cex(c) => c.get_available_credit(user_address, provider_id, auth_data),
            Connector::Bank(c) => c.get_available_credit(user_address, provider_id, auth_data),
        }
    }

    /// Dispatches to the configured provider's mock proof signature.
    fn generate_credit_proof(
        &self,
        user_address: [u8; 20],
        provider_address: [u8; 20],
        provider_id: &str,
        requested_amount: u128,
        auth_data: &[u8],
    ) -> (r: Vec<u8>)
        ensures
            self is Cex ==> r@ == seq![1u8, 2u8, 3u8, 4u8, 5u8],
            self is Bank ==> r@ == seq![6u8, 7u8, 8u8, 9u8, 10u8],
    {
        match self {
            Connector::Cex(c) => c.generate_credit_proof(
                user_address,
                provider_address,
                provider_id,
                requested_amount,
                auth_data,
            ),
            Connector::Bank(c) => c.generate_credit_proof(
                user_address,
                provider_address,
                provider_id,
                requested_amount,
                auth_data,
            ),
        }
    }
}

} // verus!
