//! PublicValues codec: the canonical, fixed-layout output records the
//! on-chain verifier consumes.
//!
//! Each variant is a fixed sequence of 32-byte words: a 64-bit quantity is
//! left-padded with 24 zero bytes and written big-endian, a 20-byte address
//! is left-padded with 12 zero bytes, and a 32-byte identifier fills its word.
//! The layout is bit-exact by requirement; the decoder here is the stand-in
//! for the external verifier's decoder, and the round-trip lemmas show the
//! encoding loses nothing and is injective.

use vstd::prelude::*;

verus! {

/// Big-endian byte `k` (0 = most significant) of a 64-bit value.
pub open spec fn u64_be_byte(x: u64, k: int) -> u8
    recommends
        0 <= k < 8,
{
    ((x >> ((8 * (7 - k)) as u64)) & 0xff) as u8
}

/// The 64-bit value stored big-endian in an 8-byte sequence.
pub open spec fn be_u64_of(s: Seq<u8>) -> u64
    recommends
        s.len() == 8,
{
    ((s[0] as u64) << 56u64) | ((s[1] as u64) << 48u64) | ((s[2] as u64) << 40u64) | ((s[3] as u64)
        << 32u64) | ((s[4] as u64) << 24u64) | ((s[5] as u64) << 16u64) | ((s[6] as u64) << 8u64)
        | (s[7] as u64)
}

/// A 32-byte word holding a 64-bit quantity: 24 zero bytes, then the value
/// big-endian.
pub open spec fn spec_u64_word(x: u64) -> Seq<u8> {
    Seq::new(32, |i: int| if i < 24 { 0u8 } else { u64_be_byte(x, i - 24) })
}

/// A 32-byte word holding a 20-byte address: 12 zero bytes, then the address.
pub open spec fn spec_address_word(a: Seq<u8>) -> Seq<u8>
    recommends
        a.len() == 20,
{
    Seq::new(32, |i: int| if i < 12 { 0u8 } else { a[i - 12] })
}

/// All bytes of a sequence are zero.
pub open spec fn spec_is_zero(s: Seq<u8>) -> bool {
    forall|i: int| 0 <= i < s.len() ==> s[i] == 0
}

/// Public record of an asset claim: the subject holds at least
/// `min_balance_threshold` of `asset_address` on `source_chain_id`, scoped to
/// `target_chain_id`.
#[derive(Clone, Copy, Debug)]
pub struct AssetClaimPublicValues {
    pub source_chain_id: u64,
    pub asset_address: [u8; 32],
    pub min_balance_threshold: u64,
    pub user_address: [u8; 20],
    pub target_chain_id: u64,
    pub nullifier: [u8; 32],
}

/// Mathematical image of `AssetClaimPublicValues`.
#[verifier::ext_equal]
pub ghost struct AssetClaimView {
    pub source_chain_id: u64,
    pub asset_address: Seq<u8>,
    pub min_balance_threshold: u64,
    pub user_address: Seq<u8>,
    pub target_chain_id: u64,
    pub nullifier: Seq<u8>,
}

impl View for AssetClaimPublicValues {
    type V = AssetClaimView;

    open spec fn view(&self) -> AssetClaimView {
        AssetClaimView {
            source_chain_id: self.source_chain_id,
            asset_address: self.asset_address@,
            min_balance_threshold: self.min_balance_threshold,
            user_address: self.user_address@,
            target_chain_id: self.target_chain_id,
            nullifier: self.nullifier@,
        }
    }
}

/// Public record of a credit line: the subject has at least
/// `min_credit_amount` approved by `credit_provider`, scoped to
/// `target_chain_id`.
#[derive(Clone, Copy, Debug)]
pub struct CreditLinePublicValues {
    pub credit_provider: [u8; 32],
    pub min_credit_amount: u64,
    pub user_address: [u8; 20],
    pub target_chain_id: u64,
    pub nullifier: [u8; 32],
}

/// Mathematical image of `CreditLinePublicValues`.
#[verifier::ext_equal]
pub ghost struct CreditLineView {
    pub credit_provider: Seq<u8>,
    pub min_credit_amount: u64,
    pub user_address: Seq<u8>,
    pub target_chain_id: u64,
    pub nullifier: Seq<u8>,
}

impl View for CreditLinePublicValues {
    type V = CreditLineView;

    open spec fn view(&self) -> CreditLineView {
        CreditLineView {
            credit_provider: self.credit_provider@,
            min_credit_amount: self.min_credit_amount,
            user_address: self.user_address@,
            target_chain_id: self.target_chain_id,
            nullifier: self.nullifier@,
        }
    }
}

/// Public record of an agent authority: `agent_id` is authorized by the
/// subject to spend up to `max_spending_limit`, scoped to `target_chain_id`.
#[derive(Clone, Copy, Debug)]
pub struct AgentAuthorityPublicValues {
    pub agent_id: [u8; 32],
    pub user_address: [u8; 20],
    pub max_spending_limit: u64,
    pub target_chain_id: u64,
    pub nullifier: [u8; 32],
}

/// Mathematical image of `AgentAuthorityPublicValues`.
#[verifier::ext_equal]
pub ghost struct AgentAuthorityView {
    pub agent_id: Seq<u8>,
    pub user_address: Seq<u8>,
    pub max_spending_limit: u64,
    pub target_chain_id: u64,
    pub nullifier: Seq<u8>,
}

impl View for AgentAuthorityPublicValues {
    type V = AgentAuthorityView;

    open spec fn view(&self) -> AgentAuthorityView {
        AgentAuthorityView {
            agent_id: self.agent_id@,
            user_address: self.user_address@,
            max_spending_limit: self.max_spending_limit,
            target_chain_id: self.target_chain_id,
            nullifier: self.nullifier@,
        }
    }
}

/// The 192-byte asset-claim record.
pub open spec fn spec_encode_asset_claim(v: AssetClaimView) -> Seq<u8> {
    spec_u64_word(v.source_chain_id) + v.asset_address + spec_u64_word(v.min_balance_threshold)
        + spec_address_word(v.user_address) + spec_u64_word(v.target_chain_id) + v.nullifier
}

/// The 160-byte credit-line record.
pub open spec fn spec_encode_credit_line(v: CreditLineView) -> Seq<u8> {
    v.credit_provider + spec_u64_word(v.min_credit_amount) + spec_address_word(v.user_address)
        + spec_u64_word(v.target_chain_id) + v.nullifier
}

/// The 160-byte agent-authority record.
pub open spec fn spec_encode_agent_authority(v: AgentAuthorityView) -> Seq<u8> {
    v.agent_id + spec_address_word(v.user_address) + spec_u64_word(v.max_spending_limit)
        + spec_u64_word(v.target_chain_id) + v.nullifier
}

/// Big-endian byte `k` of a 64-bit value, executable form.
fn be_byte(x: u64, k: usize) -> (r: u8)
    requires
        k < 8,
    ensures
        r == u64_be_byte(x, k as int),
{
    ((x >> ((8 * (7 - k)) as u64)) & 0xff) as u8
}

/// Appends the 32-byte word of a 64-bit quantity.
fn push_u64_word(out: &mut Vec<u8>, x: u64)
    ensures
        final(out)@ == old(out)@ + spec_u64_word(x),
{
    let ghost w = spec_u64_word(x);
    let mut i: usize = 0;
    while i < 24
        invariant
            i <= 24,
            w == spec_u64_word(x),
            out@ == old(out)@ + w.take(i as int),
        decreases 24 - i,
    {
        out.push(0u8);
        proof {
            assert(w.take(i + 1) =~= w.take(i as int).push(0u8));
        }
        i += 1;
    }
    let mut k: usize = 0;
    while k < 8
        invariant
            k <= 8,
            w == spec_u64_word(x),
            out@ == old(out)@ + w.take(24 + k as int),
        decreases 8 - k,
    {
        let b = be_byte(x, k);
        out.push(b);
        proof {
            assert(w.take(24 + (k + 1)) =~= w.take(24 + k as int).push(b));
        }
        k += 1;
    }
    proof {
        assert(w.take(32) =~= w);
    }
}

/// Appends a full 32-byte identifier word.
fn push_bytes32(out: &mut Vec<u8>, b: &[u8; 32])
    ensures
        final(out)@ == old(out)@ + b@,
{
    let mut i: usize = 0;
    while i < 32
        invariant
            i <= 32,
            out@ == old(out)@ + b@.take(i as int),
        decreases 32 - i,
    {
        let x = b[i];
        out.push(x);
        proof {
            assert(b@.take(i + 1) =~= b@.take(i as int).push(x));
        }
        i += 1;
    }
    proof {
        assert(b@.take(32) =~= b@);
    }
}

/// Appends the 32-byte word of a 20-byte address.
fn push_address_word(out: &mut Vec<u8>, a: &[u8; 20])
    ensures
        final(out)@ == old(out)@ + spec_address_word(a@),
{
    let ghost w = spec_address_word(a@);
    let mut i: usize = 0;
    while i < 12
        invariant
            i <= 12,
            w == spec_address_word(a@),
            out@ == old(out)@ + w.take(i as int),
        decreases 12 - i,
    {
        out.push(0u8);
        proof {
            assert(w.take(i + 1) =~= w.take(i as int).push(0u8));
        }
        i += 1;
    }
    let mut k: usize = 0;
    while k < 20
        invariant
            k <= 20,
            w == spec_address_word(a@),
            out@ == old(out)@ + w.take(12 + k as int),
        decreases 20 - k,
    {
        let x = a[k];
        out.push(x);
        proof {
            assert(w.take(12 + (k + 1)) =~= w.take(12 + k as int).push(x));
        }
        k += 1;
    }
    proof {
        assert(w.take(32) =~= w);
    }
}

/// Encodes an asset-claim record into its canonical 192 bytes.
pub fn encode_asset_claim(v: &AssetClaimPublicValues) -> (r: Vec<u8>)
    ensures
        r@ == spec_encode_asset_claim(v@),
{
    let mut out: Vec<u8> = Vec::new();
    push_u64_word(&mut out, v.source_chain_id);
    push_bytes32(&mut out, &v.asset_address);
    push_u64_word(&mut out, v.min_balance_threshold);
    push_address_word(&mut out, &v.user_address);
    push_u64_word(&mut out, v.target_chain_id);
    push_bytes32(&mut out, &v.nullifier);
    proof {
        assert(out@ =~= spec_encode_asset_claim(v@));
    }
    out
}

/// Encodes a credit-line record into its canonical 160 bytes.
pub fn encode_credit_line(v: &CreditLinePublicValues) -> (r: Vec<u8>)
    ensures
        r@ == spec_encode_credit_line(v@),
{
    let mut out: Vec<u8> = Vec::new();
    push_bytes32(&mut out, &v.credit_provider);
    push_u64_word(&mut out, v.min_credit_amount);
    push_address_word(&mut out, &v.user_address);
    push_u64_word(&mut out, v.target_chain_id);
    push_bytes32(&mut out, &v.nullifier);
    proof {
        assert(out@ =~= spec_encode_credit_line(v@));
    }
    out
}

/// Encodes an agent-authority record into its canonical 160 bytes.
pub fn encode_agent_authority(v: &AgentAuthorityPublicValues) -> (r: Vec<u8>)
    ensures
        r@ == spec_encode_agent_authority(v@),
{
    let mut out: Vec<u8> = Vec::new();
    push_bytes32(&mut out, &v.agent_id);
    push_address_word(&mut out, &v.user_address);
    push_u64_word(&mut out, v.max_spending_limit);
    push_u64_word(&mut out, v.target_chain_id);
    push_bytes32(&mut out, &v.nullifier);
    proof {
        assert(out@ =~= spec_encode_agent_authority(v@));
    }
    out
}

/// What the external verifier's decoder recovers from 192 candidate bytes of
/// an asset-claim record: the fields, when every padding byte is zero and the
/// length is exact; nothing otherwise.
pub open spec fn spec_decode_asset_claim(s: Seq<u8>) -> Option<AssetClaimView> {
    if s.len() == 192 && spec_is_zero(s.subrange(0, 24)) && spec_is_zero(s.subrange(64, 88))
        && spec_is_zero(s.subrange(96, 108)) && spec_is_zero(s.subrange(128, 152)) {
        Some(
            AssetClaimView {
                source_chain_id: be_u64_of(s.subrange(24, 32)),
                asset_address: s.subrange(32, 64),
                min_balance_threshold: be_u64_of(s.subrange(88, 96)),
                user_address: s.subrange(108, 128),
                target_chain_id: be_u64_of(s.subrange(152, 160)),
                nullifier: s.subrange(160, 192),
            },
        )
    } else {
        None
    }
}

/// Decoder counterpart of `spec_encode_credit_line`.
pub open spec fn spec_decode_credit_line(s: Seq<u8>) -> Option<CreditLineView> {
    if s.len() == 160 && spec_is_zero(s.subrange(32, 56)) && spec_is_zero(s.subrange(64, 76))
        && spec_is_zero(s.subrange(96, 120)) {
        Some(
            CreditLineView {
                credit_provider: s.subrange(0, 32),
                min_credit_amount: be_u64_of(s.subrange(56, 64)),
                user_address: s.subrange(76, 96),
                target_chain_id: be_u64_of(s.subrange(120, 128)),
                nullifier: s.subrange(128, 160),
            },
        )
    } else {
        None
    }
}

/// Decoder counterpart of `spec_encode_agent_authority`.
pub open spec fn spec_decode_agent_authority(s: Seq<u8>) -> Option<AgentAuthorityView> {
    if s.len() == 160 && spec_is_zero(s.subrange(32, 44)) && spec_is_zero(s.subrange(64, 88))
        && spec_is_zero(s.subrange(96, 120)) {
        Some(
            AgentAuthorityView {
                agent_id: s.subrange(0, 32),
                user_address: s.subrange(44, 64),
                max_spending_limit: be_u64_of(s.subrange(88, 96)),
                target_chain_id: be_u64_of(s.subrange(120, 128)),
                nullifier: s.subrange(128, 160),
            },
        )
    } else {
        None
    }
}

/// True when every byte in `bytes[start..end]` is zero.
fn is_zero_range(bytes: &[u8], start: usize, end: usize) -> (r: bool)
    requires
        start <= end,
        end <= bytes.len(),
    ensures
        r == spec_is_zero(bytes@.subrange(start as int, end as int)),
{
    let ghost sub = bytes@.subrange(start as int, end as int);
    let mut i: usize = start;
    while i < end
        invariant
            start <= i <= end,
            end <= bytes.len(),
            sub == bytes@.subrange(start as int, end as int),
            forall|j: int| start <= j < i ==> bytes@[j] == 0,
        decreases end - i,
    {
        if bytes[i] != 0 {
            proof {
                assert(sub[i - start as int] == bytes@[i as int]);
            }
            return false;
        }
        i += 1;
    }
    proof {
        assert forall|m: int| 0 <= m < sub.len() implies sub[m] == 0 by {
            assert(sub[m] == bytes@[start + m]);
        }
    }
    true
}

/// Reads the big-endian 64-bit value at `bytes[start..start + 8]`.
fn read_u64_at(bytes: &[u8], start: usize) -> (r: u64)
    requires
        start + 8 <= bytes.len(),
    ensures
        r == be_u64_of(bytes@.subrange(start as int, start + 8)),
{
    let r = ((bytes[start] as u64) << 56u64) | ((bytes[start + 1] as u64) << 48u64) | ((bytes[start
        + 2] as u64) << 40u64) | ((bytes[start + 3] as u64) << 32u64) | ((bytes[start + 4] as u64)
        << 24u64) | ((bytes[start + 5] as u64) << 16u64) | ((bytes[start + 6] as u64) << 8u64) | (
    bytes[start + 7] as u64);
    proof {
        let sub = bytes@.subrange(start as int, start + 8);
        assert(sub[0] == bytes@[start as int]);
        assert(sub[1] == bytes@[start + 1]);
        assert(sub[2] == bytes@[start + 2]);
        assert(sub[3] == bytes@[start + 3]);
        assert(sub[4] == bytes@[start + 4]);
        assert(sub[5] == bytes@[start + 5]);
        assert(sub[6] == bytes@[start + 6]);
        assert(sub[7] == bytes@[start + 7]);
    }
    r
}

/// Copies the 32 bytes at `bytes[start..start + 32]`.
fn read_bytes32(bytes: &[u8], start: usize) -> (r: [u8; 32])
    requires
        start + 32 <= bytes.len(),
    ensures
        r@ == bytes@.subrange(start as int, start + 32),
{
    let mut arr: [u8; 32] = [0u8; 32];
    let mut i: usize = 0;
    while i < 32
        invariant
            i <= 32,
            start + 32 <= bytes.len(),
            forall|j: int| 0 <= j < i ==> arr@[j] == bytes@[start + j],
        decreases 32 - i,
    {
        arr[i] = bytes[start + i];
        i += 1;
    }
    assert(arr@ =~= bytes@.subrange(start as int, start + 32));
    arr
}

/// Copies the 20 bytes at `bytes[start..start + 20]`.
fn read_bytes20(bytes: &[u8], start: usize) -> (r: [u8; 20])
    requires
        start + 20 <= bytes.len(),
    ensures
        r@ == bytes@.subrange(start as int, start + 20),
{
    let mut arr: [u8; 20] = [0u8; 20];
    let mut i: usize = 0;
    while i < 20
        invariant
            i <= 20,
            start + 20 <= bytes.len(),
            forall|j: int| 0 <= j < i ==> arr@[j] == bytes@[start + j],
        decreases 20 - i,
    {
        arr[i] = bytes[start + i];
        i += 1;
    }
    assert(arr@ =~= bytes@.subrange(start as int, start + 20));
    arr
}

/// Stand-in for the external verifier's decoder of an asset-claim record.
pub fn decode_asset_claim(bytes: &[u8]) -> (r: Option<AssetClaimPublicValues>)
    ensures
        match r {
            Some(v) => spec_decode_asset_claim(bytes@) == Some(v@),
            None => spec_decode_asset_claim(bytes@) is None,
        },
{
    if bytes.len() != 192 {
        return None;
    }
    if !is_zero_range(bytes, 0, 24) || !is_zero_range(bytes, 64, 88) || !is_zero_range(
        bytes,
        96,
        108,
    ) || !is_zero_range(bytes, 128, 152) {
        return None;
    }
    Some(
        AssetClaimPublicValues {
            source_chain_id: read_u64_at(bytes, 24),
            asset_address: read_bytes32(bytes, 32),
            min_balance_threshold: read_u64_at(bytes, 88),
            user_address: read_bytes20(bytes, 108),
            target_chain_id: read_u64_at(bytes, 152),
            nullifier: read_bytes32(bytes, 160),
        },
    )
}

/// Stand-in for the external verifier's decoder of a credit-line record.
pub fn decode_credit_line(bytes: &[u8]) -> (r: Option<CreditLinePublicValues>)
    ensures
        match r {
            Some(v) => spec_decode_credit_line(bytes@) == Some(v@),
            None => spec_decode_credit_line(bytes@) is None,
        },
{
    if bytes.len() != 160 {
        return None;
    }
    if !is_zero_range(bytes, 32, 56) || !is_zero_range(bytes, 64, 76) || !is_zero_range(
        bytes,
        96,
        120,
    ) {
        return None;
    }
    Some(
        CreditLinePublicValues {
            credit_provider: read_bytes32(bytes, 0),
            min_credit_amount: read_u64_at(bytes, 56),
            user_address: read_bytes20(bytes, 76),
            target_chain_id: read_u64_at(bytes, 120),
            nullifier: read_bytes32(bytes, 128),
        },
    )
}

/// Stand-in for the external verifier's decoder of an agent-authority record.
pub fn decode_agent_authority(bytes: &[u8]) -> (r: Option<AgentAuthorityPublicValues>)
    ensures
        match r {
            Some(v) => spec_decode_agent_authority(bytes@) == Some(v@),
            None => spec_decode_agent_authority(bytes@) is None,
        },
{
    if bytes.len() != 160 {
        return None;
    }
    if !is_zero_range(bytes, 32, 44) || !is_zero_range(bytes, 64, 88) || !is_zero_range(
        bytes,
        96,
        120,
    ) {
        return None;
    }
    Some(
        AgentAuthorityPublicValues {
            agent_id: read_bytes32(bytes, 0),
            user_address: read_bytes20(bytes, 44),
            max_spending_limit: read_u64_at(bytes, 88),
            target_chain_id: read_u64_at(bytes, 120),
            nullifier: read_bytes32(bytes, 128),
        },
    )
}

/// Reading the eight big-endian bytes of a value back gives the value.
proof fn lemma_be_bytes_roundtrip(x: u64)
    ensures
        be_u64_of(Seq::new(8, |k: int| u64_be_byte(x, k))) == x,
{
    let s = Seq::new(8, |k: int| u64_be_byte(x, k));
    let b0 = s[0];
    let b1 = s[1];
    let b2 = s[2];
    let b3 = s[3];
    let b4 = s[4];
    let b5 = s[5];
    let b6 = s[6];
    let b7 = s[7];
    assert(((b0 as u64) << 56u64) | ((b1 as u64) << 48u64) | ((b2 as u64) << 40u64) | ((b3 as u64)
        << 32u64) | ((b4 as u64) << 24u64) | ((b5 as u64) << 16u64) | ((b6 as u64) << 8u64) | (
    b7 as u64) == x) by (bit_vector)
        requires
            b0 == ((x >> 56u64) & 0xff) as u8,
            b1 == ((x >> 48u64) & 0xff) as u8,
            b2 == ((x >> 40u64) & 0xff) as u8,
            b3 == ((x >> 32u64) & 0xff) as u8,
            b4 == ((x >> 24u64) & 0xff) as u8,
            b5 == ((x >> 16u64) & 0xff) as u8,
            b6 == ((x >> 8u64) & 0xff) as u8,
            b7 == ((x >> 0u64) & 0xff) as u8,
    ;
}

/// Round trip for asset claims: decoding a canonical encoding recovers
/// exactly the fields that were encoded.
pub proof fn lemma_asset_claim_round_trip(v: AssetClaimView)
    requires
        v.asset_address.len() == 32,
        v.user_address.len() == 20,
        v.nullifier.len() == 32,
    ensures
        spec_decode_asset_claim(spec_encode_asset_claim(v)) == Some(v),
{
    let s = spec_encode_asset_claim(v);
    let w0 = spec_u64_word(v.source_chain_id);
    let w2 = spec_u64_word(v.min_balance_threshold);
    let w3 = spec_address_word(v.user_address);
    let w4 = spec_u64_word(v.target_chain_id);
    assert(s.len() == 192);
    assert forall|m: int| 0 <= m < 24 implies s.subrange(0, 24)[m] == 0 by {
        assert(s[m] == w0[m]);
    }
    assert forall|m: int| 0 <= m < 24 implies s.subrange(64, 88)[m] == 0 by {
        assert(s[64 + m] == w2[m]);
    }
    assert forall|m: int| 0 <= m < 12 implies s.subrange(96, 108)[m] == 0 by {
        assert(s[96 + m] == w3[m]);
    }
    assert forall|m: int| 0 <= m < 24 implies s.subrange(128, 152)[m] == 0 by {
        assert(s[128 + m] == w4[m]);
    }
    assert forall|m: int| 0 <= m < 8 implies s.subrange(24, 32)[m] == u64_be_byte(
        v.source_chain_id,
        m,
    ) by {
        assert(s[24 + m] == w0[24 + m]);
    }
    assert(s.subrange(24, 32) =~= Seq::new(8, |k: int| u64_be_byte(v.source_chain_id, k)));
    lemma_be_bytes_roundtrip(v.source_chain_id);
    assert forall|m: int| 0 <= m < 32 implies s.subrange(32, 64)[m] == v.asset_address[m] by {
        assert(s[32 + m] == v.asset_address[m]);
    }
    assert(s.subrange(32, 64) =~= v.asset_address);
    assert forall|m: int| 0 <= m < 8 implies s.subrange(88, 96)[m] == u64_be_byte(
        v.min_balance_threshold,
        m,
    ) by {
        assert(s[88 + m] == w2[24 + m]);
    }
    assert(s.subrange(88, 96) =~= Seq::new(8, |k: int| u64_be_byte(v.min_balance_threshold, k)));
    lemma_be_bytes_roundtrip(v.min_balance_threshold);
    assert forall|m: int| 0 <= m < 20 implies s.subrange(108, 128)[m] == v.user_address[m] by {
        assert(s[108 + m] == w3[12 + m]);
    }
    assert(s.subrange(108, 128) =~= v.user_address);
    assert forall|m: int| 0 <= m < 8 implies s.subrange(152, 160)[m] == u64_be_byte(
        v.target_chain_id,
        m,
    ) by {
        assert(s[152 + m] == w4[24 + m]);
    }
    assert(s.subrange(152, 160) =~= Seq::new(8, |k: int| u64_be_byte(v.target_chain_id, k)));
    lemma_be_bytes_roundtrip(v.target_chain_id);
    assert forall|m: int| 0 <= m < 32 implies s.subrange(160, 192)[m] == v.nullifier[m] by {
        assert(s[160 + m] == v.nullifier[m]);
    }
    assert(s.subrange(160, 192) =~= v.nullifier);
    assert(spec_decode_asset_claim(s)->Some_0 =~= v);
}

/// Round trip for credit lines.
pub proof fn lemma_credit_line_round_trip(v: CreditLineView)
    requires
        v.credit_provider.len() == 32,
        v.user_address.len() == 20,
        v.nullifier.len() == 32,
    ensures
        spec_decode_credit_line(spec_encode_credit_line(v)) == Some(v),
{
    let s = spec_encode_credit_line(v);
    let w1 = spec_u64_word(v.min_credit_amount);
    let w2 = spec_address_word(v.user_address);
    let w3 = spec_u64_word(v.target_chain_id);
    assert(s.len() == 160);
    assert forall|m: int| 0 <= m < 24 implies s.subrange(32, 56)[m] == 0 by {
        assert(s[32 + m] == w1[m]);
    }
    assert forall|m: int| 0 <= m < 12 implies s.subrange(64, 76)[m] == 0 by {
        assert(s[64 + m] == w2[m]);
    }
    assert forall|m: int| 0 <= m < 24 implies s.subrange(96, 120)[m] == 0 by {
        assert(s[96 + m] == w3[m]);
    }
    assert forall|m: int| 0 <= m < 32 implies s.subrange(0, 32)[m] == v.credit_provider[m] by {
        assert(s[m] == v.credit_provider[m]);
    }
    assert(s.subrange(0, 32) =~= v.credit_provider);
    assert forall|m: int| 0 <= m < 8 implies s.subrange(56, 64)[m] == u64_be_byte(
        v.min_credit_amount,
        m,
    ) by {
        assert(s[56 + m] == w1[24 + m]);
    }
    assert(s.subrange(56, 64) =~= Seq::new(8, |k: int| u64_be_byte(v.min_credit_amount, k)));
    lemma_be_bytes_roundtrip(v.min_credit_amount);
    assert forall|m: int| 0 <= m < 20 implies s.subrange(76, 96)[m] == v.user_address[m] by {
        assert(s[76 + m] == w2[12 + m]);
    }
    assert(s.subrange(76, 96) =~= v.user_address);
    assert forall|m: int| 0 <= m < 8 implies s.subrange(120, 128)[m] == u64_be_byte(
        v.target_chain_id,
        m,
    ) by {
        assert(s[120 + m] == w3[24 + m]);
    }
    assert(s.subrange(120, 128) =~= Seq::new(8, |k: int| u64_be_byte(v.target_chain_id, k)));
    lemma_be_bytes_roundtrip(v.target_chain_id);
    assert forall|m: int| 0 <= m < 32 implies s.subrange(128, 160)[m] == v.nullifier[m] by {
        assert(s[128 + m] == v.nullifier[m]);
    }
    assert(s.subrange(128, 160) =~= v.nullifier);
    assert(spec_decode_credit_line(s)->Some_0 =~= v);
}

/// Round trip for agent authorities.
pub proof fn lemma_agent_authority_round_trip(v: AgentAuthorityView)
    requires
        v.agent_id.len() == 32,
        v.user_address.len() == 20,
        v.nullifier.len() == 32,
    ensures
        spec_decode_agent_authority(spec_encode_agent_authority(v)) == Some(v),
{
    let s = spec_encode_agent_authority(v);
    let w1 = spec_address_word(v.user_address);
    let w2 = spec_u64_word(v.max_spending_limit);
    let w3 = spec_u64_word(v.target_chain_id);
    assert(s.len() == 160);
    assert forall|m: int| 0 <= m < 12 implies s.subrange(32, 44)[m] == 0 by {
        assert(s[32 + m] == w1[m]);
    }
    assert forall|m: int| 0 <= m < 24 implies s.subrange(64, 88)[m] == 0 by {
        assert(s[64 + m] == w2[m]);
    }
    assert forall|m: int| 0 <= m < 24 implies s.subrange(96, 120)[m] == 0 by {
        assert(s[96 + m] == w3[m]);
    }
    assert forall|m: int| 0 <= m < 32 implies s.subrange(0, 32)[m] == v.agent_id[m] by {
        assert(s[m] == v.agent_id[m]);
    }
    assert(s.subrange(0, 32) =~= v.agent_id);
    assert forall|m: int| 0 <= m < 20 implies s.subrange(44, 64)[m] == v.user_address[m] by {
        assert(s[44 + m] == w1[12 + m]);
    }
    assert(s.subrange(44, 64) =~= v.user_address);
    assert forall|m: int| 0 <= m < 8 implies s.subrange(88, 96)[m] == u64_be_byte(
        v.max_spending_limit,
        m,
    ) by {
        assert(s[88 + m] == w2[24 + m]);
    }
    assert(s.subrange(88, 96) =~= Seq::new(8, |k: int| u64_be_byte(v.max_spending_limit, k)));
    lemma_be_bytes_roundtrip(v.max_spending_limit);
    assert forall|m: int| 0 <= m < 8 implies s.subrange(120, 128)[m] == u64_be_byte(
        v.target_chain_id,
        m,
    ) by {
        assert(s[120 + m] == w3[24 + m]);
    }
    assert(s.subrange(120, 128) =~= Seq::new(8, |k: int| u64_be_byte(v.target_chain_id, k)));
    lemma_be_bytes_roundtrip(v.target_chain_id);
    assert forall|m: int| 0 <= m < 32 implies s.subrange(128, 160)[m] == v.nullifier[m] by {
        assert(s[128 + m] == v.nullifier[m]);
    }
    assert(s.subrange(128, 160) =~= v.nullifier);
    assert(spec_decode_agent_authority(s)->Some_0 =~= v);
}

/// No two distinct asset-claim records encode identically.
pub proof fn lemma_asset_claim_encode_injective(v1: AssetClaimView, v2: AssetClaimView)
    requires
        v1.asset_address.len() == 32,
        v1.user_address.len() == 20,
        v1.nullifier.len() == 32,
        v2.asset_address.len() == 32,
        v2.user_address.len() == 20,
        v2.nullifier.len() == 32,
        spec_encode_asset_claim(v1) == spec_encode_asset_claim(v2),
    ensures
        v1 == v2,
{
    lemma_asset_claim_round_trip(v1);
    lemma_asset_claim_round_trip(v2);
}

/// No two distinct credit-line records encode identically.
pub proof fn lemma_credit_line_encode_injective(v1: CreditLineView, v2: CreditLineView)
    requires
        v1.credit_provider.len() == 32,
        v1.user_address.len() == 20,
        v1.nullifier.len() == 32,
        v2.credit_provider.len() == 32,
        v2.user_address.len() == 20,
        v2.nullifier.len() == 32,
        spec_encode_credit_line(v1) == spec_encode_credit_line(v2),
    ensures
        v1 == v2,
{
    lemma_credit_line_round_trip(v1);
    lemma_credit_line_round_trip(v2);
}

/// No two distinct agent-authority records encode identically.
pub proof fn lemma_agent_authority_encode_injective(
    v1: AgentAuthorityView,
    v2: AgentAuthorityView,
)
    requires
        v1.agent_id.len() == 32,
        v1.user_address.len() == 20,
        v1.nullifier.len() == 32,
        v2.agent_id.len() == 32,
        v2.user_address.len() == 20,
        v2.nullifier.len() == 32,
        spec_encode_agent_authority(v1) == spec_encode_agent_authority(v2),
    ensures
        v1 == v2,
{
    lemma_agent_authority_round_trip(v1);
    lemma_agent_authority_round_trip(v2);
}

} // verus!
