//! Nullifier derivation: a deterministic 32-byte commitment binding the
//! subject, the resource, the declared threshold and the destination context.
//!
//! An external registry indexes on this value to reject replays, so the
//! protocol depends on two things: determinism — identical inputs must
//! always give the identical commitment — and per-field distinctness — in
//! particular, the same attested fact bound to two different destination
//! chains must yield two different commitments, so that one fact is
//! independently usable once per destination.  The mixing function here is
//! the protocol's placeholder for a cryptographic hash (XOR over dedicated
//! byte positions), but it is built so that both properties hold outright:
//! the subject covers bytes 0..20, the resource all 32 bytes, and the
//! threshold and the destination each own a full 8-byte span (16..24 and
//! 24..32), so changing any single input provably changes the commitment,
//! for every 64-bit value.  The lemmas below state exactly that.

use vstd::prelude::*;

verus! {

/// Little-endian byte `k` of a 64-bit value.
pub open spec fn u64_le_byte(x: u64, k: int) -> u8
    recommends
        0 <= k < 8,
{
    ((x >> ((8 * k) as u64)) & 0xff) as u8
}

/// Byte `j` of the commitment: the subject covers bytes 0..20, the resource
/// covers all 32 bytes, the threshold's eight little-endian bytes sit at
/// 16..24 and the destination context's at 24..32.
pub open spec fn commitment_byte(
    subject: Seq<u8>,
    resource: Seq<u8>,
    threshold: u64,
    destination: u64,
    j: int,
) -> u8
    recommends
        subject.len() == 20,
        resource.len() == 32,
        0 <= j < 32,
{
    if j < 16 {
        subject[j] ^ resource[j]
    } else if j < 20 {
        (subject[j] ^ resource[j]) ^ u64_le_byte(threshold, j - 16)
    } else if j < 24 {
        resource[j] ^ u64_le_byte(threshold, j - 16)
    } else {
        resource[j] ^ u64_le_byte(destination, j - 24)
    }
}

/// The full 32-byte commitment.
pub open spec fn spec_commitment(
    subject: Seq<u8>,
    resource: Seq<u8>,
    threshold: u64,
    destination: u64,
) -> Seq<u8> {
    Seq::new(32, |j: int| commitment_byte(subject, resource, threshold, destination, j))
}

/// Little-endian byte `k` of a 64-bit value, executable form.
fn le_byte(x: u64, k: usize) -> (r: u8)
    requires
        k < 8,
    ensures
        r == u64_le_byte(x, k as int),
{
    ((x >> ((8 * k) as u64)) & 0xff) as u8
}

/// Derives the anti-replay commitment (nullifier) for one claim: a
/// deterministic mixing of the subject address, the resource identifier, the
/// declared threshold and the destination chain.  The result is exactly
/// `spec_commitment`, so two calls on identical inputs always agree.
pub fn compute_commitment(user: &[u8; 20], asset: &[u8; 32], amount: u64, target_chain: u64) -> (r:
    [u8; 32])
    ensures
        r@ == spec_commitment(user@, asset@, amount, target_chain),
{
    let mut nullifier: [u8; 32] = [0u8; 32];
    let mut j: usize = 0;
    while j < 32
        invariant
            j <= 32,
            forall|k: int|
                0 <= k < j ==> nullifier@[k] == commitment_byte(
                    user@,
                    asset@,
                    amount,
                    target_chain,
                    k,
                ),
        decreases 32 - j,
    {
        let b: u8 = if j < 16 {
            user[j] ^ asset[j]
        } else if j < 20 {
            (user[j] ^ asset[j]) ^ le_byte(amount, j - 16)
        } else if j < 24 {
            asset[j] ^ le_byte(amount, j - 16)
        } else {
            asset[j] ^ le_byte(target_chain, j - 24)
        };
        nullifier[j] = b;
        j += 1;
    }
    assert(nullifier@ =~= spec_commitment(user@, asset@, amount, target_chain));
    nullifier
}

/// Determinism of the derivation: equal inputs give equal commitments.
/// This is what lets an external registry treat a repeated commitment as a
/// replay of the same claim.
pub proof fn lemma_commitment_deterministic(
    subject1: Seq<u8>,
    resource1: Seq<u8>,
    threshold1: u64,
    destination1: u64,
    subject2: Seq<u8>,
    resource2: Seq<u8>,
    threshold2: u64,
    destination2: u64,
)
    requires
        subject1 == subject2,
        resource1 == resource2,
        threshold1 == threshold2,
        destination1 == destination2,
    ensures
        spec_commitment(subject1, resource1, threshold1, destination1) == spec_commitment(
            subject2,
            resource2,
            threshold2,
            destination2,
        ),
{
}

/// XOR with a fixed byte on the right is injective.
proof fn lemma_xor_cancel(a: u8, b: u8, c: u8)
    requires
        a ^ c == b ^ c,
    ensures
        a == b,
{
    assert(a ^ c == b ^ c ==> a == b) by (bit_vector);
}

/// XOR with a fixed byte on the left is injective.
proof fn lemma_xor_cancel_left(c: u8, a: u8, b: u8)
    requires
        c ^ a == c ^ b,
    ensures
        a == b,
{
    assert(c ^ a == c ^ b ==> a == b) by (bit_vector);
}

/// A 64-bit value is determined by its eight little-endian bytes.
proof fn lemma_le_bytes_determine(x: u64, y: u64)
    requires
        forall|k: int| 0 <= k < 8 ==> u64_le_byte(x, k) == u64_le_byte(y, k),
    ensures
        x == y,
{
    let x0 = u64_le_byte(x, 0);
    let x1 = u64_le_byte(x, 1);
    let x2 = u64_le_byte(x, 2);
    let x3 = u64_le_byte(x, 3);
    let x4 = u64_le_byte(x, 4);
    let x5 = u64_le_byte(x, 5);
    let x6 = u64_le_byte(x, 6);
    let x7 = u64_le_byte(x, 7);
    let y0 = u64_le_byte(y, 0);
    let y1 = u64_le_byte(y, 1);
    let y2 = u64_le_byte(y, 2);
    let y3 = u64_le_byte(y, 3);
    let y4 = u64_le_byte(y, 4);
    let y5 = u64_le_byte(y, 5);
    let y6 = u64_le_byte(y, 6);
    let y7 = u64_le_byte(y, 7);
    assert(x == y) by (bit_vector)
        requires
            x0 == y0 && x1 == y1 && x2 == y2 && x3 == y3,
            x4 == y4 && x5 == y5 && x6 == y6 && x7 == y7,
            x0 == ((x >> 0u64) & 0xff) as u8 && x1 == ((x >> 8u64) & 0xff) as u8,
            x2 == ((x >> 16u64) & 0xff) as u8 && x3 == ((x >> 24u64) & 0xff) as u8,
            x4 == ((x >> 32u64) & 0xff) as u8 && x5 == ((x >> 40u64) & 0xff) as u8,
            x6 == ((x >> 48u64) & 0xff) as u8 && x7 == ((x >> 56u64) & 0xff) as u8,
            y0 == ((y >> 0u64) & 0xff) as u8 && y1 == ((y >> 8u64) & 0xff) as u8,
            y2 == ((y >> 16u64) & 0xff) as u8 && y3 == ((y >> 24u64) & 0xff) as u8,
            y4 == ((y >> 32u64) & 0xff) as u8 && y5 == ((y >> 40u64) & 0xff) as u8,
            y6 == ((y >> 48u64) & 0xff) as u8 && y7 == ((y >> 56u64) & 0xff) as u8,
    ;
}

/// Changing the subject changes the commitment: for a fixed resource,
/// threshold and destination, the derivation is injective in the subject.
pub proof fn lemma_commitment_distinguishes_subject(
    subject1: Seq<u8>,
    subject2: Seq<u8>,
    resource: Seq<u8>,
    threshold: u64,
    destination: u64,
)
    requires
        subject1.len() == 20,
        subject2.len() == 20,
        subject1 != subject2,
    ensures
        spec_commitment(subject1, resource, threshold, destination) != spec_commitment(
            subject2,
            resource,
            threshold,
            destination,
        ),
{
    let c1 = spec_commitment(subject1, resource, threshold, destination);
    let c2 = spec_commitment(subject2, resource, threshold, destination);
    assert(exists|j: int| 0 <= j < 20 && subject1[j] != subject2[j]) by {
        if forall|j: int| 0 <= j < 20 ==> subject1[j] == subject2[j] {
            assert(subject1 =~= subject2);
        }
    }
    let j = choose|j: int| 0 <= j < 20 && subject1[j] != subject2[j];
    if c1[j] == c2[j] {
        if j < 16 {
            lemma_xor_cancel(subject1[j], subject2[j], resource[j]);
        } else {
            lemma_xor_cancel(
                subject1[j] ^ resource[j],
                subject2[j] ^ resource[j],
                u64_le_byte(threshold, j - 16),
            );
            lemma_xor_cancel(subject1[j], subject2[j], resource[j]);
        }
    }
}

/// Changing the resource identifier changes the commitment: for a fixed
/// subject, threshold and destination, the derivation is injective in the
/// resource.
pub proof fn lemma_commitment_distinguishes_resource(
    subject: Seq<u8>,
    resource1: Seq<u8>,
    resource2: Seq<u8>,
    threshold: u64,
    destination: u64,
)
    requires
        resource1.len() == 32,
        resource2.len() == 32,
        resource1 != resource2,
    ensures
        spec_commitment(subject, resource1, threshold, destination) != spec_commitment(
            subject,
            resource2,
            threshold,
            destination,
        ),
{
    let c1 = spec_commitment(subject, resource1, threshold, destination);
    let c2 = spec_commitment(subject, resource2, threshold, destination);
    assert(exists|j: int| 0 <= j < 32 && resource1[j] != resource2[j]) by {
        if forall|j: int| 0 <= j < 32 ==> resource1[j] == resource2[j] {
            assert(resource1 =~= resource2);
        }
    }
    let j = choose|j: int| 0 <= j < 32 && resource1[j] != resource2[j];
    if c1[j] == c2[j] {
        if j < 16 {
            lemma_xor_cancel_left(subject[j], resource1[j], resource2[j]);
        } else if j < 20 {
            lemma_xor_cancel(
                subject[j] ^ resource1[j],
                subject[j] ^ resource2[j],
                u64_le_byte(threshold, j - 16),
            );
            lemma_xor_cancel_left(subject[j], resource1[j], resource2[j]);
        } else if j < 24 {
            lemma_xor_cancel(resource1[j], resource2[j], u64_le_byte(threshold, j - 16));
        } else {
            lemma_xor_cancel(resource1[j], resource2[j], u64_le_byte(destination, j - 24));
        }
    }
}

/// Changing the declared threshold changes the commitment, for every pair of
/// 64-bit thresholds: the threshold's eight bytes own positions 16..24, so
/// the derivation is injective in the threshold.
pub proof fn lemma_commitment_distinguishes_threshold(
    subject: Seq<u8>,
    resource: Seq<u8>,
    threshold1: u64,
    threshold2: u64,
    destination: u64,
)
    requires
        threshold1 != threshold2,
    ensures
        spec_commitment(subject, resource, threshold1, destination) != spec_commitment(
            subject,
            resource,
            threshold2,
            destination,
        ),
{
    let c1 = spec_commitment(subject, resource, threshold1, destination);
    let c2 = spec_commitment(subject, resource, threshold2, destination);
    if c1 == c2 {
        assert forall|k: int| 0 <= k < 8 implies u64_le_byte(threshold1, k) == u64_le_byte(
            threshold2,
            k,
        ) by {
            assert(c1[16 + k] == c2[16 + k]);
            if k < 4 {
                lemma_xor_cancel_left(
                    subject[16 + k] ^ resource[16 + k],
                    u64_le_byte(threshold1, k),
                    u64_le_byte(threshold2, k),
                );
            } else {
                lemma_xor_cancel_left(
                    resource[16 + k],
                    u64_le_byte(threshold1, k),
                    u64_le_byte(threshold2, k),
                );
            }
        }
        lemma_le_bytes_determine(threshold1, threshold2);
    }
}

/// Changing the destination context changes the commitment, for every pair
/// of 64-bit destinations: the destination's eight bytes own positions
/// 24..32, so the same attested fact bound to two different destination
/// chains always yields two distinct nullifiers.
pub proof fn lemma_commitment_distinguishes_destination(
    subject: Seq<u8>,
    resource: Seq<u8>,
    threshold: u64,
    destination1: u64,
    destination2: u64,
)
    requires
        destination1 != destination2,
    ensures
        spec_commitment(subject, resource, threshold, destination1) != spec_commitment(
            subject,
            resource,
            threshold,
            destination2,
        ),
{
    let c1 = spec_commitment(subject, resource, threshold, destination1);
    let c2 = spec_commitment(subject, resource, threshold, destination2);
    if c1 == c2 {
        assert forall|k: int| 0 <= k < 8 implies u64_le_byte(destination1, k) == u64_le_byte(
            destination2,
            k,
        ) by {
            assert(c1[24 + k] == c2[24 + k]);
            lemma_xor_cancel_left(
                resource[24 + k],
                u64_le_byte(destination1, k),
                u64_le_byte(destination2, k),
            );
        }
        lemma_le_bytes_determine(destination1, destination2);
    }
}

} // verus!
