use zkredit::compute_commitment;

fn sample_user() -> [u8; 20] {
    [0xAA; 20]
}

fn sample_asset() -> [u8; 32] {
    let mut asset = [0u8; 32];
    asset[31] = 1;
    asset
}

#[test]
fn commitment_is_deterministic() {
    let a = compute_commitment(&sample_user(), &sample_asset(), 100, 2);
    let b = compute_commitment(&sample_user(), &sample_asset(), 100, 2);
    assert_eq!(a, b);
}

#[test]
fn commitment_exact_value() {
    // user = 0xAA.., asset = 0x00..01, threshold 100, destination 2:
    // bytes 0..20 are user XOR asset (asset zero there), the little-endian
    // threshold occupies bytes 16..24 and the destination bytes 24..32,
    // XORed over what is already in place.
    let n = compute_commitment(&sample_user(), &sample_asset(), 100, 2);
    let mut expected = [0u8; 32];
    for i in 0..20 {
        expected[i] = 0xAA;
    }
    expected[16] = 0xAA ^ 100;
    expected[24] = 2;
    expected[31] = 1;
    assert_eq!(n, expected);
}

#[test]
fn commitment_changes_with_subject() {
    let mut other_user = sample_user();
    other_user[7] ^= 0x01;
    let a = compute_commitment(&sample_user(), &sample_asset(), 100, 2);
    let b = compute_commitment(&other_user, &sample_asset(), 100, 2);
    assert_ne!(a, b);
}

#[test]
fn commitment_changes_with_resource() {
    let mut other_asset = sample_asset();
    other_asset[0] = 0xFF;
    let a = compute_commitment(&sample_user(), &sample_asset(), 100, 2);
    let b = compute_commitment(&sample_user(), &other_asset, 100, 2);
    assert_ne!(a, b);
}

#[test]
fn commitment_changes_with_threshold() {
    let a = compute_commitment(&sample_user(), &sample_asset(), 100, 2);
    let b = compute_commitment(&sample_user(), &sample_asset(), 101, 2);
    assert_ne!(a, b);
}

#[test]
fn commitment_changes_with_destination() {
    let a = compute_commitment(&sample_user(), &sample_asset(), 100, 2);
    let b = compute_commitment(&sample_user(), &sample_asset(), 100, 3);
    assert_ne!(a, b);
}

#[test]
fn commitment_distinguishes_high_thresholds() {
    // thresholds differing only in their high bytes must still separate
    let a = compute_commitment(&sample_user(), &sample_asset(), 1, 2);
    let b = compute_commitment(&sample_user(), &sample_asset(), 1u64 << 48, 2);
    assert_ne!(a, b);
}

#[test]
fn commitment_distinguishes_high_destinations() {
    let a = compute_commitment(&sample_user(), &sample_asset(), 100, 1);
    let b = compute_commitment(&sample_user(), &sample_asset(), 100, 1u64 << 48);
    assert_ne!(a, b);
}

#[test]
fn same_fact_different_destinations_have_distinct_nullifiers() {
    let one = compute_commitment(&sample_user(), &sample_asset(), 100, 1);
    let two = compute_commitment(&sample_user(), &sample_asset(), 100, 2);
    let three = compute_commitment(&sample_user(), &sample_asset(), 100, 3);
    assert_ne!(one, two);
    assert_ne!(one, three);
    assert_ne!(two, three);
}
