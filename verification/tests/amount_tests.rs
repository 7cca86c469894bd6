use token_bridge_relayer::amounts::{
    denormalize_amount, normalize_amount, pow10_u64, truncate_amount,
};

#[test]
fn normalization_drops_low_digits() {
    // More than 8 decimals: scale down by the decimal difference.
    assert_eq!(normalize_amount(12_345_678_901, 10), 123_456_789);
    assert_eq!(normalize_amount(99, 10), 0);
    // At 8 decimals or fewer nothing changes.
    assert_eq!(normalize_amount(12_345_678_901, 8), 12_345_678_901);
    assert_eq!(normalize_amount(42, 0), 42);
}

#[test]
fn truncation_clears_what_the_bridge_drops() {
    assert_eq!(truncate_amount(12_345_678_901, 10), 12_345_678_900);
    assert_eq!(truncate_amount(99, 10), 0);
    assert_eq!(truncate_amount(12_345_678_901, 8), 12_345_678_901);
    // A truncated amount survives the normalize/denormalize round trip.
    let truncated = truncate_amount(987_654_321, 9);
    assert_eq!(
        denormalize_amount(normalize_amount(truncated, 9), 9),
        truncated
    );
}

#[test]
fn denormalization_scales_back_up() {
    assert_eq!(denormalize_amount(123_456_789, 10), 12_345_678_900);
    assert_eq!(denormalize_amount(123_456_789, 8), 123_456_789);
    assert_eq!(denormalize_amount(0, 18), 0);
}

#[test]
fn powers_of_ten_up_to_the_64_bit_limit() {
    assert_eq!(pow10_u64(0), Some(1));
    assert_eq!(pow10_u64(9), Some(1_000_000_000));
    assert_eq!(pow10_u64(19), Some(10_000_000_000_000_000_000));
    assert_eq!(pow10_u64(20), None);
}
