use eth_gateway::decimal::Uint256;

#[test]
fn zero_renders_as_zero() {
    assert_eq!(Uint256::from_u64(0).to_decimal_string(), "0");
}

#[test]
fn small_value_renders_exactly() {
    assert_eq!(Uint256::from_u64(21000000000).to_decimal_string(), "21000000000");
}

#[test]
fn u64_max_renders_exactly() {
    assert_eq!(Uint256::from_u64(u64::MAX).to_decimal_string(), "18446744073709551615");
}

#[test]
fn one_past_u64_renders_exactly() {
    let v = Uint256::from_limbs(0, 1, 0, 0);
    assert_eq!(v.to_decimal_string(), "18446744073709551616");
}

#[test]
fn value_beyond_53_bits_round_trips_without_loss() {
    // 123456789012345678901234567890 split into 64-bit limbs.
    let v = Uint256::from_limbs(14083847773837265618, 6692605942, 0, 0);
    assert_eq!(v.to_decimal_string(), "123456789012345678901234567890");
}

#[test]
fn largest_value_renders_exactly() {
    let v = Uint256::from_limbs(u64::MAX, u64::MAX, u64::MAX, u64::MAX);
    assert_eq!(
        v.to_decimal_string(),
        "115792089237316195423570985008687907853269984665640564039457584007913129639935"
    );
}
