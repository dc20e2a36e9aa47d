use eth_gateway::address::parse_address;
use eth_gateway::error::GatewayError;

#[test]
fn zero_address_is_accepted() {
    let r = parse_address("0x0000000000000000000000000000000000000000");
    let a = r.expect("the all-zero address is well formed");
    assert_eq!(a.bytes.len(), 20);
    assert!(a.bytes.iter().all(|b| *b == 0));
}

#[test]
fn mixed_case_address_is_accepted() {
    let r = parse_address("0xAbCdEf0123456789abcdef0123456789ABCDEF01");
    let a = r.expect("mixed-case hex digits are well formed");
    assert_eq!(a.bytes[0], 0xAB);
    assert_eq!(a.bytes[1], 0xCD);
    assert_eq!(a.bytes[2], 0xEF);
    assert_eq!(a.bytes[19], 0x01);
}

#[test]
fn too_short_address_is_rejected() {
    let r = parse_address("0x00");
    assert_eq!(r.unwrap_err(), GatewayError::InvalidAddress);
}

#[test]
fn too_long_address_is_rejected() {
    let r = parse_address("0x000000000000000000000000000000000000000000");
    assert_eq!(r.unwrap_err(), GatewayError::InvalidAddress);
}

#[test]
fn non_hex_characters_are_rejected() {
    let r = parse_address("0xZZ00000000000000000000000000000000000000");
    assert_eq!(r.unwrap_err(), GatewayError::InvalidAddress);
}

#[test]
fn missing_prefix_is_rejected() {
    let r = parse_address("1200000000000000000000000000000000000000ab");
    assert_eq!(r.unwrap_err(), GatewayError::InvalidAddress);
}

#[test]
fn empty_text_is_rejected() {
    let r = parse_address("");
    assert_eq!(r.unwrap_err(), GatewayError::InvalidAddress);
}

#[test]
fn plain_words_are_rejected() {
    let r = parse_address("not-an-address");
    assert_eq!(r.unwrap_err(), GatewayError::InvalidAddress);
}
