use kaspa_ng::validation::{parse_amount, validate_address, AddressStatus, NetworkType, ParseError};

const MAINNET_ADDRESS: &str = "kaspa:qqqqqqqqqqqqqqqqqqqqqqqqqqqqqqqqqqqqqqqqqqqqqqqqqqqqqkx9awp4e";
const TESTNET_ADDRESS: &str =
    "kaspatest:qqqqqqqqqqqqqqqqqqqqqqqqqqqqqqqqqqqqqqqqqqqqqqqqqqqqqhqrxplya";

#[test]
fn parse_amount_empty_is_none() {
    assert_eq!(parse_amount(""), Ok(None));
    assert_eq!(parse_amount("   "), Ok(None));
    assert_eq!(parse_amount("\t\n"), Ok(None));
}

#[test]
fn parse_amount_with_decimals() {
    // Eight minor-unit decimals: 1.5 whole units are 150,000,000 sompi.
    assert_eq!(parse_amount("1.5"), Ok(Some(150_000_000)));
    assert_eq!(parse_amount("0.00000001"), Ok(Some(1)));
    assert_eq!(parse_amount("12.34"), Ok(Some(1_234_000_000)));
}

#[test]
fn parse_amount_malformed_is_err() {
    assert_eq!(parse_amount("abc"), Err(ParseError::Malformed));
    assert_eq!(parse_amount("1,5"), Err(ParseError::Malformed));
    assert_eq!(parse_amount("1.2.3"), Err(ParseError::Malformed));
    assert_eq!(parse_amount(".5"), Err(ParseError::Malformed));
    assert_eq!(parse_amount("-1"), Err(ParseError::Malformed));
    assert_eq!(parse_amount("1. 5"), Err(ParseError::Malformed));
}

#[test]
fn parse_amount_integer_means_whole_units() {
    assert_eq!(parse_amount("10"), Ok(Some(1_000_000_000)));
    assert_eq!(parse_amount("0"), Ok(Some(0)));
    assert_eq!(parse_amount(" 2 "), Ok(Some(200_000_000)));
}

#[test]
fn parse_amount_trailing_dot_is_whole_units() {
    assert_eq!(parse_amount("5."), Ok(Some(500_000_000)));
}

#[test]
fn parse_amount_truncates_past_eight_decimals() {
    assert_eq!(parse_amount("0.123456789"), Ok(Some(12_345_678)));
}

#[test]
fn parse_amount_at_and_past_the_64_bit_ceiling() {
    assert_eq!(parse_amount("184467440737.09551615"), Ok(Some(u64::MAX)));
    assert_eq!(
        parse_amount("184467440737.09551616"),
        Err(ParseError::Overflow)
    );
    assert_eq!(
        parse_amount("99999999999999999999999"),
        Err(ParseError::Overflow)
    );
}

#[test]
fn validate_address_matching_network_is_valid() {
    assert_eq!(
        validate_address(MAINNET_ADDRESS, NetworkType::Mainnet),
        AddressStatus::Valid
    );
    assert_eq!(
        validate_address(TESTNET_ADDRESS, NetworkType::Testnet),
        AddressStatus::Valid
    );
}

#[test]
fn validate_address_reports_network_mismatch() {
    // A well-formed mainnet address while a testnet one is expected.
    assert_eq!(
        validate_address(MAINNET_ADDRESS, NetworkType::Testnet),
        AddressStatus::NetworkMismatch(NetworkType::Mainnet)
    );
    assert_eq!(
        validate_address(TESTNET_ADDRESS, NetworkType::Mainnet),
        AddressStatus::NetworkMismatch(NetworkType::Testnet)
    );
}

#[test]
fn validate_address_rejects_malformed_text() {
    assert!(matches!(
        validate_address("not an address", NetworkType::Mainnet),
        AddressStatus::Invalid(_)
    ));
    assert!(matches!(
        validate_address("", NetworkType::Mainnet),
        AddressStatus::Invalid(_)
    ));
    // A single corrupted character breaks the checksum.
    let tampered = MAINNET_ADDRESS.replace("awp4e", "awp4f");
    assert!(matches!(
        validate_address(&tampered, NetworkType::Mainnet),
        AddressStatus::Invalid(_)
    ));
}

#[test]
fn validate_address_reason_names_the_problem() {
    match validate_address("kaspa1:qqq", NetworkType::Mainnet) {
        AddressStatus::Invalid(reason) => assert!(!reason.is_empty()),
        other => panic!("expected Invalid, got {:?}", other),
    }
}
