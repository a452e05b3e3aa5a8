use aarch64_esr_decoder::parse_number;

#[test]
fn lib_parse_decimal() {
    assert_eq!(parse_number("12345"), Ok(12345));
}

#[test]
fn lib_parse_hex() {
    assert_eq!(parse_number("0x123abc"), Ok(0x123abc));
}

#[test]
fn lib_parse_invalid() {
    assert!(parse_number("123abc").is_err());
}

#[test]
fn tests_parse_decimal() {
    assert_eq!(parse_number("12345"), Ok(12345));
}

#[test]
fn tests_parse_hex() {
    assert_eq!(parse_number("0x123abc"), Ok(0x123abc));
}

#[test]
fn tests_parse_invalid() {
    assert!(parse_number("123abc").is_err());
}
