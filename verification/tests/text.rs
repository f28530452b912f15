use auth_service::{bytes_to_hex, parse_u64_dec, u64_to_dec, validate_email};

#[test]
fn decimal_renders_canonically() {
    assert_eq!(u64_to_dec(0), "0");
    assert_eq!(u64_to_dec(604), "604");
    assert_eq!(u64_to_dec(u64::MAX), "18446744073709551615");
}

#[test]
fn decimal_parses_exactly_the_canonical_form() {
    assert_eq!(parse_u64_dec("0"), Some(0));
    assert_eq!(parse_u64_dec("604"), Some(604));
    assert_eq!(parse_u64_dec("18446744073709551615"), Some(u64::MAX));
    assert_eq!(parse_u64_dec("18446744073709551616"), None);
    assert_eq!(parse_u64_dec("007"), None);
    assert_eq!(parse_u64_dec(""), None);
    assert_eq!(parse_u64_dec("12a4"), None);
    assert_eq!(parse_u64_dec("-1"), None);
}

#[test]
fn hex_renders_two_lowercase_digits_per_byte() {
    assert_eq!(bytes_to_hex(&vec![]), "");
    assert_eq!(bytes_to_hex(&vec![0x0f, 0xa0, 0x00, 0xff]), "0fa000ff");
}

#[test]
fn email_grammar_decides_the_documented_cases() {
    assert!(validate_email("a@b.com"));
    assert!(validate_email("first.last@sub.example-host.org"));
    assert!(!validate_email(""));
    assert!(!validate_email("test.com"));
    assert!(!validate_email("@test.com"));
    assert!(!validate_email("test#test.com"));
    assert!(!validate_email("a@"));
}
