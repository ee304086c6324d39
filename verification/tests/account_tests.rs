//! Tests of the bank account validator.

use billgen::validate_iban;

#[test]
fn accepts_known_valid_account() {
    assert!(validate_iban("CH93 0076 2011 6238 5295 7"));
    assert!(validate_iban("CH9300762011623852957"));
    assert!(validate_iban("DE44 5001 0517 5407 3249 31"));
}

#[test]
fn rejects_flipped_digit() {
    // One digit changed in the valid fixture.
    assert!(!validate_iban("CH93 0076 2011 6238 5295 8"));
    assert!(!validate_iban("CH94 0076 2011 6238 5295 7"));
}

#[test]
fn rejects_empty_and_whitespace_only() {
    assert!(!validate_iban(""));
    assert!(!validate_iban("   "));
    assert!(!validate_iban(" \t\n"));
}

#[test]
fn rejects_non_alphanumeric_content() {
    assert!(!validate_iban("CH93-0076-2011-6238-5295-7"));
    assert!(!validate_iban("CH93_0076_2011_6238_5295_7"));
    assert!(!validate_iban("CH93 0076 2011 6238 5295 7!"));
}

#[test]
fn normalizes_case_and_spacing() {
    assert!(validate_iban("ch93 0076 2011 6238 5295 7"));
    assert!(validate_iban("c h 9 3 0 0 7 6 2 0 1 1 6 2 3 8 5 2 9 5 7"));
}

#[test]
fn rejects_malformed_structure() {
    assert!(!validate_iban("XX00"));
    assert!(!validate_iban("1234567890"));
    assert!(!validate_iban("CHIBAN"));
}
