use distropack_cli::auth::{validate_token_format, MIN_TOKEN_LEN};
use distropack_cli::text::{decimal, join, same, signed_decimal};

#[test]
fn decimal_writes_zero() {
    assert_eq!(decimal(0), "0");
}

#[test]
fn decimal_writes_single_digits() {
    for (n, text) in [(1u64, "1"), (5, "5"), (9, "9")] {
        assert_eq!(decimal(n), text);
    }
}

#[test]
fn decimal_writes_many_digits() {
    assert_eq!(decimal(10), "10");
    assert_eq!(decimal(1234567890), "1234567890");
    assert_eq!(decimal(100200), "100200");
}

#[test]
fn decimal_writes_the_largest_number() {
    assert_eq!(decimal(u64::MAX), "18446744073709551615");
}

#[test]
fn decimal_agrees_with_the_standard_library() {
    let mut n: u64 = 1;
    while n < u64::MAX / 7 {
        assert_eq!(decimal(n), n.to_string());
        assert_eq!(decimal(n - 1), (n - 1).to_string());
        n *= 7;
    }
}

#[test]
fn signed_decimal_writes_negative_numbers() {
    assert_eq!(signed_decimal(-1), "-1");
    assert_eq!(signed_decimal(-42), "-42");
    assert_eq!(signed_decimal(i32::MIN), "-2147483648");
}

#[test]
fn signed_decimal_writes_what_is_not_negative() {
    assert_eq!(signed_decimal(0), "0");
    assert_eq!(signed_decimal(7), "7");
    assert_eq!(signed_decimal(i32::MAX), "2147483647");
}

#[test]
fn join_of_nothing_is_empty() {
    assert_eq!(join(&Vec::new(), ","), "");
}

#[test]
fn join_of_one_part_is_the_part() {
    assert_eq!(join(&vec!["abc".to_string()], ","), "abc");
}

#[test]
fn join_puts_the_separator_between_parts() {
    let parts = vec!["a".to_string(), "b".to_string(), "c".to_string()];
    assert_eq!(join(&parts, ","), "a,b,c");
    assert_eq!(join(&parts, " - "), "a - b - c");
}

#[test]
fn join_keeps_empty_parts() {
    let parts = vec!["".to_string(), "x".to_string(), "".to_string()];
    assert_eq!(join(&parts, ","), ",x,");
}

#[test]
fn same_compares_characters() {
    assert!(same("running", "running"));
    assert!(!same("running", "Running"));
    assert!(!same("running", "running "));
    assert!(same("", ""));
}

#[test]
fn token_of_twenty_bytes_is_well_formed() {
    assert_eq!(MIN_TOKEN_LEN, 20);
    assert!(validate_token_format("01234567890123456789"));
    assert!(validate_token_format("0123456789012345678901234"));
}

#[test]
fn shorter_token_is_not_well_formed() {
    assert!(!validate_token_format(""));
    assert!(!validate_token_format("0123456789012345678"));
}

#[test]
fn token_length_counts_bytes() {
    // Ten characters of two bytes each.
    assert!(validate_token_format("\u{e9}\u{e9}\u{e9}\u{e9}\u{e9}\u{e9}\u{e9}\u{e9}\u{e9}\u{e9}"));
    assert!(!validate_token_format("\u{e9}\u{e9}\u{e9}\u{e9}\u{e9}\u{e9}\u{e9}\u{e9}\u{e9}"));
}
