//! Candidate names and their suffixes.

use shm_open_anonymous::name::{
    suffix_digits, suffix_number, CandidateName, NAME_LEN, SUFFIX_LEN, SUFFIX_OFFSET,
};

#[test]
fn seven_is_zero_padded() {
    assert_eq!(&suffix_digits(7), b"0007");
}

#[test]
fn suffix_is_always_four_digits() {
    assert_eq!(&suffix_digits(0), b"0000");
    assert_eq!(&suffix_digits(9), b"0009");
    assert_eq!(&suffix_digits(10), b"0010");
    assert_eq!(&suffix_digits(99), b"0099");
    assert_eq!(&suffix_digits(100), b"0100");
    assert_eq!(&suffix_digits(999), b"0999");
    assert_eq!(&suffix_digits(1000), b"1000");
    assert_eq!(&suffix_digits(1234), b"1234");
    assert_eq!(&suffix_digits(9999), b"9999");
    for value in 0..20_000i64 {
        let digits = suffix_digits(value);
        assert_eq!(digits.len(), 4);
        assert!(digits.iter().all(|d| d.is_ascii_digit()));
        let text = format!("{:04}", value % 10_000);
        assert_eq!(&digits[..], text.as_bytes());
    }
}

#[test]
fn suffix_space_wraps_at_ten_thousand() {
    assert_eq!(&suffix_digits(10_000), b"0000");
    assert_eq!(&suffix_digits(10_007), b"0007");
    assert_eq!(&suffix_digits(123_456_789), b"6789");
    assert_eq!(&suffix_digits(999_999_999), b"9999");
    assert_eq!(&suffix_digits(i64::MAX), b"5807");
    assert_eq!(suffix_number(10_000), 0);
    assert_eq!(suffix_number(19_999), 9999);
}

#[test]
fn negative_readings_wrap_into_the_same_space() {
    assert_eq!(suffix_number(-1), 9999);
    assert_eq!(&suffix_digits(-1), b"9999");
    assert_eq!(&suffix_digits(-10_000), b"0000");
    assert_eq!(&suffix_digits(-9_993), b"0007");
    assert_eq!(&suffix_digits(i64::MIN), b"4192");
}

#[test]
fn first_name_has_the_placeholder_suffix() {
    let name = CandidateName::placeholder();
    assert_eq!(name.as_bytes(), b"/shm_open_anonymous-XXXX\0");
    assert_eq!(&name.suffix(), b"XXXX");
}

#[test]
fn numbered_names_have_the_fixed_shape() {
    assert_eq!(CandidateName::numbered(42).as_bytes(), b"/shm_open_anonymous-0042\0");
    assert_eq!(CandidateName::numbered(987_654_321).as_bytes(), b"/shm_open_anonymous-4321\0");
    for value in [0i64, 7, 9_999, 10_000, 123_456_789, -5] {
        let name = CandidateName::numbered(value);
        let bytes = name.as_bytes();
        assert_eq!(bytes.len(), NAME_LEN);
        assert!(bytes.starts_with(b"/shm_open_anonymous-"));
        assert!(bytes.ends_with(b"\0"));
        assert_eq!(&bytes[SUFFIX_OFFSET..SUFFIX_OFFSET + SUFFIX_LEN], &suffix_digits(value));
        assert_eq!(name.suffix(), suffix_digits(value));
        assert_eq!(bytes.iter().filter(|b| **b == 0).count(), 1);
    }
}

#[test]
fn names_are_equal_exactly_when_their_numbers_agree() {
    assert_eq!(CandidateName::numbered(7), CandidateName::numbered(10_007));
    assert_ne!(CandidateName::numbered(7), CandidateName::numbered(8));
    assert_ne!(CandidateName::numbered(0), CandidateName::placeholder());
}
