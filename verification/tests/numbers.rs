use bank::digits::is_all_digits;
use bank::digits::parse_index;
use bank::digits::parse_u64;
use bank::digits::u64_to_string;

#[test]
fn u64_to_string_exact() {
    assert_eq!(u64_to_string(0), "0");
    assert_eq!(u64_to_string(9), "9");
    assert_eq!(u64_to_string(10), "10");
    assert_eq!(u64_to_string(1234567890), "1234567890");
    assert_eq!(u64_to_string(u64::MAX), "18446744073709551615");
}

#[test]
fn parse_u64_accepts_what_std_accepts() {
    for s in ["0", "7", "007", "+5", "1234567890", "18446744073709551615"] {
        assert_eq!(parse_u64(s), s.parse::<u64>().ok(), "on {:?}", s);
    }
}

#[test]
fn parse_u64_rejects_what_std_rejects() {
    for s in ["", "+", "++1", "-1", " 1", "1 ", "12a", "a12", "1.5", "18446744073709551616"] {
        assert_eq!(parse_u64(s), None, "on {:?}", s);
        assert!(s.parse::<u64>().is_err(), "on {:?}", s);
    }
}

#[test]
fn parse_index_matches_usize_parse() {
    for s in ["0", "1", "2", "999", "+3", "", "x", "18446744073709551616"] {
        assert_eq!(parse_index(s), s.parse::<usize>().ok(), "on {:?}", s);
    }
}

#[test]
fn all_digits_check() {
    assert!(is_all_digits("0123456789"));
    assert!(is_all_digits("1"));
    // The empty string has no non-digit, so it counts as numeric, as the
    // dispatcher expects.
    assert!(is_all_digits(""));
    assert!(!is_all_digits("12a"));
    assert!(!is_all_digits("+1"));
    assert!(!is_all_digits("list"));
}
