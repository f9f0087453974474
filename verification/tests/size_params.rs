use speedtest::size::parse_size_mb;
use speedtest::{DEFAULT_SIZE_MB, MAX_SIZE_MB};

#[test]
fn absent_size_uses_default() {
    assert_eq!(parse_size_mb(None), DEFAULT_SIZE_MB);
    assert_eq!(parse_size_mb(None), 10);
}

#[test]
fn plain_number_is_taken_as_is() {
    assert_eq!(parse_size_mb(Some("1")), 1);
    assert_eq!(parse_size_mb(Some("10")), 10);
    assert_eq!(parse_size_mb(Some("42")), 42);
    assert_eq!(parse_size_mb(Some("100")), 100);
}

#[test]
fn mb_suffix_is_stripped() {
    assert_eq!(parse_size_mb(Some("1MB")), 1);
    assert_eq!(parse_size_mb(Some("25MB")), 25);
}

#[test]
fn every_mb_occurrence_is_stripped() {
    assert_eq!(parse_size_mb(Some("MB7")), 7);
    assert_eq!(parse_size_mb(Some("1MB2")), 12);
    assert_eq!(parse_size_mb(Some("MBMB3")), 3);
}

#[test]
fn oversized_request_is_clamped() {
    assert_eq!(parse_size_mb(Some("500")), MAX_SIZE_MB);
    assert_eq!(parse_size_mb(Some("101")), 100);
    assert_eq!(parse_size_mb(Some("500MB")), 100);
}

#[test]
fn zero_is_a_legal_degenerate_size() {
    assert_eq!(parse_size_mb(Some("0")), 0);
    assert_eq!(parse_size_mb(Some("0MB")), 0);
}

#[test]
fn leading_plus_sign_is_accepted() {
    assert_eq!(parse_size_mb(Some("+7")), 7);
}

#[test]
fn unparsable_values_fall_back_to_default() {
    assert_eq!(parse_size_mb(Some("")), 10);
    assert_eq!(parse_size_mb(Some("MB")), 10);
    assert_eq!(parse_size_mb(Some("abc")), 10);
    assert_eq!(parse_size_mb(Some("-5")), 10);
    assert_eq!(parse_size_mb(Some("7 ")), 10);
    assert_eq!(parse_size_mb(Some(" 7")), 10);
    assert_eq!(parse_size_mb(Some("1.5")), 10);
    assert_eq!(parse_size_mb(Some("++3")), 10);
    assert_eq!(parse_size_mb(Some("+")), 10);
    assert_eq!(parse_size_mb(Some("mb4")), 10);
    assert_eq!(parse_size_mb(Some("4Mb")), 10);
}

#[test]
fn overflowing_numbers_fall_back_to_default() {
    assert_eq!(parse_size_mb(Some("99999999999999999999999999")), 10);
    assert_eq!(parse_size_mb(Some("18446744073709551616")), 10);
}

#[test]
fn unicode_input_is_refused_not_mangled() {
    assert_eq!(parse_size_mb(Some("７")), 10);
    assert_eq!(parse_size_mb(Some("10МB")), 10);
}

#[test]
fn settled_size_is_always_in_range() {
    let inputs = [
        None,
        Some(""),
        Some("0"),
        Some("1MB"),
        Some("50"),
        Some("100"),
        Some("101"),
        Some("500MB"),
        Some("garbage"),
        Some("99999999999999999999999999"),
    ];
    for raw in inputs {
        let n = parse_size_mb(raw);
        assert!(n <= 100);
    }
}
