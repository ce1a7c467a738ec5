use size_squeeze::{budget_from_parsed, count_digits, parse_budget, CompressError};

#[test]
fn size_texts_become_byte_counts() {
    assert_eq!(parse_budget("500KB").ok(), Some(500_000));
    assert_eq!(parse_budget("1MB").ok(), Some(1_000_000));
    assert_eq!(parse_budget("1234").ok(), Some(1234));
}

#[test]
fn rejected_size_texts_are_invalid_size() {
    assert!(matches!(parse_budget(""), Err(CompressError::InvalidSize)));
    assert!(matches!(parse_budget("lots"), Err(CompressError::InvalidSize)));
}

#[test]
fn parsed_result_maps_to_budget() {
    assert_eq!(budget_from_parsed(Some(42)).ok(), Some(42));
    assert!(matches!(budget_from_parsed(None), Err(CompressError::InvalidSize)));
}

#[test]
fn overlong_digit_runs_are_invalid_size() {
    assert!(matches!(parse_budget("184467440737095516155"), Err(CompressError::InvalidSize)));
    assert!(matches!(parse_budget("18446744073709551615.5"), Err(CompressError::InvalidSize)));
    assert_eq!(parse_budget("9999999999999999999").ok(), Some(9_999_999_999_999_999_999));
}

#[test]
fn digits_are_counted() {
    assert_eq!(count_digits("1_000 KB"), 4);
    assert_eq!(count_digits(""), 0);
    assert_eq!(count_digits("é9"), 1);
}
