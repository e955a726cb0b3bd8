use std::cmp::Ordering;
use trust_levels::{AALevel, AALevelError};

const ASCENDING: [AALevel; 5] = [
    AALevel::Unknown,
    AALevel::Low,
    AALevel::Medium,
    AALevel::High,
    AALevel::Maximum,
];

#[test]
fn aal_from_str() {
    assert_eq!(AALevel::from(""), AALevel::Unknown);
    assert_eq!(AALevel::from("MEDIUM"), AALevel::Medium);
}

#[test]
fn aal_test_ord() {
    assert!(AALevel::Unknown < AALevel::Low);
    assert!(AALevel::High > AALevel::Low);
}

#[test]
fn aal_reads_each_upper_case_token() {
    assert_eq!(AALevel::from("LOW"), AALevel::Low);
    assert_eq!(AALevel::from("MEDIUM"), AALevel::Medium);
    assert_eq!(AALevel::from("HIGH"), AALevel::High);
    assert_eq!(AALevel::from("MAXIMUM"), AALevel::Maximum);
    assert_eq!(AALevel::from("LOW".to_owned()), AALevel::Low);
    assert_eq!(AALevel::from("MEDIUM".to_owned()), AALevel::Medium);
    assert_eq!(AALevel::from("HIGH".to_owned()), AALevel::High);
    assert_eq!(AALevel::from("MAXIMUM".to_owned()), AALevel::Maximum);
}

#[test]
fn aal_lower_case_reads_as_unknown() {
    assert_eq!(AALevel::from("medium"), AALevel::Unknown);
    assert_eq!(AALevel::from("low"), AALevel::Unknown);
    assert_eq!(AALevel::from("high"), AALevel::Unknown);
    assert_eq!(AALevel::from("maximum"), AALevel::Unknown);
    assert_eq!(AALevel::from("Medium"), AALevel::Unknown);
    assert_eq!(AALevel::from("mEDIUM"), AALevel::Unknown);
    assert_eq!(AALevel::from("medium".to_owned()), AALevel::Unknown);
}

#[test]
fn aal_other_tokens_read_as_unknown() {
    let others = [
        "",
        "UNKNOWN",
        "unknown",
        "bogus",
        "LO",
        "LOWW",
        " LOW",
        "LOW ",
        "MAX",
        "HIGHER",
        "staff",
        "admin",
        "M\u{c9}DIUM",
    ];
    for token in others.iter() {
        assert_eq!(AALevel::from(*token), AALevel::Unknown);
        assert_eq!(AALevel::from((*token).to_owned()), AALevel::Unknown);
    }
}

#[test]
fn aal_order_has_unknown_lowest() {
    for (i, a) in ASCENDING.iter().enumerate() {
        for (j, b) in ASCENDING.iter().enumerate() {
            assert_eq!(a.partial_cmp(b), Some(i.cmp(&j)));
            assert_eq!(a < b, i < j);
            assert_eq!(a <= b, i <= j);
            assert_eq!(a > b, i > j);
            assert_eq!(a >= b, i >= j);
            assert_eq!(a == b, i == j);
        }
    }
    assert_eq!(
        AALevel::Unknown.partial_cmp(&AALevel::Low),
        Some(Ordering::Less)
    );
    assert_eq!(
        AALevel::Maximum.partial_cmp(&AALevel::High),
        Some(Ordering::Greater)
    );
}

#[test]
fn aal_equality_is_variant_exact() {
    let first = AALevel::from("HIGH");
    let second = AALevel::from("HIGH".to_owned());
    assert_eq!(first, second);
    assert_eq!(AALevel::from("nothing"), AALevel::from(""));
    assert_ne!(AALevel::Low, AALevel::Medium);
    assert_ne!(AALevel::Unknown, AALevel::Maximum);
    assert_eq!(first.clone(), AALevel::High);
}

#[test]
fn aal_error_is_reserved_for_callers() {
    let e = AALevelError::AALevelToLow;
    assert_eq!(e, AALevelError::AALevelToLow);
    assert_eq!(format!("{:?}", e), "AALevelToLow");
}
