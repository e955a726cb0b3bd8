use std::cmp::Ordering;
use trust_levels::{Trust, TrustError};

const ASCENDING: [Trust; 5] = [
    Trust::Public,
    Trust::Authenticated,
    Trust::Vouched,
    Trust::Ndaed,
    Trust::Staff,
];

const TOKENS: [&str; 5] = ["public", "authenticated", "vouched", "ndaed", "staff"];

#[test]
fn test_from_str() -> Result<(), TrustError> {
    assert_eq!(Trust::try_from("staff")?, Trust::Staff);
    assert_eq!(Trust::try_from("ndaed".to_owned())?, Trust::Ndaed);
    Ok(())
}

#[test]
fn test_to_str() -> Result<(), TrustError> {
    assert_eq!("staff", Trust::Staff.as_str());
    Ok(())
}

#[test]
fn trust_test_ord() {
    assert!(Trust::Ndaed >= Trust::Public);
    assert!(Trust::Staff <= Trust::Staff);
}

#[test]
fn trust_as_str_gives_each_token() {
    assert_eq!(Trust::Public.as_str(), "public");
    assert_eq!(Trust::Authenticated.as_str(), "authenticated");
    assert_eq!(Trust::Vouched.as_str(), "vouched");
    assert_eq!(Trust::Ndaed.as_str(), "ndaed");
    assert_eq!(Trust::Staff.as_str(), "staff");
}

#[test]
fn trust_token_round_trip() {
    for (level, token) in ASCENDING.iter().zip(TOKENS.iter()) {
        assert_eq!(Trust::try_from(*token), Ok(*level));
        assert_eq!(Trust::try_from(*token).unwrap().as_str(), *token);
        assert_eq!(Trust::try_from(level.as_str()), Ok(*level));
        assert_eq!(Trust::try_from(level.as_str().to_owned()), Ok(*level));
    }
}

#[test]
fn trust_refuses_other_tokens() {
    let others = [
        "",
        "bogus",
        "Staff",
        "STAFF",
        "sTaff",
        " staff",
        "staff ",
        "staf",
        "stafff",
        "staff\n",
        "publi",
        "publics",
        "none",
        "creator",
        "admin",
        "LOW",
        "st\u{e4}ff",
        "\u{0455}taff",
    ];
    for token in others.iter() {
        assert_eq!(Trust::try_from(*token), Err(TrustError::InvalidTrustLevel));
        assert_eq!(
            Trust::try_from((*token).to_owned()),
            Err(TrustError::InvalidTrustLevel)
        );
    }
}

#[test]
fn trust_parse_never_reports_too_low() {
    for token in TOKENS.iter().chain(["", "bogus", "Public"].iter()) {
        assert_ne!(Trust::try_from(*token), Err(TrustError::TrustLevelToLow));
    }
    assert_ne!(TrustError::InvalidTrustLevel, TrustError::TrustLevelToLow);
}

#[test]
fn trust_order_follows_declaration() {
    for (i, a) in ASCENDING.iter().enumerate() {
        for (j, b) in ASCENDING.iter().enumerate() {
            assert_eq!(a.partial_cmp(b), Some(i.cmp(&j)));
            assert_eq!(a < b, i < j);
            assert_eq!(a <= b, i <= j);
            assert_eq!(a > b, i > j);
            assert_eq!(a >= b, i >= j);
            assert_eq!(a == b, i == j);
        }
    }
    assert_eq!(
        Trust::Public.partial_cmp(&Trust::Authenticated),
        Some(Ordering::Less)
    );
    assert_eq!(
        Trust::Staff.partial_cmp(&Trust::Ndaed),
        Some(Ordering::Greater)
    );
    assert_eq!(
        Trust::Vouched.partial_cmp(&Trust::Vouched),
        Some(Ordering::Equal)
    );
}

#[test]
fn trust_order_is_transitive() {
    for a in ASCENDING.iter() {
        for b in ASCENDING.iter() {
            for c in ASCENDING.iter() {
                if a < b && b < c {
                    assert!(a < c);
                }
            }
        }
    }
}

#[test]
fn trust_equality_is_variant_exact() {
    let first = Trust::try_from("vouched").unwrap();
    let second = Trust::try_from("vouched".to_owned()).unwrap();
    assert_eq!(first, second);
    assert_eq!(first, Trust::Vouched);
    assert_ne!(Trust::Public, Trust::Authenticated);
    assert_ne!(Trust::Ndaed, Trust::Staff);
    let copy = first;
    assert_eq!(copy.clone(), first);
}

#[test]
fn trust_parses_a_sequence_of_tokens() {
    let tokens = ["staff", "ndaed", "vouched", "authenticated", "public", "bogus"];
    let read: Vec<Result<Trust, TrustError>> =
        tokens.iter().map(|t| Trust::try_from(*t)).collect();
    assert_eq!(
        read,
        vec![
            Ok(Trust::Staff),
            Ok(Trust::Ndaed),
            Ok(Trust::Vouched),
            Ok(Trust::Authenticated),
            Ok(Trust::Public),
            Err(TrustError::InvalidTrustLevel),
        ]
    );
}

#[test]
fn trust_debug_names_the_variant() {
    assert_eq!(format!("{:?}", Trust::Staff), "Staff");
    assert_eq!(
        format!("{:?}", TrustError::InvalidTrustLevel),
        "InvalidTrustLevel"
    );
    assert_eq!(format!("{:?}", TrustError::TrustLevelToLow), "TrustLevelToLow");
}
