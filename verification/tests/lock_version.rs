use jsmoke::types::project::lock_version::{LockVersion, LockVersionVariant, ParseError};
use std::cmp::Ordering;

#[test]
fn prefixes_are_told_apart() {
    let parsed = LockVersionVariant::try_from("^1.2").expect("a lower bound");
    assert!(matches!(
        parsed,
        LockVersionVariant::GreaterOrEquals(LockVersion { major: 1, minor: Some(2), patch: None })
    ));
    let parsed = LockVersionVariant::try_from("=1.2.3").expect("an exact version");
    assert!(matches!(
        parsed,
        LockVersionVariant::StrictlyEquals(LockVersion {
            major: 1,
            minor: Some(2),
            patch: Some(3)
        })
    ));
    let parsed = LockVersionVariant::try_from("1.2").expect("a lower bound");
    assert!(matches!(
        parsed,
        LockVersionVariant::GreaterOrEquals(LockVersion { major: 1, minor: Some(2), patch: None })
    ));
    let parsed = LockVersionVariant::try_from("^=21").expect("a lower bound");
    assert!(matches!(
        parsed,
        LockVersionVariant::GreaterOrEquals(LockVersion { major: 21, minor: None, patch: None })
    ));
}

#[test]
fn ranges_are_held_to_their_order() {
    let parsed = LockVersionVariant::try_from("1.0<=>2.0").expect("a range");
    assert!(matches!(
        parsed,
        LockVersionVariant::InRange {
            left: LockVersion { major: 1, minor: Some(0), patch: None },
            right: LockVersion { major: 2, minor: Some(0), patch: None },
        }
    ));
    let e = LockVersionVariant::try_from("2.0<=>1.0").expect_err("an inverted range");
    assert!(matches!(
        e,
        ParseError::LeftValueGreaterThanRight {
            left: LockVersion { major: 2, minor: Some(0), patch: None },
            right: LockVersion { major: 1, minor: Some(0), patch: None },
        }
    ));
}

#[test]
fn a_range_of_equal_versions_is_accepted() {
    assert!(matches!(
        LockVersionVariant::try_from("1.2.3<=>1.2.3"),
        Ok(LockVersionVariant::InRange { .. })
    ));
    assert!(matches!(
        LockVersionVariant::try_from("1<=>1.0.0"),
        Ok(LockVersionVariant::InRange { .. })
    ));
    assert!(matches!(
        LockVersionVariant::try_from("1.0<=>1"),
        Ok(LockVersionVariant::InRange { .. })
    ));
    assert!(matches!(
        LockVersionVariant::try_from("1.1<=>1"),
        Err(ParseError::LeftValueGreaterThanRight { .. })
    ));
}

#[test]
fn surrounding_white_space_is_accepted() {
    assert!(matches!(
        LockVersionVariant::try_from("  =17.0.1\t"),
        Ok(LockVersionVariant::StrictlyEquals(LockVersion {
            major: 17,
            minor: Some(0),
            patch: Some(1)
        }))
    ));
    assert!(matches!(
        LockVersionVariant::try_from(" 8<=>21 "),
        Ok(LockVersionVariant::InRange {
            left: LockVersion { major: 8, minor: None, patch: None },
            right: LockVersion { major: 21, minor: None, patch: None },
        })
    ));
}

#[test]
fn texts_that_the_pattern_does_not_cover_are_rejected_as_they_came() {
    for s in ["", "  ", "v1.2", "1.2.3.4", "1..2", "1.2 <=> 1.3", ">=1.2", "^1.2<=>2", "1.2x", "=", "1 .2"] {
        match LockVersionVariant::try_from(s) {
            Err(ParseError::UnparseableRegex(text)) => assert_eq!(text, s),
            other => panic!("`{}` was expected to be rejected, got {:?}", s, other),
        }
    }
}

#[test]
fn parse_refuses_a_number_that_does_not_fit() {
    assert!(LockVersionVariant::parse("70000").is_none());
    assert!(LockVersionVariant::parse("1.65536").is_none());
    assert!(LockVersionVariant::parse("1<=>2.3.99999").is_none());
    assert!(matches!(
        LockVersionVariant::parse("65535.65535.65535"),
        Some(Ok(LockVersionVariant::GreaterOrEquals(LockVersion {
            major: 65535,
            minor: Some(65535),
            patch: Some(65535)
        })))
    ));
    assert!(matches!(
        LockVersionVariant::parse("nope"),
        Some(Err(ParseError::UnparseableRegex(_)))
    ));
    assert!(matches!(
        LockVersionVariant::parse("3<=>2"),
        Some(Err(ParseError::LeftValueGreaterThanRight { .. }))
    ));
}

#[test]
fn lock_from_match_goes_by_the_match_it_is_given() {
    assert!(matches!(
        LockVersionVariant::from_match("1.2", Some("1.2")),
        Ok(LockVersionVariant::GreaterOrEquals(_))
    ));
    assert!(matches!(
        LockVersionVariant::from_match("1.2", Some("1")),
        Err(ParseError::UnparseableRegex(_))
    ));
    assert!(matches!(
        LockVersionVariant::from_match("1.2", None),
        Err(ParseError::UnparseableRegex(_))
    ));
}

#[test]
fn read_tells_the_forms_apart() {
    assert!(matches!(
        LockVersionVariant::read("^=1"),
        Some(LockVersionVariant::GreaterOrEquals(LockVersion { major: 1, minor: None, patch: None }))
    ));
    assert!(matches!(
        LockVersionVariant::read("=1"),
        Some(LockVersionVariant::StrictlyEquals(_))
    ));
    assert!(matches!(
        LockVersionVariant::read("5<=>4"),
        Some(LockVersionVariant::InRange { .. })
    ));
    assert!(LockVersionVariant::read("^").is_none());
    assert!(LockVersionVariant::read("1<=>").is_none());
    assert!(LockVersionVariant::read("a").is_none());
}

#[test]
fn versions_are_read_group_by_group() {
    assert_eq!(
        LockVersion::from("1"),
        LockVersion { major: 1, minor: None, patch: None }
    );
    assert_eq!(
        LockVersion::from("1.20"),
        LockVersion { major: 1, minor: Some(20), patch: None }
    );
    assert_eq!(
        LockVersion::from("24.1.07"),
        LockVersion { major: 24, minor: Some(1), patch: Some(7) }
    );
    assert_eq!(
        LockVersion::parse("0.0.0"),
        Some(LockVersion { major: 0, minor: Some(0), patch: Some(0) })
    );
    assert_eq!(
        LockVersion::parse("1.2.3.anything"),
        Some(LockVersion { major: 1, minor: Some(2), patch: Some(3) })
    );
    assert_eq!(LockVersion::parse(""), None);
    assert_eq!(LockVersion::parse("1."), None);
    assert_eq!(LockVersion::parse(".1"), None);
    assert_eq!(LockVersion::parse("1.x"), None);
    assert_eq!(LockVersion::parse("65536"), None);
    assert_eq!(LockVersion::parse("-1"), None);
}

#[test]
fn versions_are_written_up_to_the_first_absent_part() {
    assert_eq!(LockVersion { major: 1, minor: None, patch: None }.to_string(), "1");
    assert_eq!(LockVersion { major: 1, minor: Some(0), patch: None }.to_string(), "1.0");
    assert_eq!(
        LockVersion { major: 19, minor: Some(3), patch: Some(4) }.to_string(),
        "19.3.4"
    );
    assert_eq!(LockVersion { major: 7, minor: None, patch: Some(9) }.to_string(), "7");
    assert_eq!(
        LockVersion { major: 65535, minor: Some(0), patch: Some(65535) }.to_string(),
        "65535.0.65535"
    );
}

#[test]
fn written_versions_are_read_back() {
    for version in [
        LockVersion { major: 0, minor: None, patch: None },
        LockVersion { major: 3, minor: Some(14), patch: None },
        LockVersion { major: 3, minor: Some(14), patch: Some(159) },
    ] {
        assert_eq!(LockVersion::parse(&version.to_string()), Some(version));
    }
}

#[test]
fn full_versions_compare_as_triples() {
    let parts: [u16; 4] = [0, 1, 2, 65535];
    for a in parts {
        for b in parts {
            for c in parts {
                for x in parts {
                    for y in parts {
                        for z in parts {
                            let left = LockVersion { major: a, minor: Some(b), patch: Some(c) };
                            let right = LockVersion { major: x, minor: Some(y), patch: Some(z) };
                            assert_eq!(left.partial_cmp(&right), Some((a, b, c).cmp(&(x, y, z))));
                        }
                    }
                }
            }
        }
    }
}

#[test]
fn an_absent_part_counts_as_zero_in_the_order() {
    let bare = LockVersion { major: 1, minor: None, patch: None };
    let zero = LockVersion { major: 1, minor: Some(0), patch: None };
    let one = LockVersion { major: 1, minor: Some(1), patch: None };
    let patched = LockVersion { major: 1, minor: None, patch: Some(2) };
    let zero_patched = LockVersion { major: 1, minor: Some(0), patch: Some(2) };
    assert_eq!(bare.partial_cmp(&zero), Some(Ordering::Equal));
    assert_eq!(zero.partial_cmp(&bare), Some(Ordering::Equal));
    assert_eq!(one.partial_cmp(&bare), Some(Ordering::Greater));
    assert_eq!(bare.partial_cmp(&one), Some(Ordering::Less));
    assert_eq!(patched.partial_cmp(&zero), Some(Ordering::Greater));
    assert_eq!(zero.partial_cmp(&patched), Some(Ordering::Less));
    assert_eq!(patched.partial_cmp(&zero_patched), Some(Ordering::Equal));
    assert!(one > bare);
    assert!(bare < one);
    assert!(bare <= zero && bare >= zero);
    assert!(!(bare < zero) && !(bare > zero));
}

#[test]
fn the_major_part_decides_first() {
    let left = LockVersion { major: 2, minor: None, patch: None };
    let right = LockVersion { major: 1, minor: Some(9), patch: Some(9) };
    assert_eq!(left.partial_cmp(&right), Some(Ordering::Greater));
    assert_eq!(right.partial_cmp(&left), Some(Ordering::Less));
}
