use simpleaf::text::{last_word, to_decimal};
use simpleaf::version::{check_version_constraints, parse_reported_version, ToolError};

fn io_failure() -> std::io::Error {
    std::io::Error::new(std::io::ErrorKind::NotFound, "no such file or directory")
}

#[test]
fn last_word_skips_trailing_space() {
    assert_eq!(last_word("salmon 1.9.0\n").as_deref(), Some("1.9.0"));
    assert_eq!(last_word("  alevin-fry\t0.8.2  ").as_deref(), Some("0.8.2"));
    assert_eq!(last_word("single").as_deref(), Some("single"));
}

#[test]
fn last_word_of_blank_text_is_none() {
    assert_eq!(last_word(""), None);
    assert_eq!(last_word(" \n\t "), None);
    assert_eq!(last_word("\u{a0}\u{3000}"), None);
}

#[test]
fn last_word_splits_on_unicode_space() {
    assert_eq!(last_word("pyroe\u{2003}0.9.0").as_deref(), Some("0.9.0"));
}

#[test]
fn decimal_rendering() {
    assert_eq!(to_decimal(0), "0");
    assert_eq!(to_decimal(7), "7");
    assert_eq!(to_decimal(86), "86");
    assert_eq!(to_decimal(1_234_567_890), "1234567890");
    assert_eq!(to_decimal(u64::MAX), "18446744073709551615");
}

#[test]
fn version_in_range_is_accepted() {
    let v = check_version_constraints(">=1.5.1, <2.0.0", Ok(String::from("salmon 1.9.0\n"))).unwrap();
    assert_eq!((v.major(), v.minor(), v.patch()), (1, 9, 0));
    assert_eq!(v.pre(), "");
    assert_eq!(v.to_text(), "1.9.0");
}

#[test]
fn lower_bound_is_inclusive() {
    let v = check_version_constraints(">=1.5.1, <2.0.0", Ok(String::from("salmon 1.5.1"))).unwrap();
    assert_eq!(v.to_text(), "1.5.1");
}

#[test]
fn upper_bound_is_exclusive() {
    let r = check_version_constraints(">=1.5.1, <2.0.0", Ok(String::from("salmon 2.0.0")));
    match r {
        Err(ToolError::VersionMismatch { version, requirement }) => {
            assert_eq!(version.to_text(), "2.0.0");
            assert_eq!(requirement.as_str(), ">=1.5.1, <2.0.0");
        }
        other => panic!("unexpected result {:?}", other),
    }
}

#[test]
fn version_below_range_is_refused() {
    let r = check_version_constraints(">=0.4.1, <1.0.0", Ok(String::from("alevin-fry 0.4.0")));
    assert!(matches!(r, Err(ToolError::VersionMismatch { .. })));
}

#[test]
fn malformed_version_is_a_parse_error() {
    for out in ["salmon 1.9", "salmon v1.9.0", "salmon 1.09.0", "salmon", "salmon 1.0.0-"] {
        let r = check_version_constraints(">=1.5.1, <2.0.0", Ok(String::from(out)));
        assert!(matches!(r, Err(ToolError::VersionParse)), "{}", out);
    }
}

#[test]
fn empty_output_is_a_parse_error() {
    let r = check_version_constraints(">=1.5.1, <2.0.0", Ok(String::new()));
    assert!(matches!(r, Err(ToolError::VersionParse)));
    let r = check_version_constraints(">=1.5.1, <2.0.0", Ok(String::from("   \n")));
    assert!(matches!(r, Err(ToolError::VersionParse)));
}

#[test]
fn failed_run_is_an_invocation_error() {
    let r = check_version_constraints(">=1.5.1, <2.0.0", Err(io_failure()));
    assert!(matches!(r, Err(ToolError::Invocation)));
}

#[test]
fn bad_requirement_is_reported() {
    let r = check_version_constraints(">=1.0 <2.0", Ok(String::from("salmon 1.9.0")));
    assert!(matches!(r, Err(ToolError::InvalidRequirement)));
}

#[test]
fn prerelease_and_build_metadata_are_kept() {
    let v = parse_reported_version("tool version 1.2.3-beta.1+build.5").unwrap();
    assert_eq!((v.major(), v.minor(), v.patch()), (1, 2, 3));
    assert_eq!(v.pre(), "beta.1");
    assert_eq!(v.build(), "build.5");
    assert_eq!(v.to_text(), "1.2.3-beta.1+build.5");
}

#[test]
fn prerelease_outside_explicit_comparator_is_refused() {
    let r = check_version_constraints(">=1.5.1, <2.0.0", Ok(String::from("salmon 1.9.0-rc.1")));
    assert!(matches!(r, Err(ToolError::VersionMismatch { .. })));
}
