use wasmerenv::error::Error;
use wasmerenv::version::constraint_precedence;
use wasmerenv::version::version_from_tag;
use wasmerenv::version::version_from_version_string;
use wasmerenv::version::Constraint;
use wasmerenv::version::Version;

#[test]
fn test_version_from_version_string() {
    // Test the case where the version string is valid
    let version_string = "wasmer 1.0.0".to_string();
    let version = version_from_version_string(version_string).unwrap();
    assert_eq!(version.text(), "1.0.0");

    // Test the case where the version string is invalid
    let version_string = "invalid version string".to_string();
    let result = version_from_version_string(version_string);
    assert!(result.is_err());
    assert_eq!(
        result.unwrap_err().message(),
        "Could not get wasmer version form the version string"
    );
}

#[test]
fn tag_parses_with_v_prefix_stripped() {
    let version = version_from_tag("v1.2.3").unwrap();
    assert_eq!(version.text(), "1.2.3");
}

#[test]
fn tag_without_prefix_parses_too() {
    let version = version_from_tag("4.2.0").unwrap();
    assert_eq!(version.text(), "4.2.0");
}

#[test]
fn probe_output_with_whitespace_parses() {
    let version = version_from_version_string("  wasmer 1.2.3\n".to_string()).unwrap();
    assert_eq!(version.text(), "1.2.3");
}

#[test]
fn malformed_tag_is_rejected() {
    let result = version_from_tag("not a version");
    assert!(matches!(result, Err(Error::MalformedVersion)));
}

#[test]
fn version_parse_accepts_only_canonical_semver() {
    assert!(Version::parse("1.2.3").is_ok());
    assert!(Version::parse("1.2.3-alpha.1").is_ok());
    assert!(Version::parse("01.2.3").is_err());
    assert!(Version::parse(" 1.2.3").is_err());
    assert!(Version::parse("1.2").is_err());
}

#[test]
fn versions_compare_by_text() {
    let a = Version::parse("2.5.0").unwrap();
    let b = Version::parse("2.5.0").unwrap();
    let c = Version::parse("2.5.1").unwrap();
    assert!(a == b);
    assert!(a != c);
}

#[test]
fn constraint_parse_accepts_requirements_and_rejects_junk() {
    assert!(Constraint::parse("^2.0.0").is_ok());
    assert!(Constraint::parse(">=1.2, <1.8").is_ok());
    assert!(Constraint::parse("not a requirement!!").is_err());
}

#[test]
fn constraint_matching_follows_semver_ranges() {
    let caret = Constraint::parse("^2.0.0").unwrap();
    assert!(caret.matches(&Version::parse("2.5.0").unwrap()));
    assert!(!caret.matches(&Version::parse("3.0.0").unwrap()));
    assert!(!caret.matches(&Version::parse("1.9.0").unwrap()));
}

#[test]
fn constraint_precedence_prefers_argument_then_stdin_then_environment() {
    let arg = || Some(Constraint::parse("^3.0.0").unwrap());
    let stdin = || Some(Constraint::parse("^2.0.0").unwrap());
    let env = || Some(Constraint::parse("^1.0.0").unwrap());
    assert_eq!(constraint_precedence(arg(), stdin(), env()).unwrap().text(), "^3.0.0");
    assert_eq!(constraint_precedence(None, stdin(), env()).unwrap().text(), "^2.0.0");
    assert_eq!(constraint_precedence(None, None, env()).unwrap().text(), "^1.0.0");
    assert!(constraint_precedence(None, None, None).is_none());
}

#[test]
fn bare_constraint_means_exact_version() {
    // A bare requirement pins the exact version rather than a caret range.
    let bare = Constraint::parse("2.0.0").unwrap();
    assert!(bare.matches(&Version::parse("2.0.0").unwrap()));
    assert!(!bare.matches(&Version::parse("2.5.0").unwrap()));
}
