use predicate_eval::version::{compare, semver_compare, Rel, SemVer};
use predicate_eval::CmpOp;

fn ver(major: u64, minor: u64, patch: u64, pre: &str) -> SemVer {
    SemVer { major, minor, patch, pre: pre.to_string() }
}

#[test]
fn test_semver_release_above_prerelease() {
    assert!(semver_compare(CmpOp::Gt, "1.2.3", "1.2.3-alpha"));
    assert!(semver_compare(CmpOp::Lt, "1.2.3-alpha", "1.2.3"));
    assert!(!semver_compare(CmpOp::Gt, "1.2.3-alpha", "1.2.3"));
}

#[test]
fn test_semver_numeric_ordering() {
    assert!(semver_compare(CmpOp::Lt, "1.0.0", "1.0.1"));
    assert!(semver_compare(CmpOp::Lt, "1.9.0", "1.10.0"));
    assert!(semver_compare(CmpOp::Ge, "2.0.0", "2.0.0"));
    assert!(semver_compare(CmpOp::Le, "2.0.0", "2.0.0"));
    assert!(!semver_compare(CmpOp::Lt, "2.0.0", "2.0.0"));
}

#[test]
fn test_semver_prerelease_ordering() {
    assert!(semver_compare(CmpOp::Lt, "1.0.0-alpha", "1.0.0-alpha.1"));
    assert!(semver_compare(CmpOp::Lt, "1.0.0-alpha.1", "1.0.0-alpha.beta"));
    assert!(semver_compare(CmpOp::Lt, "1.0.0-2", "1.0.0-10"));
    assert!(semver_compare(CmpOp::Lt, "1.0.0-1", "1.0.0-alpha"));
    assert!(semver_compare(CmpOp::Lt, "1.0.0-alpha", "1.0.0-beta"));
}

#[test]
fn test_semver_build_metadata_ignored() {
    assert!(semver_compare(CmpOp::Eq, "1.0.0+build1", "1.0.0+build2"));
    assert!(!semver_compare(CmpOp::Lt, "1.0.0+a", "1.0.0+b"));
}

#[test]
fn test_semver_parse_failure_is_false() {
    assert!(!semver_compare(CmpOp::Eq, "not-a-version", "1.0.0"));
    assert!(!semver_compare(CmpOp::Ne, "not-a-version", "1.0.0"));
    assert!(!semver_compare(CmpOp::Gt, "1.0.0", "1.0"));
    assert!(!semver_compare(CmpOp::Le, "", ""));
}

#[test]
fn test_compare_on_parsed_fields() {
    assert_eq!(compare(&ver(1, 2, 3, ""), &ver(1, 2, 3, "alpha")), Rel::Gt);
    assert_eq!(compare(&ver(1, 2, 3, "alpha"), &ver(1, 2, 3, "alpha")), Rel::Eq);
    assert_eq!(compare(&ver(1, 2, 3, "2"), &ver(1, 2, 3, "10")), Rel::Lt);
    assert_eq!(compare(&ver(1, 2, 3, "1"), &ver(1, 2, 3, "alpha")), Rel::Lt);
    assert_eq!(compare(&ver(1, 2, 3, "alpha"), &ver(1, 2, 3, "alpha.1")), Rel::Lt);
    assert_eq!(compare(&ver(0, 9, 9, ""), &ver(1, 0, 0, "alpha")), Rel::Lt);
}

#[test]
fn test_semver_agrees_with_crate_precedence() {
    let cases = [
        ("1.2.3", "1.2.3-alpha"),
        ("1.0.0-alpha", "1.0.0-alpha.1"),
        ("1.0.0-alpha.1", "1.0.0-alpha.beta"),
        ("1.0.0-2", "1.0.0-10"),
        ("1.0.0", "1.0.1"),
        ("1.0.0-rc.1", "1.0.0-rc.1"),
    ];
    for (a, b) in cases {
        let va = semver::Version::parse(a).unwrap();
        let vb = semver::Version::parse(b).unwrap();
        assert_eq!(
            semver_compare(CmpOp::Lt, a, b),
            va.cmp_precedence(&vb) == std::cmp::Ordering::Less,
            "lt on {} {}",
            a,
            b
        );
        assert_eq!(
            semver_compare(CmpOp::Gt, a, b),
            va.cmp_precedence(&vb) == std::cmp::Ordering::Greater,
            "gt on {} {}",
            a,
            b
        );
    }
}
