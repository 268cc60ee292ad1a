use std::cmp::Ordering;

use grok_zh::semantic_version::parse_version_text;
use grok_zh::version::{
    display_version, installed_version_text, display_version_with_commit, parse_distribution_version, ReleaseVersion,
    VERSION,
};

#[test]
fn release_version_accepts_semver_and_numeric_community_revisions() {
    for (input, revision, prerelease) in [
        ("1.0.0", 0, false),
        ("1.0.0.1", 1, false),
        ("1.0.0.12", 12, false),
        ("1.0.0-alpha.2", 0, true),
        ("1.0.0-zh.ci.17", 0, true),
        ("1.0.0-zh.preview.10", 0, true),
    ] {
        let parsed = ReleaseVersion::parse(input).unwrap();
        assert_eq!(parsed.to_string(), input);
        assert_eq!(parsed.revision(), revision);
        assert_eq!(parsed.is_prerelease(), prerelease);
    }
}

#[test]
fn release_version_rejects_ambiguous_or_noncanonical_revisions() {
    for input in [
        "",
        " 1.0.0",
        "1.0.0 ",
        "v1.0.0",
        "1",
        "1.0",
        "1.0.0.0",
        "1.0.0.01",
        "1.0.0.1.2",
        "1.0.0.1-alpha.1",
        "1.0.0.18446744073709551616",
    ] {
        assert!(ReleaseVersion::parse(input).is_err(), "accepted {input}");
    }
}

#[test]
fn distribution_parser_keeps_official_sources_strict_semver() {
    assert!(parse_distribution_version("1.0.0", false).is_ok());
    assert!(parse_distribution_version("1.0.0-alpha.1", false).is_ok());
    assert!(parse_distribution_version("1.0.0.1", false).is_err());
    assert!(parse_distribution_version("1.0.0.1", true).is_ok());
}

#[test]
fn release_version_orders_upstream_base_revision_and_prerelease() {
    let v = |input| ReleaseVersion::parse(input).unwrap();
    assert!(v("1.0.0-zh.ci.17") < v("1.0.0"));
    assert!(v("1.0.0") < v("1.0.0.1"));
    assert!(v("1.0.0.1") < v("1.0.0.2"));
    assert!(v("1.0.0.999") < v("1.0.1"));
    assert!(v("1.0.1-alpha.2") < v("1.0.1"));
    assert!(v("1.0.1-alpha.1") < v("1.0.1-alpha.2"));
    // Keep the semver crate's existing total ordering for build metadata.
    assert!(v("1.0.0+abc") < v("1.0.0+xyz"));
    assert!(v("1.0.0+xyz") < v("1.0.0.1"));
}

#[test]
fn test_display_version_formatting_matrix() {
    let cases: &[(&str, &str, &str)] = &[
        ("0.2.5 (abc1234)", " [alpha]", "0.2.5 (abc1234) [alpha]"),
        ("0.2.5 (abc1234)", " [stable]", "0.2.5 (abc1234) [stable]"),
        ("0.2.5 (abc1234)", "", "0.2.5 (abc1234)"),
        (
            "0.1.220-alpha.2 (def0)",
            " [alpha]",
            "0.1.220-alpha.2 (def0) [alpha]",
        ),
    ];
    for (vwc, label, expected) in cases {
        assert_eq!(
            display_version_with_commit(vwc, label),
            *expected,
            "display_version_with_commit({:?}, {:?})",
            vwc,
            label,
        );
    }
    assert_eq!(display_version(""), VERSION);
    assert!(display_version(" [stable]").ends_with("[stable]"));
}

#[test]
fn parse_error_names_the_refused_input() {
    let err = ReleaseVersion::parse("1.0.0.0").unwrap_err();
    assert_eq!(err.input(), "1.0.0.0");
    assert_eq!(
        err.message(),
        "invalid release version \"1.0.0.0\"; expected A.B.C, A.B.C-prerelease, or A.B.C.N with N > 0"
    );
}

#[test]
fn ordering_is_total_and_agrees_with_equality() {
    let a = ReleaseVersion::parse("1.2.3-rc.1").unwrap();
    let b = ReleaseVersion::parse("1.2.3").unwrap();
    let c = ReleaseVersion::parse("1.2.3.4").unwrap();
    assert_eq!(a.cmp(&b), Ordering::Less);
    assert_eq!(c.cmp(&b), Ordering::Greater);
    assert_eq!(b.cmp(&b.clone()), Ordering::Equal);
    assert_eq!(a.compare(&c), -1);
    assert_eq!(c.compare(&a), 1);
    assert_eq!(a.partial_cmp(&c), Some(Ordering::Less));
}

#[test]
fn revision_zero_prints_as_three_components() {
    let v = ReleaseVersion::parse("2.5.0").unwrap();
    assert_eq!(v.to_string(), "2.5.0");
    assert_eq!(v.as_semver().to_string(), "2.5.0");
    let r = ReleaseVersion::parse("2.5.0.7").unwrap();
    assert_eq!(r.as_semver().to_string(), "2.5.0");
    assert_eq!(r.revision(), 7);
}

#[test]
fn installed_version_prefers_the_trimmed_override() {
    assert_eq!(installed_version_text(None), VERSION);
    assert_eq!(installed_version_text(Some(" 1.2.3\n")), "1.2.3");
    assert_eq!(installed_version_text(Some("\u{3000}1.0.0.4\t")), "1.0.0.4");
    assert_eq!(installed_version_text(Some("  ")), "");
}

#[test]
fn strict_semver_text_parse() {
    let v = parse_version_text("1.2.3-alpha.1+build.5").unwrap();
    assert_eq!((v.major, v.minor, v.patch), (1, 2, 3));
    assert_eq!(v.pre, "alpha.1");
    assert_eq!(v.build, "build.5");
    assert_eq!(v.to_string(), "1.2.3-alpha.1+build.5");
    assert!(parse_version_text("1.0.0.1").is_none());
    assert!(parse_version_text("01.0.0").is_none());
    assert!(parse_version_text(" 1.0.0").is_none());
}
