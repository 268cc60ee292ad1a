use grok_zh::manifest::parse_inner_manifest;
use grok_zh::package::{
    expected_archive_names, is_allowed_unicode_package_name, is_safe_package_relative_path,
    normalized_package_name, ONE_CLICK_INSTALLER,
};
use grok_zh::package_error::PackageError;

fn digest(c: char) -> String {
    std::iter::repeat(c).take(64).collect()
}

#[test]
fn manifest_lists_files_in_line_order_with_lowercase_digests() {
    let text = format!("\u{feff}{}  a.txt\r\n{}  b.txt\n", digest('A'), digest('0'));
    let parsed = parse_inner_manifest(text.as_bytes(), &["a.txt", "b.txt"]).unwrap();
    assert_eq!(
        parsed,
        vec![
            ("a.txt".to_string(), digest('a')),
            ("b.txt".to_string(), digest('0')),
        ]
    );
}

#[test]
fn manifest_errors_name_the_offending_line() {
    let ok = digest('1');
    let cases: Vec<(String, PackageError)> = vec![
        (format!("{ok}  a.txt\n\n{ok}  b.txt"), PackageError::ManifestEmptyLine(2)),
        (format!("{ok} a.txt"), PackageError::ManifestLineFormat(1)),
        (format!("{}  a.txt", "g".repeat(64)), PackageError::ManifestLineDigest(1)),
        (format!("{}  a.txt", "1".repeat(63)), PackageError::ManifestLineDigest(1)),
        (format!("{ok}  c.txt"), PackageError::ManifestLineFilename(1)),
        (format!("{ok}  a.txt\n{ok}  a.txt"), PackageError::ManifestDuplicate),
        (format!("{ok}  a.txt"), PackageError::ManifestIncomplete),
    ];
    for (text, expected) in cases {
        assert_eq!(
            parse_inner_manifest(text.as_bytes(), &["a.txt", "b.txt"]),
            Err(expected),
            "{text:?}"
        );
    }
    assert_eq!(
        parse_inner_manifest(&[0xff, 0xfe], &["a.txt"]),
        Err(PackageError::ManifestNotUtf8)
    );
    assert_eq!(
        parse_inner_manifest(&vec![b'a'; 64 * 1024 + 1], &["a.txt"]),
        Err(PackageError::ManifestTooLarge)
    );
    assert_eq!(
        PackageError::ManifestEmptyLine(2).message(),
        "community release SHA256SUMS.txt contains an empty line at 2"
    );
    assert_eq!(
        PackageError::ManifestLineDigest(12).message(),
        "community release SHA256SUMS.txt line 12 has an invalid digest"
    );
}

#[test]
fn manifest_missing_required_file_is_named() {
    let ok = digest('1');
    let text = format!("{ok}  a.txt\n{ok}  b.txt");
    assert_eq!(
        parse_inner_manifest(text.as_bytes(), &["a.txt", "b.txt", "a.txt"]),
        Err(PackageError::ManifestIncomplete)
    );
    assert_eq!(
        parse_inner_manifest(text.as_bytes(), &["a.txt", "a.txt"]),
        Err(PackageError::ManifestLineFilename(2))
    );
}

#[test]
fn package_names_and_paths() {
    assert_eq!(normalized_package_name("RG.EXE"), "rg.exe");
    assert_eq!(normalized_package_name(ONE_CLICK_INSTALLER), ONE_CLICK_INSTALLER);
    assert!(is_allowed_unicode_package_name(ONE_CLICK_INSTALLER));
    assert!(!is_allowed_unicode_package_name("É.txt"));
    assert!(is_safe_package_relative_path("licenses/project/NOTICE"));
    for unsafe_path in ["", " a", "a ", "/a", "a\\b", "c:a", "a//b", "./a", "a/..", "a/"] {
        assert!(!is_safe_package_relative_path(unsafe_path), "{unsafe_path:?}");
    }
    assert_eq!(
        expected_archive_names(&["A.TXT", "b.txt"]),
        vec!["a.txt".to_string(), "b.txt".to_string(), "sha256sums.txt".to_string()]
    );
}
