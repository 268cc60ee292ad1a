use grok_zh::community_release::{CommunityArchiveKind, VerifiedAsset};
use grok_zh::digest::{sha256_hex, to_hex_lower, BoundedDigest};
use grok_zh::download::{allowed_github_url_parts, DownloadCheck, DownloadError};

fn asset(bytes: &[u8]) -> VerifiedAsset {
    VerifiedAsset {
        version: "1.0.6".to_string(),
        name: "grok-zh-1.0.6-windows-x86_64-gnu.zip".to_string(),
        download_url: "https://github.com/JoyElliot/grok-build-Chinese/releases/download/v1.0.6/grok-zh-1.0.6-windows-x86_64-gnu.zip".to_string(),
        size: bytes.len() as u64,
        sha256: sha256_hex(bytes),
        archive_kind: CommunityArchiveKind::WindowsZip,
    }
}

const FINAL_URL: &str = "https://release-assets.githubusercontent.com/file";

#[test]
fn a_complete_download_with_the_published_digest_is_accepted() {
    let body = b"release archive bytes";
    let a = asset(body);
    let mut check = DownloadCheck::start(&a, true, "200 OK", FINAL_URL, Some(body.len() as u64)).unwrap();
    check.absorb(&body[..7]).unwrap();
    check.absorb(&body[7..]).unwrap();
    assert_eq!(check.finish(), Ok(()));
}

#[test]
fn responses_are_refused_before_the_body() {
    let a = asset(b"abc");
    assert_eq!(
        DownloadCheck::start(&a, false, "404 Not Found", FINAL_URL, None).err(),
        Some(DownloadError::Status("404 Not Found".to_string()))
    );
    assert_eq!(
        DownloadCheck::start(&a, true, "200 OK", "https://example.com/file", None).err(),
        Some(DownloadError::UntrustedRedirect)
    );
    assert_eq!(
        DownloadCheck::start(&a, true, "200 OK", FINAL_URL, Some(4)).err(),
        Some(DownloadError::LengthMismatch)
    );
    assert!(DownloadCheck::start(&a, true, "200 OK", FINAL_URL, None).is_ok());
    assert_eq!(
        DownloadError::Status("404 Not Found".to_string()).message(),
        "GitHub release asset download returned 404 Not Found"
    );
}

#[test]
fn bodies_must_have_the_declared_size_and_digest() {
    let a = asset(b"abc");
    let mut long = DownloadCheck::start(&a, true, "200 OK", FINAL_URL, None).unwrap();
    assert_eq!(long.absorb(b"abcd"), Err(DownloadError::Overrun));
    let mut short = DownloadCheck::start(&a, true, "200 OK", FINAL_URL, None).unwrap();
    short.absorb(b"ab").unwrap();
    assert_eq!(short.finish(), Err(DownloadError::Truncated));
    let mut wrong = DownloadCheck::start(&a, true, "200 OK", FINAL_URL, None).unwrap();
    wrong.absorb(b"abd").unwrap();
    assert_eq!(wrong.finish(), Err(DownloadError::DigestMismatch));
}

#[test]
fn url_parts_policy() {
    assert!(allowed_github_url_parts("https", Some(443), Some("github.com")));
    assert!(!allowed_github_url_parts("https", Some(443), None));
    assert!(!allowed_github_url_parts("https", None, Some("github.com")));
    assert!(!allowed_github_url_parts("HTTPS", Some(443), Some("github.com")));
    assert!(allowed_github_url_parts("https", Some(443), Some("objects.githubusercontent.com")));
}

#[test]
fn sha256_and_hex_known_values() {
    assert_eq!(
        sha256_hex(b""),
        "e3b0c44298fc1c149afbf4c8996fb92427ae41e4649b934ca495991b7852b855"
    );
    assert_eq!(
        sha256_hex(b"abc"),
        "ba7816bf8f01cfea414140de5dae2223b00361a396177a9cb410ff61f20015ad"
    );
    assert_eq!(to_hex_lower(&[0x00, 0x0f, 0xa0, 0xff]), "000fa0ff");
    let mut stream = BoundedDigest::new(3, 2);
    assert!(stream.absorb(b"ab"));
    assert!(!stream.absorb(b"c"));
    assert_eq!(stream.finish(), None);
}
