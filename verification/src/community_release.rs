//! GitHub Releases rules of the community updater.
//!
//! The repository, API endpoints, asset naming and accepted platforms are
//! fixed policy. Community builds never consult the upstream npm, GitHub,
//! x.ai or GCS update sources. Network transfers happen outside this module;
//! it decides which release and which asset are acceptable.

use vstd::prelude::*;
use crate::product::{BuildTarget, TargetArch, TargetEnv, TargetOs, COMMUNITY_RELEASE_REPO};
use crate::semantic_version::{
    SemVer, SemVerSpec, compare_semver, parse_semver, semver_order, semver_parse, semver_text,
    semver_valid,
};
use crate::text::{
    all_hex, ascii_lower_all, chars_all_hex, chars_end_with, chars_of, chars_start_with,
    chars_to_ascii_lower, concat2, concat3, decimal, has_prefix, has_suffix, push_str,
    str_eq, string_from_chars, string_of, u64_to_decimal,
};

verus! {

/// Largest accepted release archive.
pub const MAX_ASSET_BYTES: u64 = 536870912;
/// Largest accepted `.sha256` sidecar.
pub const MAX_SIDECAR_BYTES: u64 = 4096;

/// A platform with community self-update support.
#[derive(Clone, Copy, Debug, PartialEq, Eq, Structural)]
pub enum CommunityPlatform {
    WindowsX86_64Gnu,
    MacosAarch64,
    LinuxX86_64Gnu,
}

/// The archive format of a platform's release asset.
#[derive(Clone, Copy, Debug, PartialEq, Eq, Structural)]
pub enum CommunityArchiveKind {
    WindowsZip,
    MacosTarGz,
    LinuxTarGz,
}

/// Why a release, an asset or a request was refused (abstract form).
pub enum ReleaseFailure {
    UnsupportedPlatform,
    UnsupportedChannel(Seq<char>),
    NoImmutableRelease(Seq<char>),
    NoCompatibleRelease(Seq<char>),
    InvalidVersion(Seq<char>),
    VersionNotCanonical(Seq<char>),
    VersionHasBuildMetadata(Seq<char>),
    DigestNotSha256,
    InvalidDigest,
    InvalidReleaseMetadata,
    TagMismatch,
    PredatesMacos(Seq<char>),
    PredatesLinux(Seq<char>),
    AssetSetMismatch,
    MissingAsset(Seq<char>),
    AssetSizeOutOfRange(Seq<char>),
    AssetUrlMismatch,
    ChecksumUrlMismatch,
    MissingAssetDigest(Seq<char>),
    MissingChecksumDigest,
    MissingSelectedDigest,
}

/// Why a release, an asset or a request was refused.
#[derive(Clone, Debug, PartialEq, Eq)]
pub enum ReleaseError {
    /// The build target has no community self-update support.
    UnsupportedPlatform,
    /// The update channel is neither `stable` nor `alpha`.
    UnsupportedChannel(String),
    /// No release of the channel qualifies.
    NoImmutableRelease(String),
    /// No release of the channel qualifies for this platform.
    NoCompatibleRelease(String),
    /// The version is not SemVer.
    InvalidVersion(String),
    /// The version is not written canonically, or carries build metadata.
    VersionNotCanonical(String),
    /// A requested version carries build metadata.
    VersionHasBuildMetadata(String),
    /// A digest is not of the form `sha256:...`.
    DigestNotSha256,
    /// A digest is not 64 hexadecimal digits.
    InvalidDigest,
    /// The release is mutable, a draft, or its tag and flags disagree.
    InvalidReleaseMetadata,
    /// The release tag is not `v` followed by the requested version.
    TagMismatch,
    /// The release is older than macOS self-update support.
    PredatesMacos(String),
    /// The release is older than Linux self-update support.
    PredatesLinux(String),
    /// The uploaded assets are not exactly the approved set.
    AssetSetMismatch,
    /// A required asset is absent.
    MissingAsset(String),
    /// An asset is empty or larger than allowed.
    AssetSizeOutOfRange(String),
    /// An asset URL is not the fixed download URL.
    AssetUrlMismatch,
    /// The checksum sidecar URL is not the fixed download URL.
    ChecksumUrlMismatch,
    /// An asset has no GitHub digest.
    MissingAssetDigest(String),
    /// The checksum sidecar has no GitHub digest.
    MissingChecksumDigest,
    /// The selected archive has no GitHub digest.
    MissingSelectedDigest,
}

impl View for ReleaseError {
    type V = ReleaseFailure;

    open spec fn view(&self) -> ReleaseFailure {
        match self {
            ReleaseError::UnsupportedPlatform => ReleaseFailure::UnsupportedPlatform,
            ReleaseError::UnsupportedChannel(s) => ReleaseFailure::UnsupportedChannel(s@),
            ReleaseError::NoImmutableRelease(s) => ReleaseFailure::NoImmutableRelease(s@),
            ReleaseError::NoCompatibleRelease(s) => ReleaseFailure::NoCompatibleRelease(s@),
            ReleaseError::InvalidVersion(s) => ReleaseFailure::InvalidVersion(s@),
            ReleaseError::VersionNotCanonical(s) => ReleaseFailure::VersionNotCanonical(s@),
            ReleaseError::VersionHasBuildMetadata(s) => ReleaseFailure::VersionHasBuildMetadata(s@),
            ReleaseError::DigestNotSha256 => ReleaseFailure::DigestNotSha256,
            ReleaseError::InvalidDigest => ReleaseFailure::InvalidDigest,
            ReleaseError::InvalidReleaseMetadata => ReleaseFailure::InvalidReleaseMetadata,
            ReleaseError::TagMismatch => ReleaseFailure::TagMismatch,
            ReleaseError::PredatesMacos(s) => ReleaseFailure::PredatesMacos(s@),
            ReleaseError::PredatesLinux(s) => ReleaseFailure::PredatesLinux(s@),
            ReleaseError::AssetSetMismatch => ReleaseFailure::AssetSetMismatch,
            ReleaseError::MissingAsset(s) => ReleaseFailure::MissingAsset(s@),
            ReleaseError::AssetSizeOutOfRange(s) => ReleaseFailure::AssetSizeOutOfRange(s@),
            ReleaseError::AssetUrlMismatch => ReleaseFailure::AssetUrlMismatch,
            ReleaseError::ChecksumUrlMismatch => ReleaseFailure::ChecksumUrlMismatch,
            ReleaseError::MissingAssetDigest(s) => ReleaseFailure::MissingAssetDigest(s@),
            ReleaseError::MissingChecksumDigest => ReleaseFailure::MissingChecksumDigest,
            ReleaseError::MissingSelectedDigest => ReleaseFailure::MissingSelectedDigest,
        }
    }
}

/// The user-facing message of a refusal.
pub open spec fn release_failure_text(f: ReleaseFailure) -> Seq<char> {
    match f {
        ReleaseFailure::UnsupportedPlatform =>
            "community self-update supports only x86_64-pc-windows-gnu, aarch64-apple-darwin, and x86_64-unknown-linux-gnu"@,
        ReleaseFailure::UnsupportedChannel(c) => "unsupported community release channel: "@ + c,
        ReleaseFailure::NoImmutableRelease(c) => "no immutable "@ + c
            + " release is available in "@ + COMMUNITY_RELEASE_REPO@,
        ReleaseFailure::NoCompatibleRelease(c) => "no immutable "@ + c
            + " release compatible with this platform is available in "@
            + COMMUNITY_RELEASE_REPO@,
        ReleaseFailure::InvalidVersion(v) => "invalid community release version: "@ + v,
        ReleaseFailure::VersionNotCanonical(v) => "community release version is not canonical: "@
            + v,
        ReleaseFailure::VersionHasBuildMetadata(v) =>
            "community release version must not contain build metadata: "@ + v,
        ReleaseFailure::DigestNotSha256 => "release asset digest is not SHA-256"@,
        ReleaseFailure::InvalidDigest => "release asset contains an invalid SHA-256 digest"@,
        ReleaseFailure::InvalidReleaseMetadata =>
            "release is mutable, draft, or has invalid metadata"@,
        ReleaseFailure::TagMismatch => "release tag and requested version do not match"@,
        ReleaseFailure::PredatesMacos(v) => "release "@ + v
            + " predates macOS community self-update support"@,
        ReleaseFailure::PredatesLinux(v) => "release "@ + v
            + " predates Linux community self-update support"@,
        ReleaseFailure::AssetSetMismatch =>
            "release assets do not match the exact approved platform asset set"@,
        ReleaseFailure::MissingAsset(n) => "release is missing "@ + n,
        ReleaseFailure::AssetSizeOutOfRange(n) =>
            "release asset size is outside the accepted range: "@ + n,
        ReleaseFailure::AssetUrlMismatch =>
            "release asset URL does not match the fixed community repository"@,
        ReleaseFailure::ChecksumUrlMismatch =>
            "release checksum URL does not match the fixed community repository"@,
        ReleaseFailure::MissingAssetDigest(n) =>
            "release asset is missing its GitHub SHA-256 digest: "@ + n,
        ReleaseFailure::MissingChecksumDigest =>
            "release checksum is missing its GitHub SHA-256 digest"@,
        ReleaseFailure::MissingSelectedDigest =>
            "release asset is missing its GitHub SHA-256 digest"@,
    }
}

impl ReleaseError {
    /// The user-facing message.
    pub fn message(&self) -> (r: String)
        ensures
            r@ == release_failure_text(self@),
    {
        match self {
            ReleaseError::UnsupportedPlatform => string_of(
                "community self-update supports only x86_64-pc-windows-gnu, aarch64-apple-darwin, and x86_64-unknown-linux-gnu",
            ),
            ReleaseError::UnsupportedChannel(c) => concat2(
                "unsupported community release channel: ",
                c.as_str(),
            ),
            ReleaseError::NoImmutableRelease(c) => {
                let mut r = concat3("no immutable ", c.as_str(), " release is available in ");
                push_str(&mut r, COMMUNITY_RELEASE_REPO);
                r
            },
            ReleaseError::NoCompatibleRelease(c) => {
                let mut r = concat3(
                    "no immutable ",
                    c.as_str(),
                    " release compatible with this platform is available in ",
                );
                push_str(&mut r, COMMUNITY_RELEASE_REPO);
                r
            },
            ReleaseError::InvalidVersion(v) => concat2(
                "invalid community release version: ",
                v.as_str(),
            ),
            ReleaseError::VersionNotCanonical(v) => concat2(
                "community release version is not canonical: ",
                v.as_str(),
            ),
            ReleaseError::VersionHasBuildMetadata(v) => concat2(
                "community release version must not contain build metadata: ",
                v.as_str(),
            ),
            ReleaseError::DigestNotSha256 => string_of("release asset digest is not SHA-256"),
            ReleaseError::InvalidDigest => string_of(
                "release asset contains an invalid SHA-256 digest",
            ),
            ReleaseError::InvalidReleaseMetadata => string_of(
                "release is mutable, draft, or has invalid metadata",
            ),
            ReleaseError::TagMismatch => string_of(
                "release tag and requested version do not match",
            ),
            ReleaseError::PredatesMacos(v) => concat3(
                "release ",
                v.as_str(),
                " predates macOS community self-update support",
            ),
            ReleaseError::PredatesLinux(v) => concat3(
                "release ",
                v.as_str(),
                " predates Linux community self-update support",
            ),
            ReleaseError::AssetSetMismatch => string_of(
                "release assets do not match the exact approved platform asset set",
            ),
            ReleaseError::MissingAsset(n) => concat2("release is missing ", n.as_str()),
            ReleaseError::AssetSizeOutOfRange(n) => concat2(
                "release asset size is outside the accepted range: ",
                n.as_str(),
            ),
            ReleaseError::AssetUrlMismatch => string_of(
                "release asset URL does not match the fixed community repository",
            ),
            ReleaseError::ChecksumUrlMismatch => string_of(
                "release checksum URL does not match the fixed community repository",
            ),
            ReleaseError::MissingAssetDigest(n) => concat2(
                "release asset is missing its GitHub SHA-256 digest: ",
                n.as_str(),
            ),
            ReleaseError::MissingChecksumDigest => string_of(
                "release checksum is missing its GitHub SHA-256 digest",
            ),
            ReleaseError::MissingSelectedDigest => string_of(
                "release asset is missing its GitHub SHA-256 digest",
            ),
        }
    }
}

/// The repository that owns every accepted update.
pub fn release_repo() -> (r: &'static str)
    ensures
        r@ == COMMUNITY_RELEASE_REPO@,
{
    COMMUNITY_RELEASE_REPO
}

/// The paginated release-listing endpoint (100 releases per page).
pub fn releases_api(page: usize) -> (r: String)
    ensures
        r@ == "https://api.github.com/repos/"@ + COMMUNITY_RELEASE_REPO@
            + "/releases?per_page=100&page="@ + decimal(page as nat),
{
    let mut r = concat3(
        "https://api.github.com/repos/",
        release_repo(),
        "/releases?per_page=100&page=",
    );
    let p = u64_to_decimal(page as u64);
    push_str(&mut r, p.as_str());
    r
}

/// The endpoint of the release tagged `v{version}`.
pub fn release_by_tag_api(version: &str) -> (r: String)
    ensures
        r@ == "https://api.github.com/repos/"@ + COMMUNITY_RELEASE_REPO@ + "/releases/tags/v"@
            + version@,
{
    let mut r = concat3("https://api.github.com/repos/", release_repo(), "/releases/tags/v");
    push_str(&mut r, version);
    r
}

/// The community platform of a build target, if it has one.
pub open spec fn platform_of(target: BuildTarget) -> Option<CommunityPlatform> {
    if target.is_windows_x86_64_gnu() {
        Some(CommunityPlatform::WindowsX86_64Gnu)
    } else if target.is_macos_aarch64() {
        Some(CommunityPlatform::MacosAarch64)
    } else if target.is_linux_x86_64_gnu() {
        Some(CommunityPlatform::LinuxX86_64Gnu)
    } else {
        None
    }
}

/// The community platform of the build target: x86_64 Windows GNU, aarch64
/// macOS or x86_64 Linux GNU; every other target is refused.
pub fn current_community_platform(target: BuildTarget) -> (r: Result<CommunityPlatform, ReleaseError>)
    ensures
        platform_of(target) matches Some(p) ==> r == Ok::<CommunityPlatform, ReleaseError>(p),
        platform_of(target) is None ==> r matches Err(ReleaseError::UnsupportedPlatform),
{
    if target.os == TargetOs::Windows && target.arch == TargetArch::X86_64 && target.env
        == TargetEnv::Gnu {
        Ok(CommunityPlatform::WindowsX86_64Gnu)
    } else if target.os == TargetOs::Macos && target.arch == TargetArch::Aarch64 {
        Ok(CommunityPlatform::MacosAarch64)
    } else if target.os == TargetOs::Linux && target.arch == TargetArch::X86_64 && target.env
        == TargetEnv::Gnu {
        Ok(CommunityPlatform::LinuxX86_64Gnu)
    } else {
        Err(ReleaseError::UnsupportedPlatform)
    }
}

/// A release version as the community accepts it in asset names: SemVer,
/// written canonically, without build metadata.
pub open spec fn canonical_version(version: Seq<char>) -> Result<SemVerSpec, ReleaseFailure> {
    match semver_parse(version) {
        None => Err(ReleaseFailure::InvalidVersion(version)),
        Some(v) => if semver_text(v) != version || v.build.len() > 0 {
            Err(ReleaseFailure::VersionNotCanonical(version))
        } else {
            Ok(v)
        },
    }
}

/// Checks that `version` is canonical SemVer without build metadata.
pub fn canonical_release_version(version: &str) -> (r: Result<SemVer, ReleaseError>)
    ensures
        canonical_version(version@) matches Ok(v) ==> r matches Ok(w) && w@ == v,
        canonical_version(version@) matches Err(f) ==> r matches Err(e) && e@ == f,
        r matches Ok(w) ==> semver_valid(w@),
{
    match parse_semver(version) {
        None => Err(ReleaseError::InvalidVersion(string_of(version))),
        Some(v) => {
            let text = v.to_string();
            if !str_eq(text.as_str(), version) || v.has_build() {
                Err(ReleaseError::VersionNotCanonical(string_of(version)))
            } else {
                Ok(v)
            }
        },
    }
}

/// The asset-name suffix of a platform.
pub open spec fn platform_suffix(p: CommunityPlatform) -> Seq<char> {
    match p {
        CommunityPlatform::WindowsX86_64Gnu => "-windows-x86_64-gnu.zip"@,
        CommunityPlatform::MacosAarch64 => "-macos-aarch64.tar.gz"@,
        CommunityPlatform::LinuxX86_64Gnu => "-linux-x86_64-gnu.tar.gz"@,
    }
}

/// `grok-zh-{version}{platform suffix}`.
pub open spec fn asset_name(p: CommunityPlatform, version: Seq<char>) -> Seq<char> {
    "grok-zh-"@ + version + platform_suffix(p)
}

/// The checksum sidecar name of an asset.
pub open spec fn sidecar_name(name: Seq<char>) -> Seq<char> {
    name + ".sha256"@
}

fn platform_suffix_str(p: CommunityPlatform) -> (r: &'static str)
    ensures
        r@ == platform_suffix(p),
{
    match p {
        CommunityPlatform::WindowsX86_64Gnu => "-windows-x86_64-gnu.zip",
        CommunityPlatform::MacosAarch64 => "-macos-aarch64.tar.gz",
        CommunityPlatform::LinuxX86_64Gnu => "-linux-x86_64-gnu.tar.gz",
    }
}

/// The release archive name for a platform and a canonical version.
pub fn release_asset_name_for(platform: CommunityPlatform, version: &str) -> (r: Result<
    String,
    ReleaseError,
>)
    ensures
        canonical_version(version@) is Ok ==> (r matches Ok(n) && n@ == asset_name(
            platform,
            version@,
        )),
        canonical_version(version@) matches Err(f) ==> r matches Err(e) && e@ == f,
{
    canonical_release_version(version)?;
    Ok(concat3("grok-zh-", version, platform_suffix_str(platform)))
}

/// The release archive name for the build target's platform.
pub fn release_asset_name(version: &str, target: BuildTarget) -> (r: Result<String, ReleaseError>)
    ensures
        platform_of(target) is None ==> r matches Err(ReleaseError::UnsupportedPlatform),
        forall|p: CommunityPlatform|
            platform_of(target) == Some(p) && canonical_version(version@) is Ok ==> (r matches Ok(
                n,
            ) && n@ == asset_name(p, version@)),
        forall|f: ReleaseFailure|
            platform_of(target) is Some && canonical_version(version@) == Err::<SemVerSpec, ReleaseFailure>(f) ==> (
            r matches Err(e) && e@ == f),
{
    let platform = current_community_platform(target)?;
    release_asset_name_for(platform, version)
}

/// Releases from 1.0.7 on publish macOS assets.
pub open spec fn includes_macos(v: SemVerSpec) -> bool {
    v.major > 1 || (v.major == 1 && (v.minor > 0 || (v.minor == 0 && v.patch >= 7)))
}

/// Linux assets first ship in the 1.0.8 pre-release line; every release from
/// 1.0.9 on publishes them (1.0.8 stable keeps the four-asset bridge set).
pub open spec fn includes_linux(v: SemVerSpec) -> bool {
    (v.major > 1 || (v.major == 1 && (v.minor > 0 || (v.minor == 0 && v.patch >= 9)))) || (
    v.major == 1 && v.minor == 0 && v.patch == 8 && v.pre.len() > 0)
}

/// macOS assets are published exactly by the releases whose
/// `(major, minor, patch)` is at least `(1, 0, 7)` in lexicographic order,
/// so support never lapses for a later release.
pub proof fn lemma_macos_support_from_1_0_7(v: SemVerSpec, w: SemVerSpec)
    ensures
        includes_macos(v) <==> (1 < v.major || (1 == v.major && (0 < v.minor || (0 == v.minor
            && 7 <= v.patch)))),
        includes_macos(v) && (v.major < w.major || (v.major == w.major && (v.minor < w.minor || (
        v.minor == w.minor && v.patch <= w.patch)))) ==> includes_macos(w),
{
}

/// Linux assets are published by every release whose `(major, minor,
/// patch)` is at least `(1, 0, 9)` in lexicographic order, by the 1.0.8
/// pre-releases, and by no earlier release.
pub proof fn lemma_linux_support_from_1_0_9(v: SemVerSpec)
    ensures
        (1 < v.major || (1 == v.major && (0 < v.minor || (0 == v.minor && 9 <= v.patch))))
            ==> includes_linux(v),
        (v.major == 1 && v.minor == 0 && v.patch == 8 && v.pre.len() > 0) ==> includes_linux(v),
        (v.major < 1 || (v.major == 1 && v.minor == 0 && v.patch < 8)) ==> !includes_linux(v),
        (v.major == 1 && v.minor == 0 && v.patch == 8 && v.pre.len() == 0) ==> !includes_linux(v),
{
}

/// Whether the release publishes macOS assets.
pub fn release_includes_macos_assets(version: &SemVer) -> (r: bool)
    ensures
        r == includes_macos(version@),
{
    version.major > 1 || (version.major == 1 && (version.minor > 0 || (version.minor == 0
        && version.patch >= 7)))
}

/// Whether the release publishes Linux assets.
pub fn release_includes_linux_assets(version: &SemVer) -> (r: bool)
    ensures
        r == includes_linux(version@),
{
    let at_least_109 = version.major > 1 || (version.major == 1 && (version.minor > 0 || (
    version.minor == 0 && version.patch >= 9)));
    at_least_109 || (version.major == 1 && version.minor == 0 && version.patch == 8
        && version.is_prerelease())
}

/// The exact set of assets a release must publish, in sorted order: for each
/// supported platform (Linux, macOS, Windows — the order of their names) the
/// archive followed by its `.sha256` sidecar.
pub open spec fn expected_names(v: SemVerSpec, version: Seq<char>) -> Seq<Seq<char>> {
    let linux = asset_name(CommunityPlatform::LinuxX86_64Gnu, version);
    let macos = asset_name(CommunityPlatform::MacosAarch64, version);
    let windows = asset_name(CommunityPlatform::WindowsX86_64Gnu, version);
    (if includes_linux(v) {
        seq![linux, sidecar_name(linux)]
    } else {
        Seq::<Seq<char>>::empty()
    }) + (if includes_macos(v) {
        seq![macos, sidecar_name(macos)]
    } else {
        Seq::<Seq<char>>::empty()
    }) + seq![windows, sidecar_name(windows)]
}

fn push_asset_pair(names: &mut Vec<String>, platform: CommunityPlatform, version: &str)
    ensures
        final(names)@.len() == old(names)@.len() + 2,
        forall|k: int| 0 <= k < old(names)@.len() ==> #[trigger] final(names)@[k] == old(names)@[k],
        final(names)@[old(names)@.len() as int]@ == asset_name(platform, version@),
        final(names)@[old(names)@.len() as int + 1]@ == sidecar_name(asset_name(platform, version@)),
{
    let name = concat3("grok-zh-", version, platform_suffix_str(platform));
    let sidecar = concat2(name.as_str(), ".sha256");
    names.push(name);
    names.push(sidecar);
}

/// The exact approved asset names of a release, sorted.
pub fn expected_release_asset_names(version: &str) -> (r: Result<Vec<String>, ReleaseError>)
    ensures
        canonical_version(version@) matches Ok(v) ==> r matches Ok(names) && names@.len()
            == expected_names(v, version@).len() && forall|k: int|
            0 <= k < names@.len() ==> #[trigger] names@[k]@ == expected_names(v, version@)[k],
        canonical_version(version@) matches Err(f) ==> r matches Err(e) && e@ == f,
{
    let parsed = canonical_release_version(version)?;
    let mut names: Vec<String> = Vec::new();
    if release_includes_linux_assets(&parsed) {
        push_asset_pair(&mut names, CommunityPlatform::LinuxX86_64Gnu, version);
    }
    let after_linux = names.len();
    if release_includes_macos_assets(&parsed) {
        push_asset_pair(&mut names, CommunityPlatform::MacosAarch64, version);
    }
    let after_macos = names.len();
    push_asset_pair(&mut names, CommunityPlatform::WindowsX86_64Gnu, version);
    proof {
        let e = expected_names(parsed@, version@);
        assert forall|k: int| 0 <= k < names@.len() implies #[trigger] names@[k]@ == e[k] by {
            if k < after_linux {
            } else if k < after_macos {
            } else {
            }
        }
    }
    Ok(names)
}

/// A GitHub asset digest: `sha256:` followed by 64 hexadecimal digits.
pub open spec fn digest_hex(value: Seq<char>) -> Result<Seq<char>, ReleaseFailure> {
    if !has_prefix(value, "sha256:"@) {
        Err(ReleaseFailure::DigestNotSha256)
    } else {
        let d = value.skip("sha256:"@.len() as int);
        if d.len() != 64 || !all_hex(d) {
            Err(ReleaseFailure::InvalidDigest)
        } else {
            Ok(ascii_lower_all(d))
        }
    }
}

/// A GitHub digest is `sha256:` followed by exactly 64 hexadecimal digits;
/// such a digest is always accepted, and what is accepted is 64 lower-case
/// hexadecimal digits.
pub proof fn lemma_sha256_digests(d: Seq<char>, value: Seq<char>)
    ensures
        (d.len() == 64 && all_hex(d)) ==> digest_hex("sha256:"@ + d) == Ok::<
            Seq<char>,
            ReleaseFailure,
        >(ascii_lower_all(d)),
        digest_hex(value) matches Ok(h) ==> h.len() == 64 && forall|i: int|
            0 <= i < h.len() ==> ('0' <= #[trigger] h[i] <= '9' || 'a' <= h[i] <= 'f'),
{
    reveal_strlit("sha256:");
    let v = "sha256:"@ + d;
    assert(v.take(7) =~= "sha256:"@);
    assert(v.skip(7) =~= d);
    if let Ok(h) = digest_hex(value) {
        let e = value.skip(7);
        assert forall|i: int| 0 <= i < h.len() implies ('0' <= #[trigger] h[i] <= '9' || 'a' <= h[i]
            <= 'f') by {
            assert(crate::text::is_hex(e[i]));
        }
    }
}

/// Reads a GitHub `sha256:<hex>` digest, returning the lower-case hex.
pub fn parse_sha256_digest(value: &str) -> (r: Result<String, ReleaseError>)
    ensures
        digest_hex(value@) matches Ok(d) ==> r matches Ok(s) && s@ == d,
        digest_hex(value@) matches Err(f) ==> r matches Err(e) && e@ == f,
{
    let chars = chars_of(value);
    let prefix = chars_of("sha256:");
    if !chars_start_with(chars.as_slice(), prefix.as_slice()) {
        return Err(ReleaseError::DigestNotSha256);
    }
    let digest = vstd::slice::slice_subrange(chars.as_slice(), prefix.len(), chars.len());
    assert(digest@ =~= value@.skip("sha256:"@.len() as int));
    if digest.len() != 64 || !chars_all_hex(digest) {
        return Err(ReleaseError::InvalidDigest);
    }
    let lower = chars_to_ascii_lower(digest);
    Ok(string_from_chars(lower.as_slice()))
}

} // verus!

verus! {

/// An asset of a GitHub release (abstract form).
pub struct ApiAssetSpec {
    pub name: Seq<char>,
    pub url: Seq<char>,
    pub size: u64,
    pub digest: Option<Seq<char>>,
    pub state: Seq<char>,
}

/// An asset of a GitHub release, as the Releases API describes it.
#[derive(Clone, Debug)]
pub struct ApiAsset {
    pub name: String,
    pub browser_download_url: String,
    pub size: u64,
    /// `sha256:<hex>` as GitHub computes it, when present.
    pub digest: Option<String>,
    /// `uploaded` once the upload completed.
    pub state: String,
}

impl View for ApiAsset {
    type V = ApiAssetSpec;

    open spec fn view(&self) -> ApiAssetSpec {
        ApiAssetSpec {
            name: self.name@,
            url: self.browser_download_url@,
            size: self.size,
            digest: match self.digest {
                Some(d) => Some(d@),
                None => None,
            },
            state: self.state@,
        }
    }
}

/// The abstract forms of a list of assets.
pub open spec fn assets_view(s: Seq<ApiAsset>) -> Seq<ApiAssetSpec> {
    s.map_values(|a: ApiAsset| a@)
}

/// A GitHub release (abstract form).
pub struct ApiReleaseSpec {
    pub tag_name: Seq<char>,
    pub draft: bool,
    pub prerelease: bool,
    pub immutable: bool,
    pub assets: Seq<ApiAssetSpec>,
}

/// A GitHub release, as the Releases API describes it.
#[derive(Clone, Debug)]
pub struct ApiRelease {
    pub tag_name: String,
    pub draft: bool,
    pub prerelease: bool,
    /// Immutable releases cannot be edited after publication.
    pub immutable: bool,
    pub assets: Vec<ApiAsset>,
}

impl View for ApiRelease {
    type V = ApiReleaseSpec;

    open spec fn view(&self) -> ApiReleaseSpec {
        ApiReleaseSpec {
            tag_name: self.tag_name@,
            draft: self.draft,
            prerelease: self.prerelease,
            immutable: self.immutable,
            assets: assets_view(self.assets@),
        }
    }
}

/// The abstract forms of a list of releases.
pub open spec fn releases_view(rs: Seq<ApiRelease>) -> Seq<ApiReleaseSpec> {
    rs.map_values(|x: ApiRelease| x@)
}

/// The version a release stands for: published (not a draft), immutable,
/// tagged `v` + SemVer without build metadata, and marked as a pre-release
/// exactly when the version is one.
pub open spec fn release_version_of(r: ApiReleaseSpec) -> Option<SemVerSpec> {
    if r.draft || !r.immutable {
        None
    } else if !has_prefix(r.tag_name, seq!['v']) {
        None
    } else {
        match semver_parse(r.tag_name.skip(1)) {
            None => None,
            Some(v) => if v.build.len() > 0 || r.prerelease != (v.pre.len() > 0) {
                None
            } else {
                Some(v)
            },
        }
    }
}

/// The version of the release at `i`.
pub open spec fn version_at(rs: Seq<ApiReleaseSpec>, i: int) -> Option<SemVerSpec> {
    release_version_of(rs[i])
}

/// Whether the release at `i` may be offered on the channel (`stable`
/// excludes pre-releases).
pub open spec fn eligible_at(rs: Seq<ApiReleaseSpec>, i: int, stable: bool) -> bool {
    version_at(rs, i) matches Some(v) && !(stable && v.pre.len() > 0)
}

/// The release at `i`, with version `v`, is the latest of those satisfying
/// `ok`: every other one orders at or below it, and those after it strictly
/// below (the last of equal maxima wins).
pub open spec fn is_latest(
    rs: Seq<ApiReleaseSpec>,
    ok: spec_fn(int) -> bool,
    i: int,
    v: SemVerSpec,
) -> bool {
    &&& 0 <= i < rs.len()
    &&& ok(i)
    &&& version_at(rs, i) == Some(v)
    &&& forall|j: int|
        0 <= j < rs.len() && j != i && #[trigger] ok(j) ==> semver_order(
            version_at(rs, j)->0,
            v,
        ) <= 0
    &&& forall|j: int|
        i < j < rs.len() && #[trigger] ok(j) ==> semver_order(version_at(rs, j)->0, v) < 0
}

/// Only a published, immutable release tagged `v` followed by SemVer
/// without build metadata, and marked as a pre-release exactly when its
/// version is one, stands for a version; every such release does. The
/// `stable` channel offers exactly the eligible non-pre-releases, and the
/// `alpha` channel everything `stable` offers and the pre-releases too.
pub proof fn lemma_release_eligibility(rs: Seq<ApiReleaseSpec>, i: int, t: Seq<char>, v: SemVerSpec)
    requires
        0 <= i < rs.len(),
    ensures
        release_version_of(rs[i]) == Some(v) ==> (!rs[i].draft && rs[i].immutable && rs[i].tag_name.len()
            > 0 && rs[i].tag_name[0] == 'v' && semver_parse(rs[i].tag_name.skip(1)) == Some(v)
            && v.build.len() == 0 && rs[i].prerelease == (v.pre.len() > 0)),
        (!rs[i].draft && rs[i].immutable && rs[i].tag_name == seq!['v'] + t && semver_parse(t) == Some(v)
            && v.build.len() == 0 && rs[i].prerelease == (v.pre.len() > 0)) ==> release_version_of(
            rs[i],
        ) == Some(v),
        eligible_at(rs, i, true) ==> eligible_at(rs, i, false) && version_at(rs, i)->0.pre.len()
            == 0,
        eligible_at(rs, i, false) && version_at(rs, i)->0.pre.len() == 0 ==> eligible_at(rs, i, true),
{
    let r = rs[i];
    if release_version_of(r) == Some(v) {
        assert(r.tag_name.take(1) == seq!['v']);
        assert(r.tag_name[0] == r.tag_name.take(1)[0]);
    }
    if r.tag_name == seq!['v'] + t {
        assert(r.tag_name.take(1) =~= seq!['v']);
        assert(r.tag_name.skip(1) =~= t);
    }
}

/// Reads the version of a release (see [`release_version_of`]).
pub fn parse_release_version(release: &ApiRelease) -> (r: Option<SemVer>)
    ensures
        r is Some <==> release_version_of(release@) is Some,
        r matches Some(v) ==> release_version_of(release@) == Some(v@) && semver_valid(v@),
{
    if release.draft || !release.immutable {
        return None;
    }
    let tag = chars_of(release.tag_name.as_str());
    if tag.len() == 0 || tag[0] != 'v' {
        assert(!has_prefix(release.tag_name@, seq!['v'])) by {
            if tag@.len() > 0 {
                assert(release.tag_name@.take(1)[0] == tag@[0]);
            }
        }
        return None;
    }
    assert(release.tag_name@.take(1) =~= seq!['v']);
    let rest = vstd::slice::slice_subrange(tag.as_slice(), 1, tag.len());
    let text = string_from_chars(rest);
    assert(text@ =~= release.tag_name@.skip(1));
    match parse_semver(text.as_str()) {
        None => None,
        Some(v) => {
            if v.has_build() || release.prerelease != v.is_prerelease() {
                None
            } else {
                Some(v)
            }
        },
    }
}

/// Whether `channel` is a supported channel (`stable` or `alpha`).
pub open spec fn channel_supported(channel: Seq<char>) -> bool {
    channel == "stable"@ || channel == "alpha"@
}

/// Whether the channel is `stable`.
pub open spec fn stable_channel(channel: Seq<char>) -> bool {
    channel == "stable"@
}

/// Picks the latest release of the channel: among published, immutable
/// releases with consistent metadata (and, on `stable`, no pre-releases),
/// the highest version, the last one listed among equal versions. Returns
/// its index and version.
pub fn select_latest_release(releases: &[ApiRelease], channel: &str) -> (r: Result<
    (usize, SemVer),
    ReleaseError,
>)
    ensures
        !channel_supported(channel@) ==> (r matches Err(e) && e@
            == ReleaseFailure::UnsupportedChannel(channel@)),
        channel_supported(channel@) && !(exists|j: int|
            0 <= j < releases@.len() && #[trigger] eligible_at(
                releases_view(releases@),
                j,
                stable_channel(channel@),
            )) ==> (r matches Err(e) && e@ == ReleaseFailure::NoImmutableRelease(channel@)),
        r matches Ok((i, v)) ==> channel_supported(channel@) && is_latest(
            releases_view(releases@),
            |j: int|
                eligible_at(releases_view(releases@), j, stable_channel(channel@)),
            i as int,
            v@,
        ),
        channel_supported(channel@) && (exists|j: int|
            0 <= j < releases@.len() && #[trigger] eligible_at(
                releases_view(releases@),
                j,
                stable_channel(channel@),
            )) ==> r is Ok,
{
    let ghost rs = releases_view(releases@);
    let stable = str_eq(channel, "stable");
    let alpha = str_eq(channel, "alpha");
    if !stable && !alpha {
        return Err(ReleaseError::UnsupportedChannel(string_of(channel)));
    }
    let ghost ok = |j: int| eligible_at(rs, j, stable);
    let mut best: Option<SemVer> = None;
    let mut best_index: usize = 0;
    let mut i: usize = 0;
    while i < releases.len()
        invariant
            i <= releases@.len(),
            rs == releases_view(releases@),
            stable == stable_channel(channel@),
            ok == (|j: int| eligible_at(rs, j, stable)),
            forall|j: int| 0 <= j < i ==> (#[trigger] version_at(rs, j) matches Some(v) ==> semver_valid(v)),
            best is None <==> !(exists|j: int| 0 <= j < i && #[trigger] ok(j)),
            best matches Some(b) ==> {
                &&& best_index < i
                &&& ok(best_index as int)
                &&& version_at(rs, best_index as int) == Some(b@)
                &&& semver_valid(b@)
                &&& forall|j: int|
                    0 <= j < i && j != best_index && #[trigger] ok(j) ==> semver_order(
                        version_at(rs, j)->0,
                        b@,
                    ) <= 0
                &&& forall|j: int|
                    best_index < j < i && #[trigger] ok(j) ==> semver_order(
                        version_at(rs, j)->0,
                        b@,
                    ) < 0
            },
        decreases releases@.len() - i,
    {
        assert(rs[i as int] == releases@[i as int]@);
        match parse_release_version(&releases[i]) {
            None => {
                assert(!ok(i as int));
            },
            Some(v) => {
                if stable && v.is_prerelease() {
                    assert(!ok(i as int));
                } else {
                    assert(ok(i as int));
                    match &best {
                        None => {
                            best = Some(v);
                            best_index = i;
                        },
                        Some(b) => {
                            let c = compare_semver(b, &v);
                            if c <= 0 {
                                best = Some(v);
                                best_index = i;
                            }
                        },
                    }
                }
            },
        }
        i = i + 1;
    }
    proof {
        if exists|j: int| 0 <= j < releases@.len() && #[trigger] eligible_at(rs, j, stable) {
            let j = choose|j: int| 0 <= j < releases@.len() && #[trigger] eligible_at(rs, j, stable);
            assert(ok(j));
        }
    }
    match best {
        None => Err(ReleaseError::NoImmutableRelease(string_of(channel))),
        Some(b) => Ok((best_index, b)),
    }
}

} // verus!

verus! {

/// An asset that passed every check, ready to download.
pub struct VerifiedAssetSpec {
    pub version: Seq<char>,
    pub name: Seq<char>,
    pub download_url: Seq<char>,
    pub size: u64,
    pub sha256: Seq<char>,
    pub archive_kind: CommunityArchiveKind,
}

/// The platform archive of a release that passed every check: where to
/// download it, how large it is, and its lower-case SHA-256.
#[derive(Clone, Debug)]
pub struct VerifiedAsset {
    pub version: String,
    pub name: String,
    pub download_url: String,
    pub size: u64,
    pub sha256: String,
    pub archive_kind: CommunityArchiveKind,
}

impl View for VerifiedAsset {
    type V = VerifiedAssetSpec;

    open spec fn view(&self) -> VerifiedAssetSpec {
        VerifiedAssetSpec {
            version: self.version@,
            name: self.name@,
            download_url: self.download_url@,
            size: self.size,
            sha256: self.sha256@,
            archive_kind: self.archive_kind,
        }
    }
}

/// The fixed download URL of an asset of the release `v{version}`.
pub open spec fn download_url(version: Seq<char>, name: Seq<char>) -> Seq<char> {
    "https://github.com/"@ + COMMUNITY_RELEASE_REPO@ + "/releases/download/v"@ + version + "/"@
        + name
}

/// The first asset named `name`.
pub open spec fn first_named(s: Seq<ApiAssetSpec>, name: Seq<char>) -> Option<ApiAssetSpec>
    decreases s.len(),
{
    if s.len() == 0 {
        None
    } else {
        match first_named(s.drop_last(), name) {
            Some(a) => Some(a),
            None => if s.last().name == name {
                Some(s.last())
            } else {
                None
            },
        }
    }
}

/// How many assets are named `name`.
pub open spec fn count_named(s: Seq<ApiAssetSpec>, name: Seq<char>) -> nat
    decreases s.len(),
{
    if s.len() == 0 {
        0
    } else {
        count_named(s.drop_last(), name) + if s.last().name == name {
            1nat
        } else {
            0nat
        }
    }
}

/// The uploaded assets are exactly the expected ones: as many assets as
/// expected names, every asset uploaded, every expected name carried by
/// exactly one asset. (With distinct expected names this is the same as the
/// sorted list of uploaded names being the sorted expected list.)
pub open spec fn asset_set_ok(s: Seq<ApiAssetSpec>, expected: Seq<Seq<char>>) -> bool {
    &&& s.len() == expected.len()
    &&& forall|i: int| 0 <= i < s.len() ==> (#[trigger] s[i]).state == "uploaded"@
    &&& forall|k: int| 0 <= k < expected.len() ==> count_named(s, #[trigger] expected[k]) == 1
}

/// The size limit of an asset: sidecars are small, archives bounded.
pub open spec fn size_limit(name: Seq<char>) -> u64 {
    if has_suffix(name, ".sha256"@) {
        MAX_SIDECAR_BYTES
    } else {
        MAX_ASSET_BYTES
    }
}

/// The first failing check among the expected assets from index `k` on:
/// present, non-empty and within its size limit, at its fixed URL, with a
/// valid GitHub SHA-256 digest.
pub open spec fn asset_failure(
    s: Seq<ApiAssetSpec>,
    version: Seq<char>,
    expected: Seq<Seq<char>>,
    k: nat,
) -> Option<ReleaseFailure>
    decreases expected.len() - k,
{
    if k >= expected.len() {
        None
    } else {
        let n = expected[k as int];
        match first_named(s, n) {
            None => Some(ReleaseFailure::MissingAsset(n)),
            Some(a) => if a.size == 0 || a.size > size_limit(n) {
                Some(ReleaseFailure::AssetSizeOutOfRange(n))
            } else if a.url != download_url(version, n) {
                Some(ReleaseFailure::AssetUrlMismatch)
            } else {
                match a.digest {
                    None => Some(ReleaseFailure::MissingAssetDigest(n)),
                    Some(d) => match digest_hex(d) {
                        Err(f) => Some(f),
                        Ok(_) => asset_failure(s, version, expected, k + 1),
                    },
                }
            },
        }
    }
}

/// The archive format of a platform.
pub open spec fn archive_kind_of(p: CommunityPlatform) -> CommunityArchiveKind {
    match p {
        CommunityPlatform::WindowsX86_64Gnu => CommunityArchiveKind::WindowsZip,
        CommunityPlatform::MacosAarch64 => CommunityArchiveKind::MacosTarGz,
        CommunityPlatform::LinuxX86_64Gnu => CommunityArchiveKind::LinuxTarGz,
    }
}

/// The selected archive and its sidecar, once the asset set passed.
pub open spec fn selected_asset(
    s: Seq<ApiAssetSpec>,
    version: Seq<char>,
    name: Seq<char>,
    platform: CommunityPlatform,
) -> Result<VerifiedAssetSpec, ReleaseFailure> {
    match first_named(s, name) {
        None => Err(ReleaseFailure::MissingAsset(name)),
        Some(a) => match first_named(s, sidecar_name(name)) {
            None => Err(ReleaseFailure::MissingAsset(sidecar_name(name))),
            Some(sc) => if a.url != download_url(version, name) {
                Err(ReleaseFailure::AssetUrlMismatch)
            } else if sc.url != download_url(version, sidecar_name(name)) {
                Err(ReleaseFailure::ChecksumUrlMismatch)
            } else {
                match sc.digest {
                    None => Err(ReleaseFailure::MissingChecksumDigest),
                    Some(d) => match digest_hex(d) {
                        Err(f) => Err(f),
                        Ok(_) => match a.digest {
                            None => Err(ReleaseFailure::MissingSelectedDigest),
                            Some(d2) => match digest_hex(d2) {
                                Err(f) => Err(f),
                                Ok(h) => Ok(
                                    VerifiedAssetSpec {
                                        version: version,
                                        name: name,
                                        download_url: download_url(version, name),
                                        size: a.size,
                                        sha256: h,
                                        archive_kind: archive_kind_of(platform),
                                    },
                                ),
                            },
                        },
                    },
                }
            },
        },
    }
}

/// The platform archive of `release` for `version`, or the first reason to
/// refuse it: the release must be published, immutable and consistent, be
/// tagged `v{version}` with `version` canonical, include the platform, carry
/// exactly the approved asset set, and every asset must be in range, at its
/// fixed URL and carry a SHA-256 digest.
pub open spec fn asset_selection(
    rel: ApiReleaseSpec,
    version: Seq<char>,
    platform: CommunityPlatform,
) -> Result<VerifiedAssetSpec, ReleaseFailure> {
    match release_version_of(rel) {
        None => Err(ReleaseFailure::InvalidReleaseMetadata),
        Some(parsed) => if semver_text(parsed) != version || rel.tag_name != seq!['v'] + version {
            Err(ReleaseFailure::TagMismatch)
        } else {
            match canonical_version(version) {
                Err(f) => Err(f),
                Ok(cv) => if platform == CommunityPlatform::MacosAarch64 && !includes_macos(
                    parsed,
                ) {
                    Err(ReleaseFailure::PredatesMacos(version))
                } else if platform == CommunityPlatform::LinuxX86_64Gnu && !includes_linux(
                    parsed,
                ) {
                    Err(ReleaseFailure::PredatesLinux(version))
                } else if !asset_set_ok(rel.assets, expected_names(cv, version)) {
                    Err(ReleaseFailure::AssetSetMismatch)
                } else {
                    match asset_failure(rel.assets, version, expected_names(cv, version), 0) {
                        Some(f) => Err(f),
                        None => selected_asset(
                            rel.assets,
                            version,
                            asset_name(platform, version),
                            platform,
                        ),
                    }
                },
            }
        },
    }
}

proof fn lemma_first_named_prefix(s: Seq<ApiAssetSpec>, name: Seq<char>, k: int)
    requires
        0 <= k <= s.len(),
        first_named(s.take(k), name) is Some,
    ensures
        first_named(s, name) == first_named(s.take(k), name),
    decreases s.len(),
{
    if k < s.len() {
        assert(s.drop_last().take(k) =~= s.take(k));
        lemma_first_named_prefix(s.drop_last(), name, k);
    } else {
        assert(s.take(k) =~= s);
    }
}

fn find_named(assets: &Vec<ApiAsset>, name: &str) -> (r: Option<usize>)
    ensures
        first_named(assets_view(assets@), name@) is None <==> r is None,
        r matches Some(i) ==> i < assets@.len() && first_named(assets_view(assets@), name@) == Some(
            assets@[i as int]@,
        ),
{
    let ghost s = assets_view(assets@);
    let mut i: usize = 0;
    while i < assets.len()
        invariant
            i <= assets@.len(),
            s == assets_view(assets@),
            first_named(s.take(i as int), name@) is None,
        decreases assets@.len() - i,
    {
        assert(s.take(i + 1).drop_last() =~= s.take(i as int));
        assert(s.take(i + 1).last() == assets@[i as int]@);
        if str_eq(assets[i].name.as_str(), name) {
            proof {
                lemma_first_named_prefix(s, name@, i + 1);
            }
            return Some(i);
        }
        i = i + 1;
    }
    assert(s.take(s.len() as int) =~= s);
    None
}

fn count_named_exec(assets: &Vec<ApiAsset>, name: &str) -> (r: usize)
    ensures
        r == count_named(assets_view(assets@), name@),
{
    let ghost s = assets_view(assets@);
    let mut n: usize = 0;
    let mut i: usize = 0;
    while i < assets.len()
        invariant
            i <= assets@.len(),
            s == assets_view(assets@),
            n == count_named(s.take(i as int), name@),
            n <= i,
        decreases assets@.len() - i,
    {
        assert(s.take(i + 1).drop_last() =~= s.take(i as int));
        assert(s.take(i + 1).last() == assets@[i as int]@);
        if str_eq(assets[i].name.as_str(), name) {
            n = n + 1;
        }
        i = i + 1;
    }
    assert(s.take(s.len() as int) =~= s);
    n
}

fn download_url_of(version: &str, name: &str) -> (r: String)
    ensures
        r@ == download_url(version@, name@),
{
    let mut r = concat3("https://github.com/", release_repo(), "/releases/download/v");
    push_str(&mut r, version);
    push_str(&mut r, "/");
    push_str(&mut r, name);
    r
}

fn check_assets(assets: &Vec<ApiAsset>, version: &str, expected: &Vec<String>) -> (r: Result<
    (),
    ReleaseError,
>)
    ensures
        asset_failure(
            assets_view(assets@),
            version@,
            expected@.map_values(|n: String| n@),
            0,
        ) matches Some(f) ==> r matches Err(e) && e@ == f,
        asset_failure(assets_view(assets@), version@, expected@.map_values(|n: String| n@), 0)
            is None ==> r is Ok,
{
    let ghost s = assets_view(assets@);
    let ghost ex = expected@.map_values(|n: String| n@);
    let mut k: usize = 0;
    while k < expected.len()
        invariant
            k <= expected@.len(),
            s == assets_view(assets@),
            ex == expected@.map_values(|n: String| n@),
            asset_failure(s, version@, ex, 0) == asset_failure(s, version@, ex, k as nat),
        decreases expected@.len() - k,
    {
        let n = expected[k].as_str();
        assert(ex[k as int] == n@);
        let idx = match find_named(assets, n) {
            None => {
                return Err(ReleaseError::MissingAsset(string_of(n)));
            },
            Some(i) => i,
        };
        let a = &assets[idx];
        let sidecar_suffix = chars_of(".sha256");
        let nchars = chars_of(n);
        let limit = if chars_end_with(nchars.as_slice(), sidecar_suffix.as_slice()) {
            MAX_SIDECAR_BYTES
        } else {
            MAX_ASSET_BYTES
        };
        if a.size == 0 || a.size > limit {
            return Err(ReleaseError::AssetSizeOutOfRange(string_of(n)));
        }
        let url = download_url_of(version, n);
        if !str_eq(a.browser_download_url.as_str(), url.as_str()) {
            return Err(ReleaseError::AssetUrlMismatch);
        }
        match &a.digest {
            None => {
                return Err(ReleaseError::MissingAssetDigest(string_of(n)));
            },
            Some(d) => {
                parse_sha256_digest(d.as_str())?;
            },
        }
        k = k + 1;
    }
    Ok(())
}

/// Checks a release against the exact platform asset contract and returns
/// its verified platform archive (see [`asset_selection`]).
pub fn select_asset_for_platform(
    release: &ApiRelease,
    version: &str,
    platform: CommunityPlatform,
) -> (r: Result<VerifiedAsset, ReleaseError>)
    ensures
        asset_selection(release@, version@, platform) matches Ok(a) ==> r matches Ok(x) && x@
            == a,
        asset_selection(release@, version@, platform) matches Err(f) ==> r matches Err(e) && e@
            == f,
{
    let ghost s = assets_view(release.assets@);
    let parsed = match parse_release_version(release) {
        None => {
            return Err(ReleaseError::InvalidReleaseMetadata);
        },
        Some(p) => p,
    };
    let ptext = parsed.to_string();
    let mut tag = String::new();
    push_char_v(&mut tag);
    push_str(&mut tag, version);
    assert(tag@ =~= seq!['v'] + version@);
    if !str_eq(ptext.as_str(), version) || !str_eq(release.tag_name.as_str(), tag.as_str()) {
        return Err(ReleaseError::TagMismatch);
    }
    let name = release_asset_name_for(platform, version)?;
    if platform == CommunityPlatform::MacosAarch64 && !release_includes_macos_assets(&parsed) {
        return Err(ReleaseError::PredatesMacos(string_of(version)));
    }
    if platform == CommunityPlatform::LinuxX86_64Gnu && !release_includes_linux_assets(&parsed) {
        return Err(ReleaseError::PredatesLinux(string_of(version)));
    }
    let sidecar = concat2(name.as_str(), ".sha256");
    let expected = expected_release_asset_names(version)?;
    let ghost ex = expected@.map_values(|n: String| n@);
    let ghost cv = canonical_version(version@)->Ok_0;
    assert(ex =~= expected_names(cv, version@));
    let ghost rest = match asset_failure(s, version@, ex, 0) {
        Some(f) => Err(f),
        None => selected_asset(s, version@, asset_name(platform, version@), platform),
    };
    assert(asset_selection(release@, version@, platform) == if !asset_set_ok(s, ex) {
        Err(ReleaseFailure::AssetSetMismatch)
    } else {
        rest
    });
    // The uploaded asset set must be exactly the expected one.
    if release.assets.len() != expected.len() {
        return Err(ReleaseError::AssetSetMismatch);
    }
    let mut i: usize = 0;
    while i < release.assets.len()
        invariant
            i <= release.assets@.len(),
            s == assets_view(release.assets@),
            forall|j: int| 0 <= j < i ==> (#[trigger] s[j]).state == "uploaded"@,
            asset_selection(release@, version@, platform) == if !asset_set_ok(s, ex) {
                Err(ReleaseFailure::AssetSetMismatch)
            } else {
                rest
            },
        decreases release.assets@.len() - i,
    {
        if !str_eq(release.assets[i].state.as_str(), "uploaded") {
            assert(s[i as int].state != "uploaded"@);
            return Err(ReleaseError::AssetSetMismatch);
        }
        i = i + 1;
    }
    let mut k: usize = 0;
    while k < expected.len()
        invariant
            k <= expected@.len(),
            s == assets_view(release.assets@),
            ex == expected@.map_values(|n: String| n@),
            forall|j: int| 0 <= j < k ==> count_named(s, #[trigger] ex[j]) == 1,
            asset_selection(release@, version@, platform) == if !asset_set_ok(s, ex) {
                Err(ReleaseFailure::AssetSetMismatch)
            } else {
                rest
            },
        decreases expected@.len() - k,
    {
        if count_named_exec(&release.assets, expected[k].as_str()) != 1 {
            assert(count_named(s, ex[k as int]) != 1);
            return Err(ReleaseError::AssetSetMismatch);
        }
        k = k + 1;
    }
    assert(asset_set_ok(s, ex));
    check_assets(&release.assets, version, &expected)?;
    // The selected archive and its checksum sidecar.
    let ai = match find_named(&release.assets, name.as_str()) {
        None => {
            return Err(ReleaseError::MissingAsset(name));
        },
        Some(i) => i,
    };
    let si = match find_named(&release.assets, sidecar.as_str()) {
        None => {
            return Err(ReleaseError::MissingAsset(sidecar));
        },
        Some(i) => i,
    };
    let asset = &release.assets[ai];
    let side = &release.assets[si];
    let expected_url = download_url_of(version, name.as_str());
    if !str_eq(asset.browser_download_url.as_str(), expected_url.as_str()) {
        return Err(ReleaseError::AssetUrlMismatch);
    }
    let sidecar_url = download_url_of(version, sidecar.as_str());
    if !str_eq(side.browser_download_url.as_str(), sidecar_url.as_str()) {
        return Err(ReleaseError::ChecksumUrlMismatch);
    }
    match &side.digest {
        None => {
            return Err(ReleaseError::MissingChecksumDigest);
        },
        Some(d) => {
            parse_sha256_digest(d.as_str())?;
        },
    }
    let sha256 = match &asset.digest {
        None => {
            return Err(ReleaseError::MissingSelectedDigest);
        },
        Some(d) => parse_sha256_digest(d.as_str())?,
    };
    let archive_kind = match platform {
        CommunityPlatform::WindowsX86_64Gnu => CommunityArchiveKind::WindowsZip,
        CommunityPlatform::MacosAarch64 => CommunityArchiveKind::MacosTarGz,
        CommunityPlatform::LinuxX86_64Gnu => CommunityArchiveKind::LinuxTarGz,
    };
    Ok(
        VerifiedAsset {
            version: string_of(version),
            name,
            download_url: expected_url,
            size: asset.size,
            sha256,
            archive_kind,
        },
    )
}

fn push_char_v(s: &mut String)
    ensures
        final(s)@ == old(s)@.push('v'),
{
    crate::text::push_char(s, 'v');
}

/// The platform archive of `release` for the build target's platform.
pub fn select_asset(release: &ApiRelease, version: &str, target: BuildTarget) -> (r: Result<
    VerifiedAsset,
    ReleaseError,
>)
    ensures
        platform_of(target) is None ==> r matches Err(ReleaseError::UnsupportedPlatform),
        forall|p: CommunityPlatform|
            platform_of(target) == Some(p) ==> (asset_selection(release@, version@, p) matches Ok(
                a,
            ) ==> r matches Ok(x) && x@ == a),
        forall|p: CommunityPlatform|
            platform_of(target) == Some(p) ==> (asset_selection(release@, version@, p) matches Err(
                f,
            ) ==> r matches Err(e) && e@ == f),
{
    let platform = current_community_platform(target)?;
    select_asset_for_platform(release, version, platform)
}

} // verus!

verus! {

/// Whether the release at `i` may be offered on the channel and passes the
/// asset contract for `platform`.
pub open spec fn compatible_at(
    rs: Seq<ApiReleaseSpec>,
    i: int,
    stable: bool,
    platform: CommunityPlatform,
) -> bool {
    &&& eligible_at(rs, i, stable)
    &&& asset_selection(rs[i], semver_text(version_at(rs, i)->0), platform) is Ok
}

/// Picks the latest release of the channel whose assets pass the contract
/// for `platform` (releases that predate the platform are skipped). Returns
/// its index and version.
pub fn select_latest_compatible_release(
    releases: &[ApiRelease],
    channel: &str,
    platform: CommunityPlatform,
) -> (r: Result<(usize, SemVer), ReleaseError>)
    ensures
        !channel_supported(channel@) ==> (r matches Err(e) && e@
            == ReleaseFailure::UnsupportedChannel(channel@)),
        channel_supported(channel@) && !(exists|j: int|
            0 <= j < releases@.len() && #[trigger] compatible_at(
                releases_view(releases@),
                j,
                stable_channel(channel@),
                platform,
            )) ==> (r matches Err(e) && e@ == ReleaseFailure::NoCompatibleRelease(channel@)),
        r matches Ok((i, v)) ==> channel_supported(channel@) && is_latest(
            releases_view(releases@),
            |j: int|
                compatible_at(releases_view(releases@), j, stable_channel(channel@), platform),
            i as int,
            v@,
        ),
        channel_supported(channel@) && (exists|j: int|
            0 <= j < releases@.len() && #[trigger] compatible_at(
                releases_view(releases@),
                j,
                stable_channel(channel@),
                platform,
            )) ==> r is Ok,
{
    let ghost rs = releases_view(releases@);
    let stable = str_eq(channel, "stable");
    let alpha = str_eq(channel, "alpha");
    if !stable && !alpha {
        return Err(ReleaseError::UnsupportedChannel(string_of(channel)));
    }
    let ghost ok = |j: int| compatible_at(rs, j, stable, platform);
    let mut best: Option<SemVer> = None;
    let mut best_index: usize = 0;
    let mut i: usize = 0;
    while i < releases.len()
        invariant
            i <= releases@.len(),
            rs == releases_view(releases@),
            stable == stable_channel(channel@),
            ok == (|j: int| compatible_at(rs, j, stable, platform)),
            forall|j: int| 0 <= j < i ==> (#[trigger] version_at(rs, j) matches Some(v) ==> semver_valid(v)),
            best is None <==> !(exists|j: int| 0 <= j < i && #[trigger] ok(j)),
            best matches Some(b) ==> {
                &&& best_index < i
                &&& ok(best_index as int)
                &&& version_at(rs, best_index as int) == Some(b@)
                &&& semver_valid(b@)
                &&& forall|j: int|
                    0 <= j < i && j != best_index && #[trigger] ok(j) ==> semver_order(
                        version_at(rs, j)->0,
                        b@,
                    ) <= 0
                &&& forall|j: int|
                    best_index < j < i && #[trigger] ok(j) ==> semver_order(
                        version_at(rs, j)->0,
                        b@,
                    ) < 0
            },
        decreases releases@.len() - i,
    {
        assert(rs[i as int] == releases@[i as int]@);
        match parse_release_version(&releases[i]) {
            None => {
                assert(!ok(i as int));
            },
            Some(v) => {
                if stable && v.is_prerelease() {
                    assert(!ok(i as int));
                } else {
                    let text = v.to_string();
                    let selected = select_asset_for_platform(&releases[i], text.as_str(), platform);
                    if selected.is_err() {
                        assert(!ok(i as int));
                    } else {
                        assert(ok(i as int));
                        match &best {
                            None => {
                                best = Some(v);
                                best_index = i;
                            },
                            Some(b) => {
                                let c = compare_semver(b, &v);
                                if c <= 0 {
                                    best = Some(v);
                                    best_index = i;
                                }
                            },
                        }
                    }
                }
            },
        }
        i = i + 1;
    }
    proof {
        if exists|j: int| 0 <= j < releases@.len() && #[trigger] compatible_at(rs, j, stable, platform) {
            let j = choose|j: int| 0 <= j < releases@.len() && #[trigger] compatible_at(rs, j, stable, platform);
            assert(ok(j));
        }
    }
    match best {
        None => Err(ReleaseError::NoCompatibleRelease(string_of(channel))),
        Some(b) => Ok((best_index, b)),
    }
}

/// The checks on a version requested for download: SemVer, no build
/// metadata, written canonically.
pub open spec fn requested_version(version: Seq<char>) -> Result<SemVerSpec, ReleaseFailure> {
    match semver_parse(version) {
        None => Err(ReleaseFailure::InvalidVersion(version)),
        Some(v) => if v.build.len() > 0 {
            Err(ReleaseFailure::VersionHasBuildMetadata(version))
        } else if semver_text(v) != version {
            Err(ReleaseFailure::VersionNotCanonical(version))
        } else {
            Ok(v)
        },
    }
}

/// A requested version is accepted exactly when it is SemVer, printed
/// canonically, and without build metadata; pre-releases are accepted like
/// any other version.
pub proof fn lemma_requested_version_accepts_canonical(t: Seq<char>, v: SemVerSpec)
    ensures
        (semver_parse(t) == Some(v) && v.build.len() == 0 && semver_text(v) == t)
            ==> requested_version(t) == Ok::<SemVerSpec, ReleaseFailure>(v),
        requested_version(t) == Ok::<SemVerSpec, ReleaseFailure>(v) ==> (semver_parse(t) == Some(v)
            && v.build.len() == 0 && semver_text(v) == t),
{
}

/// Validates the version a download was requested for, before the release
/// is fetched by tag.
pub fn check_requested_version(version: &str) -> (r: Result<SemVer, ReleaseError>)
    ensures
        requested_version(version@) matches Ok(v) ==> r matches Ok(w) && w@ == v,
        requested_version(version@) matches Err(f) ==> r matches Err(e) && e@ == f,
{
    match parse_semver(version) {
        None => Err(ReleaseError::InvalidVersion(string_of(version))),
        Some(v) => {
            if v.has_build() {
                return Err(ReleaseError::VersionHasBuildMetadata(string_of(version)));
            }
            let text = v.to_string();
            if !str_eq(text.as_str(), version) {
                return Err(ReleaseError::VersionNotCanonical(string_of(version)));
            }
            Ok(v)
        },
    }
}

/// Releases per page of the Releases API listing.
pub const RELEASES_PER_PAGE: usize = 100;

/// Whether a page of the Releases API listing with `page_len` releases was
/// full, so that the next page must be read too.
pub fn release_page_is_full(page_len: usize) -> (r: bool)
    ensures
        r == (page_len >= RELEASES_PER_PAGE),
{
    page_len >= RELEASES_PER_PAGE
}

/// The selected release of a channel has the highest `(major, minor,
/// patch)` of all eligible releases: no eligible release has a core
/// lexicographically above it.
pub proof fn lemma_latest_has_highest_core(
    rs: Seq<ApiReleaseSpec>,
    ok: spec_fn(int) -> bool,
    i: int,
    v: SemVerSpec,
    j: int,
)
    requires
        is_latest(rs, ok, i, v),
        0 <= j < rs.len(),
        ok(j),
        version_at(rs, j) is Some,
    ensures
        ({
            let x = version_at(rs, j)->0;
            !(v.major < x.major || (v.major == x.major && (v.minor < x.minor || (v.minor == x.minor
                && v.patch < x.patch))))
        }),
{
    let x = version_at(rs, j)->0;
    crate::semantic_version::lemma_semver_order_core_first(v, x);
    if j != i {
        assert(ok(j));
        assert(semver_order(x, v) <= 0);
    }
}

} // verus!
