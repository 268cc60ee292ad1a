use grok_zh::community_release::{
    check_requested_version, current_community_platform, expected_release_asset_names,
    parse_sha256_digest, release_asset_name, release_asset_name_for, release_by_tag_api,
    release_repo, releases_api, select_asset, select_asset_for_platform,
    select_latest_compatible_release, select_latest_release, ApiAsset, ApiRelease,
    CommunityArchiveKind, CommunityPlatform,
};
use grok_zh::download::allowed_github_url;
use grok_zh::product::{BuildTarget, TargetArch, TargetEnv, TargetOs};

fn release(tag: &str, prerelease: bool, immutable: bool) -> ApiRelease {
    ApiRelease {
        tag_name: tag.to_string(),
        draft: false,
        prerelease,
        immutable,
        assets: Vec::new(),
    }
}

fn uploaded_asset(version: &str, name: String, size: u64) -> ApiAsset {
    ApiAsset {
        browser_download_url: format!(
            "https://github.com/{}/releases/download/v{version}/{name}",
            release_repo()
        ),
        name,
        size,
        digest: Some(format!("sha256:{}", "ab".repeat(32))),
        state: "uploaded".to_string(),
    }
}

fn uploaded_package_assets(version: &str) -> Vec<ApiAsset> {
    expected_release_asset_names(version)
        .unwrap()
        .into_iter()
        .map(|name| {
            let size = if name.ends_with(".sha256") { 112 } else { 123 };
            uploaded_asset(version, name, size)
        })
        .collect()
}

#[test]
fn stable_selects_highest_immutable_non_prerelease() {
    let releases = vec![
        release("v1.1.0-alpha.2", true, true),
        release("v1.0.1", false, true),
        release("v1.0.3", false, true),
        release("v1.0.2", false, true),
        release("v1.2.0", false, false),
        release("v1.0.0", false, true),
    ];
    let (_, version) = select_latest_release(&releases, "stable").unwrap();
    assert_eq!(version.to_string(), "1.0.3");
}

#[test]
fn alpha_uses_semver_not_api_order() {
    let releases = vec![
        release("v1.0.0", false, true),
        release("v1.1.0-alpha.1", true, true),
        release("v0.9.9", false, true),
    ];
    let (_, version) = select_latest_release(&releases, "alpha").unwrap();
    assert_eq!(version.to_string(), "1.1.0-alpha.1");
}

#[test]
fn mutable_and_metadata_mismatched_releases_are_rejected() {
    let releases = vec![
        release("v2.0.0", false, false),
        release("v1.0.0-alpha.1", false, true),
        release("1.0.0", false, true),
    ];
    assert!(select_latest_release(&releases, "stable").is_err());
}

#[test]
fn digest_parser_is_strict() {
    let valid = format!("sha256:{}", "ab".repeat(32));
    assert_eq!(parse_sha256_digest(&valid).unwrap(), "ab".repeat(32));
    assert!(parse_sha256_digest(&"ab".repeat(32)).is_err());
    assert!(parse_sha256_digest("sha256:xyz").is_err());
}

#[test]
fn github_url_policy_requires_https_default_port_and_known_hosts() {
    for url in [
        "https://api.github.com/repos/example/releases",
        "https://github.com/example/releases/download/v1/file.zip",
        "https://release-assets.githubusercontent.com/file",
    ] {
        assert!(allowed_github_url(url));
    }
    for url in [
        "http://github.com/file",
        "https://github.com:8443/file",
        "https://example.com/file",
    ] {
        assert!(!allowed_github_url(url));
    }
}

#[test]
fn asset_selection_enforces_the_platform_transition_contract() {
    let mut transition = release("v1.0.6", false, true);
    transition.assets = uploaded_package_assets("1.0.6");
    let selected =
        select_asset_for_platform(&transition, "1.0.6", CommunityPlatform::WindowsX86_64Gnu)
            .unwrap();
    assert_eq!(selected.version, "1.0.6");
    assert_eq!(selected.name, "grok-zh-1.0.6-windows-x86_64-gnu.zip");
    assert!(
        select_asset_for_platform(&transition, "1.0.6", CommunityPlatform::MacosAarch64).is_err()
    );

    let mut candidate = release("v1.0.7-alpha.1", true, true);
    candidate.assets = uploaded_package_assets("1.0.7-alpha.1");
    let windows = select_asset_for_platform(
        &candidate,
        "1.0.7-alpha.1",
        CommunityPlatform::WindowsX86_64Gnu,
    )
    .unwrap();
    assert_eq!(windows.name, "grok-zh-1.0.7-alpha.1-windows-x86_64-gnu.zip");
    let macos =
        select_asset_for_platform(&candidate, "1.0.7-alpha.1", CommunityPlatform::MacosAarch64)
            .unwrap();
    assert_eq!(macos.name, "grok-zh-1.0.7-alpha.1-macos-aarch64.tar.gz");
    assert!(
        select_asset_for_platform(&candidate, "1.0.7-alpha.1", CommunityPlatform::LinuxX86_64Gnu)
            .is_err()
    );

    let mut bridge = release("v1.0.8", false, true);
    bridge.assets = uploaded_package_assets("1.0.8");
    assert_eq!(bridge.assets.len(), 4);
    assert!(
        select_asset_for_platform(&bridge, "1.0.8", CommunityPlatform::WindowsX86_64Gnu).is_ok()
    );
    assert!(
        select_asset_for_platform(&bridge, "1.0.8", CommunityPlatform::LinuxX86_64Gnu).is_err()
    );

    let mut linux_candidate = release("v1.0.8-rc.1", true, true);
    linux_candidate.assets = uploaded_package_assets("1.0.8-rc.1");
    assert_eq!(linux_candidate.assets.len(), 6);
    let linux = select_asset_for_platform(
        &linux_candidate,
        "1.0.8-rc.1",
        CommunityPlatform::LinuxX86_64Gnu,
    )
    .unwrap();
    assert_eq!(linux.name, "grok-zh-1.0.8-rc.1-linux-x86_64-gnu.tar.gz");

    let mut next_stable = release("v1.0.9", false, true);
    next_stable.assets = uploaded_package_assets("1.0.9");
    assert_eq!(next_stable.assets.len(), 6);
    assert!(
        select_asset_for_platform(&next_stable, "1.0.9", CommunityPlatform::LinuxX86_64Gnu)
            .is_ok()
    );

    candidate.assets.push(uploaded_asset(
        "1.0.7-alpha.1",
        "grok-zh-1.0.7-alpha.1-windows-x86_64-gnu.exe".to_string(),
        123,
    ));
    assert!(
        select_asset_for_platform(&candidate, "1.0.7-alpha.1", CommunityPlatform::WindowsX86_64Gnu)
            .is_err()
    );

    candidate.assets.pop();
    candidate.assets[0].browser_download_url = "https://example.com/grok-zh.zip".to_string();
    assert!(
        select_asset_for_platform(&candidate, "1.0.7-alpha.1", CommunityPlatform::WindowsX86_64Gnu)
            .is_err()
    );
}

#[test]
fn latest_release_selection_skips_platform_incompatible_assets() {
    let mut transition = release("v1.0.6", false, true);
    transition.assets = uploaded_package_assets("1.0.6");
    let mut cross_platform = release("v1.0.7", false, true);
    cross_platform.assets = uploaded_package_assets("1.0.7");
    let releases = vec![cross_platform, transition];

    let (_, windows) =
        select_latest_compatible_release(&releases, "stable", CommunityPlatform::WindowsX86_64Gnu)
            .unwrap();
    assert_eq!(windows.to_string(), "1.0.7");
    let (_, macos) =
        select_latest_compatible_release(&releases, "stable", CommunityPlatform::MacosAarch64)
            .unwrap();
    assert_eq!(macos.to_string(), "1.0.7");

    let only_transition = &releases[1..];
    assert!(
        select_latest_compatible_release(only_transition, "stable", CommunityPlatform::MacosAarch64)
            .is_err()
    );
}

#[test]
fn community_api_urls_follow_the_product_repository_identity() {
    assert_eq!(release_repo(), "JoyElliot/grok-build-Chinese");
    assert_eq!(
        releases_api(2),
        "https://api.github.com/repos/JoyElliot/grok-build-Chinese/releases?per_page=100&page=2"
    );
    assert_eq!(
        release_by_tag_api("1.0.3"),
        "https://api.github.com/repos/JoyElliot/grok-build-Chinese/releases/tags/v1.0.3"
    );
}

#[test]
fn platform_follows_the_build_target() {
    let windows = BuildTarget { os: TargetOs::Windows, arch: TargetArch::X86_64, env: TargetEnv::Gnu };
    let macos = BuildTarget { os: TargetOs::Macos, arch: TargetArch::Aarch64, env: TargetEnv::Other };
    let linux = BuildTarget { os: TargetOs::Linux, arch: TargetArch::X86_64, env: TargetEnv::Gnu };
    let other = BuildTarget { os: TargetOs::Linux, arch: TargetArch::Aarch64, env: TargetEnv::Gnu };
    assert_eq!(current_community_platform(windows).unwrap(), CommunityPlatform::WindowsX86_64Gnu);
    assert_eq!(current_community_platform(macos).unwrap(), CommunityPlatform::MacosAarch64);
    assert_eq!(current_community_platform(linux).unwrap(), CommunityPlatform::LinuxX86_64Gnu);
    assert!(current_community_platform(other).is_err());
    assert_eq!(
        release_asset_name("1.0.7", linux).unwrap(),
        "grok-zh-1.0.7-linux-x86_64-gnu.tar.gz"
    );
    assert_eq!(
        release_asset_name_for(CommunityPlatform::MacosAarch64, "1.0.7").unwrap(),
        "grok-zh-1.0.7-macos-aarch64.tar.gz"
    );
    assert!(release_asset_name_for(CommunityPlatform::MacosAarch64, "v1.0.7").is_err());
}

#[test]
fn expected_asset_names_grow_with_platform_support() {
    assert_eq!(
        expected_release_asset_names("1.0.6").unwrap(),
        vec![
            "grok-zh-1.0.6-windows-x86_64-gnu.zip".to_string(),
            "grok-zh-1.0.6-windows-x86_64-gnu.zip.sha256".to_string(),
        ]
    );
    assert_eq!(expected_release_asset_names("1.0.8").unwrap().len(), 4);
    assert_eq!(expected_release_asset_names("1.0.9").unwrap().len(), 6);
    assert!(expected_release_asset_names("not-a-version").is_err());
}

#[test]
fn selected_asset_carries_the_digest_and_kind() {
    let mut r = release("v1.0.9", false, true);
    r.assets = uploaded_package_assets("1.0.9");
    let linux = BuildTarget { os: TargetOs::Linux, arch: TargetArch::X86_64, env: TargetEnv::Gnu };
    let asset = select_asset(&r, "1.0.9", linux).unwrap();
    assert_eq!(asset.sha256, "ab".repeat(32));
    assert_eq!(asset.size, 123);
    assert_eq!(asset.archive_kind, CommunityArchiveKind::LinuxTarGz);
    assert_eq!(
        asset.download_url,
        "https://github.com/JoyElliot/grok-build-Chinese/releases/download/v1.0.9/grok-zh-1.0.9-linux-x86_64-gnu.tar.gz"
    );
}

#[test]
fn requested_versions_must_be_canonical_without_build_metadata() {
    assert!(check_requested_version("1.0.7").is_ok());
    assert!(check_requested_version("1.0.7+build.1").is_err());
    assert!(check_requested_version("01.0.7").is_err());
    assert!(check_requested_version("v1.0.7").is_err());
}
