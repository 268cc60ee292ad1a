use grok_zh::product::{BuildTarget, TargetArch, TargetEnv, TargetOs};
use grok_zh::update_policy::{
    community_updates_enabled, default_auto_update_enabled, ensure_community_updates_enabled,
    ensure_selected_updates_enabled, ensure_updates_enabled, official_update_sources_allowed,
    update_disabled_reason, updates_enabled, BuildConfig, UPDATE_DISABLED_REASON_COMMUNITY,
    UPDATE_DISABLED_REASON_OFFICIAL,
};

fn windows_gnu() -> BuildTarget {
    BuildTarget { os: TargetOs::Windows, arch: TargetArch::X86_64, env: TargetEnv::Gnu }
}

fn other_targets() -> Vec<BuildTarget> {
    vec![
        BuildTarget { os: TargetOs::Linux, arch: TargetArch::X86_64, env: TargetEnv::Gnu },
        BuildTarget { os: TargetOs::Macos, arch: TargetArch::Aarch64, env: TargetEnv::Other },
        BuildTarget { os: TargetOs::Windows, arch: TargetArch::X86_64, env: TargetEnv::Other },
        BuildTarget { os: TargetOs::Windows, arch: TargetArch::Aarch64, env: TargetEnv::Gnu },
    ]
}

#[test]
fn community_build_enables_only_its_fixed_release_source() {
    let mut cases = vec![(windows_gnu(), true)];
    for target in other_targets() {
        cases.push((target, false));
    }
    for (target, supported_target) in cases {
        let config = BuildConfig { community_build: true, target };
        assert_eq!(updates_enabled(config), supported_target);
        assert!(!default_auto_update_enabled(config));
        assert_eq!(community_updates_enabled(config), supported_target);
        assert!(!official_update_sources_allowed(config));
        assert_eq!(ensure_community_updates_enabled(config).is_ok(), supported_target);
        assert_eq!(
            ensure_updates_enabled(config).unwrap_err().message(),
            UPDATE_DISABLED_REASON_COMMUNITY
        );
    }
}

#[test]
fn official_build_keeps_official_sources_and_refuses_the_community_backend() {
    let config = BuildConfig { community_build: false, target: windows_gnu() };
    assert!(updates_enabled(config));
    assert!(default_auto_update_enabled(config));
    assert!(official_update_sources_allowed(config));
    assert!(!community_updates_enabled(config));
    assert!(ensure_updates_enabled(config).is_ok());
    assert!(ensure_selected_updates_enabled(config).is_ok());
    assert_eq!(
        ensure_community_updates_enabled(config).unwrap_err().message(),
        UPDATE_DISABLED_REASON_OFFICIAL
    );
    assert_eq!(update_disabled_reason(config), UPDATE_DISABLED_REASON_OFFICIAL);
}

#[test]
fn selected_gate_follows_the_build_kind() {
    let community = BuildConfig { community_build: true, target: windows_gnu() };
    assert!(ensure_selected_updates_enabled(community).is_ok());
    for target in other_targets() {
        let config = BuildConfig { community_build: true, target };
        assert_eq!(
            ensure_selected_updates_enabled(config).unwrap_err().message(),
            "此版本未启用所选的更新来源。"
        );
    }
}
