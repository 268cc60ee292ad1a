use grok_zh::product::{
    executable_name, BuildTarget, TargetArch, TargetEnv, TargetOs, AUTO_UPDATE_DEFAULT_ENABLED,
    AUTO_UPDATE_ENABLED, COMMUNITY_RELEASES_URL, COMMUNITY_RELEASE_REPO, DATA_DIR_NAME,
    DISPLAY_NAME, HOME_ENV, LOCALE_ENV, OFFICIAL_CHANGELOG_SOURCE_ALLOWED,
    OFFICIAL_UPDATE_SOURCES_ALLOWED, PRIVACY_BUILD, PRODUCT_ID,
};

#[test]
fn privacy_build_suffixes_display_name() {
    assert_eq!(
        PRIVACY_BUILD,
        grok_zh::version::PRIVACY_BUILD,
        "product policy must mirror the compile-time privacy switch"
    );
    assert_eq!(
        DISPLAY_NAME,
        if PRIVACY_BUILD {
            "Grok Build 中文社区版（隐私构建）"
        } else {
            "Grok Build 中文社区版"
        }
    );
    assert!(
        !PRIVACY_BUILD || DISPLAY_NAME.contains("隐私构建"),
        "privacy builds must advertise the hardened posture"
    );
}

#[test]
fn community_ui_identity_uses_the_shared_official_data_home() {
    assert_eq!(PRODUCT_ID, "grok-build-zh");
    assert_eq!(DATA_DIR_NAME, ".grok");
    assert_eq!(HOME_ENV, "GROK_HOME");
    assert_eq!(LOCALE_ENV, "GROK_ZH_LOCALE");
    let windows = BuildTarget { os: TargetOs::Windows, arch: TargetArch::X86_64, env: TargetEnv::Gnu };
    let linux = BuildTarget { os: TargetOs::Linux, arch: TargetArch::X86_64, env: TargetEnv::Gnu };
    assert_ne!(executable_name(windows), "grok.exe");
    assert_ne!(executable_name(linux), "grok");
}

#[test]
fn updater_uses_only_the_community_release_source() {
    assert!(AUTO_UPDATE_ENABLED);
    assert!(!AUTO_UPDATE_DEFAULT_ENABLED);
    assert_eq!(COMMUNITY_RELEASE_REPO, "JoyElliot/grok-build-Chinese");
    assert_eq!(
        COMMUNITY_RELEASES_URL,
        "https://github.com/JoyElliot/grok-build-Chinese/releases"
    );
    assert!(!OFFICIAL_UPDATE_SOURCES_ALLOWED);
    assert!(!OFFICIAL_CHANGELOG_SOURCE_ALLOWED);
}

#[test]
fn executable_name_follows_the_target_os() {
    let windows = BuildTarget { os: TargetOs::Windows, arch: TargetArch::X86_64, env: TargetEnv::Gnu };
    let linux = BuildTarget { os: TargetOs::Linux, arch: TargetArch::X86_64, env: TargetEnv::Gnu };
    let macos = BuildTarget { os: TargetOs::Macos, arch: TargetArch::Aarch64, env: TargetEnv::Other };
    assert_eq!(executable_name(windows), "grok-zh.exe");
    assert_eq!(executable_name(linux), "grok-zh");
    assert_eq!(executable_name(macos), "grok-zh");
}
