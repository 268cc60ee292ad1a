//! Product identity for the unofficial Simplified Chinese community build.
//!
//! Distribution identity stays separate from UI localization: protocol names,
//! server endpoints, model IDs, tool names and wire fields never depend on it.

use vstd::prelude::*;

verus! {

/// Operating system of the build target.
#[derive(Clone, Copy, Debug, PartialEq, Eq, Structural)]
pub enum TargetOs {
    Windows,
    Macos,
    Linux,
    Other,
}

/// CPU architecture of the build target.
#[derive(Clone, Copy, Debug, PartialEq, Eq, Structural)]
pub enum TargetArch {
    X86_64,
    Aarch64,
    Other,
}

/// C library / ABI environment of the build target.
#[derive(Clone, Copy, Debug, PartialEq, Eq, Structural)]
pub enum TargetEnv {
    Gnu,
    Other,
}

/// The target a binary was compiled for.
#[derive(Clone, Copy, Debug, PartialEq, Eq, Structural)]
pub struct BuildTarget {
    pub os: TargetOs,
    pub arch: TargetArch,
    pub env: TargetEnv,
}

impl BuildTarget {
    /// `x86_64-pc-windows-gnu`, the only target with the fixed community
    /// Releases backend enabled.
    pub open spec fn is_windows_x86_64_gnu(self) -> bool {
        self.os == TargetOs::Windows && self.arch == TargetArch::X86_64 && self.env == TargetEnv::Gnu
    }

    /// `aarch64-apple-darwin`.
    pub open spec fn is_macos_aarch64(self) -> bool {
        self.os == TargetOs::Macos && self.arch == TargetArch::Aarch64
    }

    /// `x86_64-unknown-linux-gnu`.
    pub open spec fn is_linux_x86_64_gnu(self) -> bool {
        self.os == TargetOs::Linux && self.arch == TargetArch::X86_64 && self.env == TargetEnv::Gnu
    }
}

/// Compile-time privacy switch (default-on in this distribution). The display
/// name follows it.
pub const PRIVACY_BUILD: bool = crate::version::PRIVACY_BUILD;
/// Stable machine-readable identity used by packaging and release metadata.
pub const PRODUCT_ID: &'static str = "grok-build-zh";
/// Human-readable product name for client-owned UI chrome; privacy builds
/// carry the privacy suffix.
pub const DISPLAY_NAME: &'static str = "Grok Build 中文社区版（隐私构建）";
/// Display name of a build without the privacy switch.
pub const DISPLAY_NAME_STANDARD: &'static str = "Grok Build 中文社区版";
/// Command and executable stem for the community distribution.
pub const CLI_NAME: &'static str = "grok-zh";
/// Shared per-user data directory, relative to the user's home directory.
pub const DATA_DIR_NAME: &'static str = ".grok";
/// Shared user-data override used by both the official and Chinese executables.
pub const HOME_ENV: &'static str = "GROK_HOME";
/// Distribution-specific UI locale override.
pub const LOCALE_ENV: &'static str = "GROK_ZH_LOCALE";
/// Default UI locale for this distribution.
pub const DEFAULT_UI_LOCALE: &'static str = "zh-CN";
/// Repository that owns every update accepted by the community distribution.
pub const COMMUNITY_RELEASE_REPO: &'static str = "JoyElliot/grok-build-Chinese";
/// Canonical download page for the community distribution.
pub const COMMUNITY_RELEASES_URL: &'static str = "https://github.com/JoyElliot/grok-build-Chinese/releases";
/// The community updater uses immutable GitHub Releases from the repository
/// above.
pub const AUTO_UPDATE_ENABLED: bool = true;
/// Default for the user-controlled `[cli].auto_update` setting: availability
/// checks stay on, background installation is opt-in.
pub const AUTO_UPDATE_DEFAULT_ENABLED: bool = false;
/// Whether the official npm/GitHub/CDN/GCS update sources may be consulted.
pub const OFFICIAL_UPDATE_SOURCES_ALLOWED: bool = false;
/// Whether release notes may be fetched from the official changelog CDN.
pub const OFFICIAL_CHANGELOG_SOURCE_ALLOWED: bool = false;

/// Executable filename for the given target: `grok-zh.exe` on Windows,
/// `grok-zh` elsewhere.
pub fn executable_name(target: BuildTarget) -> (name: &'static str)
    ensures
        name@ == (if target.os == TargetOs::Windows { "grok-zh.exe"@ } else { "grok-zh"@ }),
{
    if target.os == TargetOs::Windows {
        "grok-zh.exe"
    } else {
        CLI_NAME
    }
}

} // verus!
