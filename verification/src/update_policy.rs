//! The distribution's update policy: which update sources a build may use.
//! A community build never reaches the official xAI sources; its own fixed
//! Releases backend runs only on `x86_64-pc-windows-gnu`.

use vstd::prelude::*;
use crate::product::{
    BuildTarget, TargetArch, TargetEnv, TargetOs, AUTO_UPDATE_DEFAULT_ENABLED,
    AUTO_UPDATE_ENABLED, OFFICIAL_UPDATE_SOURCES_ALLOWED,
};
use crate::text::string_of;

verus! {

/// How a binary was built: as the community distribution or as the
/// official one, and for which target.
#[derive(Clone, Copy, Debug, PartialEq, Eq, Structural)]
pub struct BuildConfig {
    pub community_build: bool,
    pub target: BuildTarget,
}

/// Why an update request is refused, in a community build.
pub const UPDATE_DISABLED_REASON_COMMUNITY: &'static str = "此版本未启用所选的更新来源。";

/// Why an update request is refused, in an official build.
pub const UPDATE_DISABLED_REASON_OFFICIAL: &'static str =
    "The selected update source is disabled for this distribution.";

/// The user-facing reason a disabled update source gives.
pub open spec fn disabled_reason(config: BuildConfig) -> Seq<char> {
    if config.community_build {
        UPDATE_DISABLED_REASON_COMMUNITY@
    } else {
        UPDATE_DISABLED_REASON_OFFICIAL@
    }
}

/// The user-facing reason a disabled update source gives in `config`.
pub fn update_disabled_reason(config: BuildConfig) -> (r: &'static str)
    ensures
        r@ == disabled_reason(config),
{
    if config.community_build {
        UPDATE_DISABLED_REASON_COMMUNITY
    } else {
        UPDATE_DISABLED_REASON_OFFICIAL
    }
}

/// Whether the community build's fixed Releases backend is enabled.
pub open spec fn community_updates(config: BuildConfig) -> bool {
    config.community_build && AUTO_UPDATE_ENABLED && config.target.is_windows_x86_64_gnu()
}

/// Whether updating is enabled at all.
pub open spec fn updates(config: BuildConfig) -> bool {
    if config.community_build {
        community_updates(config)
    } else {
        true
    }
}

/// Whether the official xAI update sources may be used.
pub open spec fn official_sources(config: BuildConfig) -> bool {
    !config.community_build || OFFICIAL_UPDATE_SOURCES_ALLOWED
}

/// Whether this binary is the community distribution with its fixed
/// Releases backend enabled (only on `x86_64-pc-windows-gnu`).
pub fn community_updates_enabled(config: BuildConfig) -> (r: bool)
    ensures
        r == community_updates(config),
{
    config.community_build && AUTO_UPDATE_ENABLED && config.target.os == TargetOs::Windows
        && config.target.arch == TargetArch::X86_64 && config.target.env == TargetEnv::Gnu
}

/// Whether updating is enabled in this distribution.
pub fn updates_enabled(config: BuildConfig) -> (r: bool)
    ensures
        r == updates(config),
{
    if config.community_build {
        community_updates_enabled(config)
    } else {
        true
    }
}

/// The default of the automatic-update setting: the community build is
/// opt-in, official builds keep their upstream default (on).
pub fn default_auto_update_enabled(config: BuildConfig) -> (r: bool)
    ensures
        r == (if config.community_build {
            AUTO_UPDATE_DEFAULT_ENABLED
        } else {
            true
        }),
{
    if config.community_build {
        AUTO_UPDATE_DEFAULT_ENABLED
    } else {
        true
    }
}

/// Whether the official xAI update sources may be used.
pub fn official_update_sources_allowed(config: BuildConfig) -> (r: bool)
    ensures
        r == official_sources(config),
{
    !config.community_build || OFFICIAL_UPDATE_SOURCES_ALLOWED
}

/// A refused update request, with its user-facing reason.
#[derive(Clone, Debug, PartialEq, Eq)]
pub struct UpdateDisabled {
    pub reason: String,
}

impl UpdateDisabled {
    /// The user-facing message.
    pub fn message(&self) -> (r: String)
        ensures
            r@ == self.reason@,
    {
        self.reason.clone()
    }
}

fn disabled(config: BuildConfig) -> (e: UpdateDisabled)
    ensures
        e.reason@ == disabled_reason(config),
{
    UpdateDisabled { reason: string_of(update_disabled_reason(config)) }
}

/// Gate of the official update helpers: refused unless updating is
/// enabled and the official sources are allowed.
pub fn ensure_updates_enabled(config: BuildConfig) -> (r: Result<(), UpdateDisabled>)
    ensures
        (updates(config) && official_sources(config)) ==> r is Ok,
        !(updates(config) && official_sources(config)) ==> (r matches Err(e) && e.reason@
            == disabled_reason(config)),
{
    if !updates_enabled(config) || !official_update_sources_allowed(config) {
        return Err(disabled(config));
    }
    Ok(())
}

/// Gate of the community Releases backend.
pub fn ensure_community_updates_enabled(config: BuildConfig) -> (r: Result<(), UpdateDisabled>)
    ensures
        community_updates(config) ==> r is Ok,
        !community_updates(config) ==> (r matches Err(e) && e.reason@ == disabled_reason(config)),
{
    if !community_updates_enabled(config) {
        return Err(disabled(config));
    }
    Ok(())
}

/// Gate of the backend a build selects: the community backend in a
/// community build, the official one otherwise.
pub fn ensure_selected_updates_enabled(config: BuildConfig) -> (r: Result<(), UpdateDisabled>)
    ensures
        config.community_build ==> (community_updates(config) <==> r is Ok),
        !config.community_build ==> ((updates(config) && official_sources(config)) <==> r is Ok),
        r matches Err(e) ==> e.reason@ == disabled_reason(config),
{
    if config.community_build {
        ensure_community_updates_enabled(config)
    } else {
        ensure_updates_enabled(config)
    }
}

/// A community build never uses the official update sources, and its
/// helpers that lead to them are always refused with the community reason.
pub proof fn lemma_community_build_never_uses_official_sources(config: BuildConfig)
    requires
        config.community_build,
    ensures
        !official_sources(config),
        !(updates(config) && official_sources(config)),
        disabled_reason(config) == UPDATE_DISABLED_REASON_COMMUNITY@,
{
}

/// In a community build, updating is enabled exactly on the one target
/// with the fixed Releases backend, and automatic updates default to off.
pub proof fn lemma_community_updates_only_on_windows_gnu(config: BuildConfig)
    requires
        config.community_build,
    ensures
        updates(config) == config.target.is_windows_x86_64_gnu(),
        community_updates(config) == config.target.is_windows_x86_64_gnu(),
        !AUTO_UPDATE_DEFAULT_ENABLED,
{
}

} // verus!
