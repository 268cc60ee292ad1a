//! Verified core of the Simplified Chinese community distribution of Grok
//! Build: product identity and update policy, release versions, the GitHub
//! Releases selection rules, the verification of downloads and release
//! packages, and the localized text of tips and the `worktree` command.

pub mod product;
pub mod update_policy;

pub mod text;
pub mod semantic_version;
pub mod version;
pub mod version_order;

pub mod community_release;
pub mod download;
pub mod digest;

pub mod package_error;
pub mod package;
pub mod manifest;
pub mod zip_layout;
pub mod extraction;
pub mod tar_scan;

pub mod locale;
pub mod tips;
pub mod worktree;
pub mod search_tool;
