//! The `worktree` subcommand: its commands, the agent extension method each
//! one calls, the unwrapping of extension responses, and the localized
//! lines it prints.

use vstd::prelude::*;
use crate::locale::{
    arguments_view, fill_placeholders, localized_named, named, named_text, UiLocale,
};
use crate::text::{concat2, string_of};

verus! {

/// What a garbage collection removed and kept.
#[derive(Clone, Copy, Debug, PartialEq, Eq, Structural)]
pub struct GcReport {
    pub dead_removed: u64,
    pub expired_removed: u64,
    pub skipped_alive: u64,
    pub remove_failed: u64,
}

/// Statistics of the worktree database.
#[derive(Clone, Copy, Debug, PartialEq, Eq, Structural)]
pub struct DbStats {
    pub total_records: u64,
    pub alive_count: u64,
    pub dead_count: u64,
    pub db_file_bytes: u64,
}

/// What a database rebuild found.
#[derive(Clone, Copy, Debug, PartialEq, Eq, Structural)]
pub struct RebuildReport {
    pub discovered: u64,
    pub registered: u64,
    pub already_tracked: u64,
}

/// The database maintenance commands.
#[derive(Clone, Copy, Debug, PartialEq, Eq, Structural)]
pub enum WorktreeDbCommand {
    Rebuild,
    Stats,
    Path,
}

/// The worktree commands.
#[derive(Clone, Debug)]
pub enum WorktreeCommand {
    /// List tracked worktrees, optionally of one repository and some types.
    List { repo: Option<String>, types: Vec<String>, json: bool, all: bool },
    /// Show one worktree.
    Show { id_or_path: String },
    /// Remove worktrees.
    Rm { ids: Vec<String>, force: bool, dry_run: bool },
    /// Remove orphaned or expired worktrees.
    Gc { dry_run: bool, max_age: Option<String>, force: bool },
    /// Database maintenance.
    Db { command: WorktreeDbCommand },
}

/// The arguments of the `worktree` subcommand.
#[derive(Clone, Debug)]
pub struct WorktreeArgs {
    pub command: WorktreeCommand,
}

/// The agent extension method a command calls.
pub open spec fn method_of(command: WorktreeCommand) -> Seq<char> {
    match command {
        WorktreeCommand::List { .. } => "x.ai/git/worktree/list"@,
        WorktreeCommand::Show { .. } => "x.ai/git/worktree/show"@,
        WorktreeCommand::Rm { .. } => "x.ai/git/worktree/remove"@,
        WorktreeCommand::Gc { .. } => "x.ai/git/worktree/gc"@,
        WorktreeCommand::Db { command } => match command {
            WorktreeDbCommand::Stats => "x.ai/git/worktree/db/stats"@,
            WorktreeDbCommand::Path => "x.ai/git/worktree/db/path"@,
            WorktreeDbCommand::Rebuild => "x.ai/git/worktree/db/rebuild"@,
        },
    }
}

/// The agent extension method that `command` calls (once per id for `rm`).
pub fn ext_method(command: &WorktreeCommand) -> (r: &'static str)
    ensures
        r@ == method_of(*command),
{
    match command {
        WorktreeCommand::List { .. } => "x.ai/git/worktree/list",
        WorktreeCommand::Show { .. } => "x.ai/git/worktree/show",
        WorktreeCommand::Rm { .. } => "x.ai/git/worktree/remove",
        WorktreeCommand::Gc { .. } => "x.ai/git/worktree/gc",
        WorktreeCommand::Db { command } => match command {
            WorktreeDbCommand::Stats => "x.ai/git/worktree/db/stats",
            WorktreeDbCommand::Path => "x.ai/git/worktree/db/path",
            WorktreeDbCommand::Rebuild => "x.ai/git/worktree/db/rebuild",
        },
    }
}

/// Why an extension call failed.
#[derive(Clone, Debug, PartialEq, Eq)]
pub enum WorktreeError {
    /// The agent answered with an error (its text).
    Acp(String),
    /// The answer has neither an error nor a result.
    MissingResult,
}

impl WorktreeError {
    /// The user-facing message.
    pub fn message(&self) -> (r: String)
        ensures
            match self {
                WorktreeError::Acp(e) => r@ == "ACP error: "@ + e@,
                WorktreeError::MissingResult => r@ == "ACP response missing result field"@,
            },
    {
        match self {
            WorktreeError::Acp(e) => concat2("ACP error: ", e.as_str()),
            WorktreeError::MissingResult => string_of("ACP response missing result field"),
        }
    }
}

/// An extension response `{ "result": .., "error": .. }` unwrapped: an
/// error wins, then the result must be present.
pub fn unwrap_envelope<T>(result: Option<T>, error: Option<String>) -> (r: Result<T, WorktreeError>)
    ensures
        match error {
            Some(e) => r == Err::<T, WorktreeError>(WorktreeError::Acp(e)),
            None => match result {
                Some(v) => r == Ok::<T, WorktreeError>(v),
                None => r == Err::<T, WorktreeError>(WorktreeError::MissingResult),
            },
        },
{
    match error {
        Some(e) => Err(WorktreeError::Acp(e)),
        None => match result {
            Some(v) => Ok(v),
            None => Err(WorktreeError::MissingResult),
        },
    }
}

/// The error text of `show` for an unknown worktree.
pub fn show_not_found_message(locale: UiLocale, id_or_path: &str) -> (r: String)
    ensures
        r@ == fill_placeholders(
            named(locale, "worktree.error.not_found"@, "worktree not found: {id_or_path}"@),
            seq![("id_or_path"@, id_or_path@)],
        ),
{
    let args = [("id_or_path", id_or_path)];
    let r = localized_named(
        locale,
        "worktree.error.not_found",
        "worktree not found: {id_or_path}",
        &args,
    );
    assert(arguments_view(args@) =~= seq![("id_or_path"@, id_or_path@)]);
    r
}

/// The line `rm` prints for one answered removal of `id_or_path`, if any:
/// in a dry run what would be removed, otherwise what was removed; the
/// agent's resolved path is shown where it gave one.
pub open spec fn rm_line(
    locale: UiLocale,
    dry_run: bool,
    removed: bool,
    resolved_path: Option<Seq<char>>,
    id_or_path: Seq<char>,
) -> Option<Seq<char>> {
    let path = match resolved_path {
        Some(p) => p,
        None => id_or_path,
    };
    if dry_run {
        Some(
            "  "@ + fill_placeholders(
                named(locale, "worktree.rm.would_remove"@, "would remove: {path}"@),
                seq![("path"@, path)],
            ),
        )
    } else if removed {
        Some(
            "  "@ + fill_placeholders(
                named(locale, "worktree.rm.removed"@, "removed: {path}"@),
                seq![("path"@, path)],
            ),
        )
    } else {
        None
    }
}

/// The line `rm` prints for one answered removal (see [`rm_line`]).
pub fn rm_outcome_line(
    locale: UiLocale,
    dry_run: bool,
    removed: bool,
    resolved_path: Option<&str>,
    id_or_path: &str,
) -> (r: Option<String>)
    ensures
        match rm_line(
            locale,
            dry_run,
            removed,
            match resolved_path {
                Some(p) => Some(p@),
                None => None,
            },
            id_or_path@,
        ) {
            Some(l) => r matches Some(x) && x@ == l,
            None => r is None,
        },
{
    let path = match resolved_path {
        Some(p) => p,
        None => id_or_path,
    };
    let args = [("path", path)];
    assert(arguments_view(args@) =~= seq![("path"@, path@)]);
    if dry_run {
        let t = localized_named(locale, "worktree.rm.would_remove", "would remove: {path}", &args);
        Some(concat2("  ", t.as_str()))
    } else if removed {
        let t = localized_named(locale, "worktree.rm.removed", "removed: {path}", &args);
        Some(concat2("  ", t.as_str()))
    } else {
        None
    }
}

/// The line `rm` prints when removing `id_or_path` failed with `error`.
pub fn rm_error_line(locale: UiLocale, id_or_path: &str, error: &str) -> (r: String)
    ensures
        r@ == "  "@ + fill_placeholders(
            named(locale, "worktree.rm.error"@, "error removing {id_or_path}: {error}"@),
            seq![("id_or_path"@, id_or_path@), ("error"@, error@)],
        ),
{
    let args = [("id_or_path", id_or_path), ("error", error)];
    assert(arguments_view(args@) =~= seq![("id_or_path"@, id_or_path@), ("error"@, error@)]);
    let t = localized_named(
        locale,
        "worktree.rm.error",
        "error removing {id_or_path}: {error}",
        &args,
    );
    concat2("  ", t.as_str())
}

/// The line `gc` prints first in a dry run.
pub fn gc_dry_run_line(locale: UiLocale) -> (r: String)
    ensures
        r@ == named(locale, "worktree.gc.dry_run"@, "Dry run \u{2014} no changes made."@),
{
    named_text(locale, "worktree.gc.dry_run", "Dry run \u{2014} no changes made.")
}

} // verus!
