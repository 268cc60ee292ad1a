//! Session tips: the localized text of a tip line and the rows it needs at
//! a given width. Only the known tips and the `Tip: ` prefix are
//! translated; unknown server-authored tips keep their text.

use vstd::prelude::*;
use crate::locale::{named, named_text, UiLocale};
use crate::text::{concat2, str_eq, string_of};

verus! {

/// The catalog id of a known tip.
pub open spec fn tip_catalog_id(tip: Seq<char>) -> Option<Seq<char>> {
    if tip == "Use @ to attach files like @src/main.rs."@ {
        Some("tips.attach_files"@)
    } else if tip == "Use @! for hidden or ignored files: @!.github/workflows."@ {
        Some("tips.hidden_files"@)
    } else if tip == "Press Ctrl+O to toggle auto-approve mode."@ {
        Some("tips.toggle_auto_approve"@)
    } else if tip == "Use Shift+Tab to cycle between modes like Plan mode."@ {
        Some("tips.cycle_modes"@)
    } else if tip == "Run /compact [context] when chat gets long."@ {
        Some("tips.compact_context"@)
    } else if tip == "Press Ctrl+B to background a running terminal command."@ {
        Some("tips.background_terminal"@)
    } else if tip
        == "Start Grok in a fresh worktree with `-w`; add `-r <session-id>` to resume an existing session there."@ {
        Some("tips.fresh_worktree_resume"@)
    } else if tip == "Use Ctrl+Enter to interject messages. Or just Enter to queue messages."@ {
        Some("tips.interject_queue"@)
    } else if tip == "Run /dashboard (or Ctrl+\\) to see and manage all your agents in one place."@ {
        Some("tips.dashboard"@)
    } else {
        None
    }
}

fn tip_catalog_id_exec(tip: &str) -> (r: Option<&'static str>)
    ensures
        match tip_catalog_id(tip@) {
            Some(id) => r matches Some(x) && x@ == id,
            None => r is None,
        },
{
    if str_eq(tip, "Use @ to attach files like @src/main.rs.") {
        Some("tips.attach_files")
    } else if str_eq(tip, "Use @! for hidden or ignored files: @!.github/workflows.") {
        Some("tips.hidden_files")
    } else if str_eq(tip, "Press Ctrl+O to toggle auto-approve mode.") {
        Some("tips.toggle_auto_approve")
    } else if str_eq(tip, "Use Shift+Tab to cycle between modes like Plan mode.") {
        Some("tips.cycle_modes")
    } else if str_eq(tip, "Run /compact [context] when chat gets long.") {
        Some("tips.compact_context")
    } else if str_eq(tip, "Press Ctrl+B to background a running terminal command.") {
        Some("tips.background_terminal")
    } else if str_eq(
        tip,
        "Start Grok in a fresh worktree with `-w`; add `-r <session-id>` to resume an existing session there.",
    ) {
        Some("tips.fresh_worktree_resume")
    } else if str_eq(tip, "Use Ctrl+Enter to interject messages. Or just Enter to queue messages.") {
        Some("tips.interject_queue")
    } else if str_eq(
        tip,
        "Run /dashboard (or Ctrl+\\) to see and manage all your agents in one place.",
    ) {
        Some("tips.dashboard")
    } else {
        None
    }
}

/// The body of a tip line: a known tip in the locale's text, any other tip
/// as it is; without a locale, the tip as it is.
pub open spec fn tip_body(tip: Seq<char>, locale: Option<UiLocale>) -> Seq<char> {
    match locale {
        None => tip,
        Some(l) => match tip_catalog_id(tip) {
            Some(id) => named(l, id, tip),
            None => tip,
        },
    }
}

/// The prefix of a tip line.
pub open spec fn tip_prefix(locale: Option<UiLocale>) -> Seq<char> {
    match locale {
        None => "Tip: "@,
        Some(l) => named(l, "tips.prefix"@, "Tip: "@),
    }
}

/// The body of the tip line for `tip` (see [`tip_body`]).
pub fn localized_tip_body(tip: &str, locale: Option<UiLocale>) -> (r: String)
    ensures
        r@ == tip_body(tip@, locale),
{
    match locale {
        None => string_of(tip),
        Some(l) => match tip_catalog_id_exec(tip) {
            Some(id) => named_text(l, id, tip),
            None => string_of(tip),
        },
    }
}

/// The prefix of a tip line (see [`tip_prefix`]).
pub fn tip_prefix_text(locale: Option<UiLocale>) -> (r: String)
    ensures
        r@ == tip_prefix(locale),
{
    match locale {
        None => string_of("Tip: "),
        Some(l) => named_text(l, "tips.prefix", "Tip: "),
    }
}

/// The text of the tip line: its prefix, then its body.
pub fn tip_text(tip: &str, locale: Option<UiLocale>) -> (r: String)
    ensures
        r@ == tip_prefix(locale) + tip_body(tip@, locale),
{
    let prefix = tip_prefix_text(locale);
    let body = localized_tip_body(tip, locale);
    concat2(prefix.as_str(), body.as_str())
}

/// The number of terminal columns `UnicodeWidthStr::width` gives a text.
pub uninterp spec fn display_width(s: Seq<char>) -> nat;

/// `unicode_width::UnicodeWidthStr::width`: the displayed width of `s` in
/// columns; the contract names the result, which depends on the text alone,
/// and states that the empty text is zero columns wide.
#[verifier::external_body]
pub(crate) fn str_width(s: &str) -> (w: usize)
    ensures
        w as nat == display_width(s@),
        s@.len() == 0 ==> w == 0,
{
    unicode_width::UnicodeWidthStr::width(s)
}

/// The rows a tip line needs at `width` columns when its prefix and its
/// body are `prefix_width` and `body_width` columns wide: none at width 0,
/// otherwise the line width (kept to 16 bits) divided by the width, rounded
/// up, and at least one.
pub open spec fn tip_rows(width: u16, prefix_width: nat, body_width: nat) -> u16 {
    let line = (prefix_width + body_width) % 65536;
    if width == 0 {
        0
    } else if line <= width {
        1
    } else {
        ((line + width - 1) / (width as int)) as u16
    }
}

/// The rows a tip line with the given span widths needs at `width` (see
/// [`tip_rows`]).
pub fn tip_rows_for_widths(width: u16, prefix_width: usize, body_width: usize) -> (r: u16)
    ensures
        r == tip_rows(width, prefix_width as nat, body_width as nat),
{
    if width == 0 {
        return 0;
    }
    let total: u128 = prefix_width as u128 + body_width as u128;
    let line: u32 = (total % 65536) as u32;
    let w: u32 = width as u32;
    if line <= w {
        1
    } else {
        let rows: u32 = (line + w - 1) / w;
        assert(rows <= line) by (nonlinear_arith)
            requires
                w >= 1,
                rows == (line + w - 1) / (w as int),
                line > w,
        ;
        rows as u16
    }
}

/// The rows the tip line for `tip` needs at `width` columns in `locale`.
pub fn tip_height_with_locale(width: u16, tip: &str, locale: Option<UiLocale>) -> (r: u16)
    ensures
        r == tip_rows(width, display_width(tip_prefix(locale)), display_width(tip_body(tip@, locale))),
{
    if width == 0 {
        return 0;
    }
    let prefix = tip_prefix_text(locale);
    let body = localized_tip_body(tip, locale);
    tip_rows_for_widths(width, str_width(prefix.as_str()), str_width(body.as_str()))
}

/// The rows the untranslated tip line for `tip` needs at `width` columns.
pub fn tip_height(width: u16, tip: &str) -> (r: u16)
    ensures
        r == tip_rows(width, display_width("Tip: "@), display_width(tip@)),
{
    tip_height_with_locale(width, tip, None)
}

/// Unknown server-authored tips keep their original body in every locale;
/// only the known tips (and the prefix) are translated.
pub proof fn lemma_unknown_tips_keep_their_text(tip: Seq<char>, locale: Option<UiLocale>)
    requires
        tip_catalog_id(tip) is None,
    ensures
        tip_body(tip, locale) == tip,
{
}

/// In English, and without a locale, a tip line is the untranslated
/// `Tip: ` prefix and the tip itself.
pub proof fn lemma_english_tip_lines_are_untranslated(tip: Seq<char>)
    ensures
        tip_body(tip, Some(UiLocale::En)) == tip,
        tip_prefix(Some(UiLocale::En)) == "Tip: "@,
        tip_body(tip, None) == tip,
        tip_prefix(None) == "Tip: "@,
{
}

} // verus!
