//! Results of the `search_tool` integration-tool discovery.

use vstd::prelude::*;
use crate::locale::{named, named_text, UiLocale};
use crate::text::{
    chars_of, chars_start_with, concat3, decimal, has_prefix, slice_chars, string_from_chars,
    string_of, u64_to_decimal,
};
use crate::tips::{display_width, str_width};

verus! {

/// A tool found by a search: its (possibly server-prefixed) name, its
/// server and its description.
#[derive(Clone, Debug)]
pub struct DiscoveredTool {
    pub name: String,
    pub server: String,
    pub description: String,
}

/// The action part of a tool name: the name without a leading
/// `{server}__`, or the whole name where it has no such prefix.
pub open spec fn tool_action(name: Seq<char>, server: Seq<char>) -> Seq<char> {
    let rest = name.skip(server.len() as int);
    if has_prefix(name, server) && has_prefix(rest, "__"@) {
        rest.skip(2)
    } else {
        name
    }
}

/// The action a discovered tool performs (see [`tool_action`]).
pub fn discovered_tool_action(tool: &DiscoveredTool) -> (r: String)
    ensures
        r@ == tool_action(tool.name@, tool.server@),
{
    let name = chars_of(tool.name.as_str());
    let server = chars_of(tool.server.as_str());
    let sep = chars_of("__");
    proof {
        reveal_strlit("__");
    }
    if chars_start_with(name.as_slice(), server.as_slice()) {
        let rest = slice_chars(name.as_slice(), server.len(), name.len());
        assert(rest@ =~= name@.skip(server@.len() as int));
        if chars_start_with(rest.as_slice(), sep.as_slice()) {
            let action = slice_chars(rest.as_slice(), 2, rest.len());
            assert(action@ =~= rest@.skip(2));
            return string_from_chars(action.as_slice());
        }
    }
    string_from_chars(name.as_slice())
}

/// `std::time::Instant`, carried through as an opaque start time.
#[verifier::external_type_specification]
#[verifier::external_body]
pub struct ExInstant(std::time::Instant);

/// `Instant::elapsed`, in whole milliseconds; it reads the clock, so
/// nothing is stated of the result.
#[verifier::external_body]
fn elapsed_millis(start: &std::time::Instant) -> i64 {
    start.elapsed().as_millis() as i64
}

/// A `search_tool` call: its query and limit, what it found, and when it
/// ran.
#[derive(Clone, Debug)]
pub struct SearchToolCallBlock {
    /// The search query.
    pub query: String,
    /// The limit of the request (`None` for the default).
    pub limit: Option<u8>,
    /// The number of results found.
    pub result_count: usize,
    /// The tools found.
    pub results: Vec<DiscoveredTool>,
    /// The raw output, for the full-screen viewer.
    pub content: Option<String>,
    /// The error of a failed call.
    pub error: Option<String>,
    /// When the call started running.
    pub started_at: Option<std::time::Instant>,
    /// The run time once the call completed.
    pub elapsed_ms: Option<i64>,
}

impl SearchToolCallBlock {
    /// A call for `query` that has not run yet.
    pub fn new(query: &str) -> (b: SearchToolCallBlock)
        ensures
            b.query@ == query@,
            b.limit is None,
            b.result_count == 0,
            b.results@.len() == 0,
            b.content is None,
            b.error is None,
            b.started_at is None,
            b.elapsed_ms is None,
    {
        SearchToolCallBlock {
            query: string_of(query),
            limit: None,
            result_count: 0,
            results: Vec::new(),
            content: None,
            error: None,
            started_at: None,
            elapsed_ms: None,
        }
    }

    /// The same call, failed with `error`.
    pub fn with_error(self, error: &str) -> (b: SearchToolCallBlock)
        ensures
            b.error matches Some(e) && e@ == error@,
            b.query == self.query,
            b.limit == self.limit,
            b.result_count == self.result_count,
            b.results == self.results,
            b.content == self.content,
            b.started_at == self.started_at,
            b.elapsed_ms == self.elapsed_ms,
    {
        let mut b = self;
        b.error = Some(string_of(error));
        b
    }

    /// Whether the call succeeded.
    pub fn is_success(&self) -> (r: bool)
        ensures
            r == self.error is None,
    {
        self.error.is_none()
    }

    /// Records the outcome `error`; a started call that had no run time yet
    /// gets one now.
    pub fn set_error(&mut self, error: Option<String>)
        ensures
            final(self).error == error,
            final(self).query == old(self).query,
            final(self).limit == old(self).limit,
            final(self).result_count == old(self).result_count,
            final(self).results == old(self).results,
            final(self).content == old(self).content,
            final(self).started_at == old(self).started_at,
            old(self).elapsed_ms is Some ==> final(self).elapsed_ms == old(self).elapsed_ms,
            old(self).elapsed_ms is None ==> (final(self).elapsed_ms is Some
                <==> old(self).started_at is Some),
    {
        if self.elapsed_ms.is_none() {
            if let Some(start) = &self.started_at {
                self.elapsed_ms = Some(elapsed_millis(start));
            }
        }
        self.error = error;
    }

    /// Marks the call complete: a started call that had no run time yet
    /// gets one now.
    pub fn finish(&mut self)
        ensures
            final(self).error == old(self).error,
            final(self).query == old(self).query,
            final(self).limit == old(self).limit,
            final(self).result_count == old(self).result_count,
            final(self).results == old(self).results,
            final(self).content == old(self).content,
            final(self).started_at == old(self).started_at,
            old(self).elapsed_ms is Some ==> final(self).elapsed_ms == old(self).elapsed_ms,
            old(self).elapsed_ms is None ==> (final(self).elapsed_ms is Some
                <==> old(self).started_at is Some),
    {
        if self.elapsed_ms.is_some() {
            return;
        }
        if let Some(start) = &self.started_at {
            self.elapsed_ms = Some(elapsed_millis(start));
        }
    }

    /// The run time: the recorded one, else the time since the start of a
    /// call still running, else none.
    pub fn elapsed_ms(&self) -> (r: Option<i64>)
        ensures
            self.elapsed_ms is Some ==> r == self.elapsed_ms,
            self.elapsed_ms is None ==> (r is Some <==> self.started_at is Some),
    {
        match self.elapsed_ms {
            Some(ms) => Some(ms),
            None => match &self.started_at {
                Some(start) => Some(elapsed_millis(start)),
                None => None,
            },
        }
    }

    /// Whether the expanded view can fold: a successful call with results.
    pub fn is_foldable(&self) -> (r: bool)
        ensures
            r == (self.error is None && self.results@.len() > 0),
    {
        self.error.is_none() && self.results.len() > 0
    }
}

// ---------------------------------------------------------------------------
// The header of a search result block

/// The label that starts the header.
pub open spec fn header_prefix(locale: UiLocale) -> Seq<char> {
    named(locale, "scrollback.tool.search_tools.label"@, "Search Tools "@)
}

/// The label that starts the header (see [`header_prefix`]).
pub fn search_header_prefix(locale: UiLocale) -> (r: String)
    ensures
        r@ == header_prefix(locale),
{
    named_text(locale, "scrollback.tool.search_tools.label", "Search Tools ")
}

/// The result count after the query: `（N 个结果）` in Simplified Chinese,
/// ` (N result)` or ` (N results)` otherwise.
pub open spec fn result_suffix(locale: UiLocale, count: nat) -> Seq<char> {
    if locale == UiLocale::ZhCn {
        "（"@ + decimal(count) + " 个结果）"@
    } else {
        " ("@ + decimal(count) + (if count == 1 {
            " result)"@
        } else {
            " results)"@
        })
    }
}

/// `a - b`, or zero where `b` is larger (`usize::saturating_sub`).
pub open spec fn saturating_sub(a: nat, b: nat) -> nat {
    if a >= b {
        (a - b) as nat
    } else {
        0
    }
}

/// The collapsed header at `max_width` columns with a label `prefix_width`
/// columns wide: the count suffix where label and suffix together stay
/// narrower than the line (else none), and the columns left for the query.
pub fn search_header_layout(
    locale: UiLocale,
    result_count: usize,
    prefix_width: usize,
    max_width: usize,
) -> (r: (String, usize))
    ensures
        ({
            let suffix = result_suffix(locale, result_count as nat);
            let fits = prefix_width + display_width(suffix) < max_width;
            &&& r.0@ == (if fits {
                suffix
            } else {
                Seq::<char>::empty()
            })
            &&& r.1 == saturating_sub(
                saturating_sub(max_width as nat, prefix_width as nat),
                if fits {
                    display_width(suffix)
                } else {
                    0
                },
            )
        }),
{
    let count = u64_to_decimal(result_count as u64);
    let suffix = if locale == UiLocale::ZhCn {
        concat3("（", count.as_str(), " 个结果）")
    } else if result_count == 1 {
        concat3(" (", count.as_str(), " result)")
    } else {
        concat3(" (", count.as_str(), " results)")
    };
    proof {
        reveal_strlit(" (");
        reveal_strlit(" result)");
        reveal_strlit(" results)");
        if locale != UiLocale::ZhCn {
            assert(suffix@ =~= result_suffix(locale, result_count as nat));
        }
    }
    let suffix_width = str_width(suffix.as_str());
    let fits = (prefix_width as u128) + (suffix_width as u128) < (max_width as u128);
    let effective = if fits {
        suffix
    } else {
        String::new()
    };
    let effective_width = str_width(effective.as_str());
    let budget = max_width.saturating_sub(prefix_width).saturating_sub(effective_width);
    (effective, budget)
}

} // verus!
