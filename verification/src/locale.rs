//! UI text by catalog id: the Simplified Chinese catalog entries of this
//! library, English fallbacks, and `{name}` placeholders.

use vstd::prelude::*;
use crate::text::{chars_of, has_prefix, str_eq, string_from_chars, string_of};

verus! {

/// The language of the user interface.
#[derive(Clone, Copy, Debug, PartialEq, Eq, Structural)]
pub enum UiLocale {
    En,
    ZhCn,
}

/// The Simplified Chinese text of a catalog id, where the catalog has one.
pub open spec fn zh_cn_catalog(id: Seq<char>) -> Option<Seq<char>> {
    if id == "tips.prefix"@ {
        Some("提示："@)
    } else if id == "tips.attach_files"@ {
        Some("可用 @ 附加文件，例如 @src/main.rs。"@)
    } else if id == "tips.hidden_files"@ {
        Some("可用 @! 引用隐藏或被忽略的文件：@!.github/workflows。"@)
    } else if id == "tips.toggle_auto_approve"@ {
        Some("按 Ctrl+O 切换自动批准模式。"@)
    } else if id == "tips.cycle_modes"@ {
        Some("使用 Shift+Tab 在不同模式之间循环切换，例如计划模式。"@)
    } else if id == "tips.compact_context"@ {
        Some("对话过长时，可运行 /compact [context]。"@)
    } else if id == "tips.background_terminal"@ {
        Some("按 Ctrl+B 将正在运行的终端命令发送到后台。"@)
    } else if id == "tips.fresh_worktree_resume"@ {
        Some("使用 `-w` 在全新的工作树中启动 Grok；加上 `-r <session-id>` 可在其中恢复已有会话。"@)
    } else if id == "tips.interject_queue"@ {
        Some("使用 Ctrl+Enter 插话；也可以直接按 Enter 将消息排入队列。"@)
    } else if id == "tips.dashboard"@ {
        Some("运行 /dashboard（或按 Ctrl+\\）即可集中查看和管理所有智能体。"@)
    } else if id == "scrollback.tool.search_tools.label"@ {
        Some("搜索工具 "@)
    } else {
        None
    }
}

/// The text of `id` in `locale`: the catalog entry, or the English text.
pub open spec fn named(locale: UiLocale, id: Seq<char>, english: Seq<char>) -> Seq<char> {
    match locale {
        UiLocale::En => english,
        UiLocale::ZhCn => match zh_cn_catalog(id) {
            Some(t) => t,
            None => english,
        },
    }
}

fn zh_cn_text(id: &str) -> (r: Option<&'static str>)
    ensures
        match zh_cn_catalog(id@) {
            Some(t) => r matches Some(x) && x@ == t,
            None => r is None,
        },
{
    if str_eq(id, "tips.prefix") {
        Some("提示：")
    } else if str_eq(id, "tips.attach_files") {
        Some("可用 @ 附加文件，例如 @src/main.rs。")
    } else if str_eq(id, "tips.hidden_files") {
        Some("可用 @! 引用隐藏或被忽略的文件：@!.github/workflows。")
    } else if str_eq(id, "tips.toggle_auto_approve") {
        Some("按 Ctrl+O 切换自动批准模式。")
    } else if str_eq(id, "tips.cycle_modes") {
        Some("使用 Shift+Tab 在不同模式之间循环切换，例如计划模式。")
    } else if str_eq(id, "tips.compact_context") {
        Some("对话过长时，可运行 /compact [context]。")
    } else if str_eq(id, "tips.background_terminal") {
        Some("按 Ctrl+B 将正在运行的终端命令发送到后台。")
    } else if str_eq(id, "tips.fresh_worktree_resume") {
        Some("使用 `-w` 在全新的工作树中启动 Grok；加上 `-r <session-id>` 可在其中恢复已有会话。")
    } else if str_eq(id, "tips.interject_queue") {
        Some("使用 Ctrl+Enter 插话；也可以直接按 Enter 将消息排入队列。")
    } else if str_eq(id, "tips.dashboard") {
        Some("运行 /dashboard（或按 Ctrl+\\）即可集中查看和管理所有智能体。")
    } else if str_eq(id, "scrollback.tool.search_tools.label") {
        Some("搜索工具 ")
    } else {
        None
    }
}

/// The text of catalog id `id` in `locale`, `english` where the catalog has
/// no entry for it.
pub fn named_text(locale: UiLocale, id: &str, english: &str) -> (r: String)
    ensures
        r@ == named(locale, id@, english@),
{
    match locale {
        UiLocale::En => string_of(english),
        UiLocale::ZhCn => match zh_cn_text(id) {
            Some(t) => string_of(t),
            None => string_of(english),
        },
    }
}

/// `str::replace`: every non-overlapping occurrence of `pat`, from the
/// left, replaced by `rep` (an empty pattern matches between characters
/// and at both ends).
pub open spec fn replace_all(s: Seq<char>, pat: Seq<char>, rep: Seq<char>) -> Seq<char>
    decreases s.len(),
{
    if pat.len() == 0 {
        if s.len() == 0 {
            rep
        } else {
            rep + seq![s[0]] + replace_all(s.skip(1), pat, rep)
        }
    } else if s.len() == 0 {
        s
    } else if has_prefix(s, pat) {
        rep + replace_all(s.skip(pat.len() as int), pat, rep)
    } else {
        seq![s[0]] + replace_all(s.skip(1), pat, rep)
    }
}

fn matches_at(s: &[char], i: usize, pat: &[char]) -> (r: bool)
    requires
        i <= s@.len(),
    ensures
        r == has_prefix(s@.skip(i as int), pat@),
{
    if pat.len() > s.len() - i {
        return false;
    }
    let n = s.len();
    let mut k: usize = 0;
    while k < pat.len()
        invariant
            n == s@.len(),
            i + pat@.len() <= s@.len(),
            k <= pat@.len(),
            forall|j: int| 0 <= j < k ==> s@[i + j] == pat@[j],
        decreases pat@.len() - k,
    {
        assert(i + k < s@.len());
        if s[i + k] != pat[k] {
            assert(s@.skip(i as int).take(pat@.len() as int)[k as int] != pat@[k as int]);
            return false;
        }
        k = k + 1;
    }
    assert(s@.skip(i as int).take(pat@.len() as int) =~= pat@);
    true
}

fn push_all(out: &mut Vec<char>, v: &[char])
    ensures
        final(out)@ == old(out)@ + v@,
{
    let mut i: usize = 0;
    while i < v.len()
        invariant
            i <= v@.len(),
            out@ == old(out)@ + v@.take(i as int),
        decreases v@.len() - i,
    {
        out.push(v[i]);
        i = i + 1;
        assert(out@ =~= old(out)@ + v@.take(i as int));
    }
    assert(v@.take(v@.len() as int) =~= v@);
}

/// `s` with every `pat` replaced by `rep` (see [`replace_all`]).
pub fn replace_chars(s: &[char], pat: &[char], rep: &[char]) -> (r: Vec<char>)
    ensures
        r@ == replace_all(s@, pat@, rep@),
{
    let mut out: Vec<char> = Vec::new();
    let mut i: usize = 0;
    assert(s@.skip(0) =~= s@);
    assert(out@ + replace_all(s@, pat@, rep@) =~= replace_all(s@, pat@, rep@));
    while i < s.len()
        invariant
            i <= s@.len(),
            replace_all(s@, pat@, rep@) == out@ + replace_all(s@.skip(i as int), pat@, rep@),
        decreases s@.len() - i,
    {
        let ghost rest = s@.skip(i as int);
        if pat.len() == 0 {
            push_all(&mut out, rep);
            out.push(s[i]);
            assert(rest.skip(1) =~= s@.skip(i + 1));
            i = i + 1;
        } else if matches_at(s, i, pat) {
            push_all(&mut out, rep);
            assert(rest.skip(pat@.len() as int) =~= s@.skip(i + pat@.len()));
            i = i + pat.len();
        } else {
            out.push(s[i]);
            assert(rest.skip(1) =~= s@.skip(i + 1));
            i = i + 1;
        }
    }
    if pat.len() == 0 {
        push_all(&mut out, rep);
    }
    assert(s@.skip(i as int) =~= Seq::<char>::empty());
    out
}

/// `text` with each `{name}` placeholder of `arguments`, in order, replaced
/// by its value.
pub open spec fn fill_placeholders(text: Seq<char>, arguments: Seq<(Seq<char>, Seq<char>)>) -> Seq<char>
    decreases arguments.len(),
{
    if arguments.len() == 0 {
        text
    } else {
        let last = arguments.last();
        replace_all(
            fill_placeholders(text, arguments.drop_last()),
            "{"@ + last.0 + "}"@,
            last.1,
        )
    }
}

/// The abstract form of placeholder arguments.
pub open spec fn arguments_view(a: Seq<(&str, &str)>) -> Seq<(Seq<char>, Seq<char>)> {
    Seq::new(a.len(), |i: int| (a[i].0@, a[i].1@))
}

/// The text of catalog id `id` in `locale` (English `english`), with the
/// `{name}` placeholders of `arguments` filled in.
pub fn localized_named(locale: UiLocale, id: &str, english: &str, arguments: &[(&str, &str)]) -> (r: String)
    ensures
        r@ == fill_placeholders(named(locale, id@, english@), arguments_view(arguments@)),
{
    let base = named_text(locale, id, english);
    let mut out = chars_of(base.as_str());
    let ghost args = arguments_view(arguments@);
    let mut i: usize = 0;
    while i < arguments.len()
        invariant
            i <= arguments@.len(),
            args == arguments_view(arguments@),
            out@ == fill_placeholders(named(locale, id@, english@), args.take(i as int)),
        decreases arguments@.len() - i,
    {
        let (name, value) = arguments[i];
        let mut pat: Vec<char> = Vec::new();
        pat.push('{');
        let nchars = chars_of(name);
        push_all(&mut pat, nchars.as_slice());
        pat.push('}');
        let vchars = chars_of(value);
        proof {
            reveal_strlit("{");
            reveal_strlit("}");
            assert(pat@ =~= "{"@ + name@ + "}"@);
            assert(args.take(i + 1).drop_last() =~= args.take(i as int));
            assert(args.take(i + 1).last() == (name@, value@));
        }
        out = replace_chars(out.as_slice(), pat.as_slice(), vchars.as_slice());
        i = i + 1;
    }
    assert(args.take(arguments@.len() as int) =~= args);
    string_from_chars(out.as_slice())
}

} // verus!
