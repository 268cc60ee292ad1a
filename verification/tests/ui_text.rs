use grok_zh::locale::{localized_named, named_text, replace_chars, UiLocale};
use grok_zh::search_tool::{
    discovered_tool_action, search_header_layout, search_header_prefix, DiscoveredTool,
    SearchToolCallBlock,
};
use grok_zh::tips::{localized_tip_body, tip_height, tip_height_with_locale, tip_rows_for_widths, tip_text};
use grok_zh::worktree::{
    ext_method, gc_dry_run_line, rm_error_line, rm_outcome_line, show_not_found_message,
    unwrap_envelope, WorktreeCommand, WorktreeDbCommand, WorktreeError,
};

fn tool(name: &str, server: &str) -> DiscoveredTool {
    DiscoveredTool { name: name.into(), server: server.into(), description: String::new() }
}

#[test]
fn discovered_tool_action_strips_local_mcp_prefix() {
    assert_eq!(discovered_tool_action(&tool("linear__save_issue", "linear")), "save_issue");
}

#[test]
fn discovered_tool_action_keeps_gateway_flat_name() {
    assert_eq!(
        discovered_tool_action(&tool("google_calendar_search", "Google Calendar")),
        "google_calendar_search"
    );
}

#[test]
fn discovered_tool_action_strips_gateway_mcp_prefix() {
    assert_eq!(discovered_tool_action(&tool("google_calendar__search", "google_calendar")), "search");
}

#[test]
fn known_attach_files_tip_is_localized_without_rewriting_tokens() {
    let text = tip_text("Use @ to attach files like @src/main.rs.", Some(UiLocale::ZhCn));
    assert_eq!(text, "提示：可用 @ 附加文件，例如 @src/main.rs。");
}

#[test]
fn localization_regression_compact_tip_unknown_remote_tip_is_opaque() {
    let text = tip_text("Run /compact [context] when chat gets long.", Some(UiLocale::ZhCn));
    assert_eq!(text, "提示：对话过长时，可运行 /compact [context]。");
    let unknown = tip_text("Review the current policy.", Some(UiLocale::ZhCn));
    assert_eq!(unknown, "提示：Review the current policy.");
}

#[test]
fn current_remote_tip_catalog_is_localized_without_rewriting_shortcuts() {
    let cases = [
        (
            "Use @! for hidden or ignored files: @!.github/workflows.",
            "提示：可用 @! 引用隐藏或被忽略的文件：@!.github/workflows。",
        ),
        ("Press Ctrl+O to toggle auto-approve mode.", "提示：按 Ctrl+O 切换自动批准模式。"),
        (
            "Use Shift+Tab to cycle between modes like Plan mode.",
            "提示：使用 Shift+Tab 在不同模式之间循环切换，例如计划模式。",
        ),
        (
            "Press Ctrl+B to background a running terminal command.",
            "提示：按 Ctrl+B 将正在运行的终端命令发送到后台。",
        ),
        (
            "Start Grok in a fresh worktree with `-w`; add `-r <session-id>` to resume an existing session there.",
            "提示：使用 `-w` 在全新的工作树中启动 Grok；加上 `-r <session-id>` 可在其中恢复已有会话。",
        ),
        (
            "Use Ctrl+Enter to interject messages. Or just Enter to queue messages.",
            "提示：使用 Ctrl+Enter 插话；也可以直接按 Enter 将消息排入队列。",
        ),
        (
            "Run /dashboard (or Ctrl+\\) to see and manage all your agents in one place.",
            "提示：运行 /dashboard（或按 Ctrl+\\）即可集中查看和管理所有智能体。",
        ),
    ];
    for (english, expected) in cases {
        assert_eq!(tip_text(english, Some(UiLocale::ZhCn)), expected);
    }
}

#[test]
fn tips_without_locale_or_in_english_stay_english() {
    let tip = "Press Ctrl+O to toggle auto-approve mode.";
    assert_eq!(tip_text(tip, None), format!("Tip: {tip}"));
    assert_eq!(tip_text(tip, Some(UiLocale::En)), format!("Tip: {tip}"));
    assert_eq!(localized_tip_body(tip, None), tip);
}

#[test]
fn tip_height_wraps_by_display_width() {
    // "Tip: " is 5 columns wide; the body here 10.
    assert_eq!(tip_height(0, "0123456789"), 0);
    assert_eq!(tip_height(15, "0123456789"), 1);
    assert_eq!(tip_height(14, "0123456789"), 2);
    assert_eq!(tip_height(5, "0123456789"), 3);
    // Chinese characters are two columns wide: "提示：" is 6 columns.
    assert_eq!(tip_height_with_locale(6, "Review", Some(UiLocale::ZhCn)), 2);
    assert_eq!(tip_rows_for_widths(10, 5, 10), 2);
    assert_eq!(tip_rows_for_widths(1, 65535, 0), 65535);
    assert_eq!(tip_rows_for_widths(3, 65536, 2), 1);
}

#[test]
fn placeholders_are_filled_in_order() {
    assert_eq!(
        localized_named(
            UiLocale::En,
            "worktree.rm.error",
            "error removing {id_or_path}: {error}",
            &[("id_or_path", "wt-1"), ("error", "{id_or_path}")],
        ),
        "error removing wt-1: {id_or_path}"
    );
    assert_eq!(named_text(UiLocale::ZhCn, "tips.prefix", "Tip: "), "提示：");
    assert_eq!(named_text(UiLocale::ZhCn, "unknown.id", "fallback"), "fallback");
    let s: Vec<char> = "aaa".chars().collect();
    let p: Vec<char> = "aa".chars().collect();
    let r: Vec<char> = "b".chars().collect();
    assert_eq!(replace_chars(&s, &p, &r).into_iter().collect::<String>(), "aaa".replace("aa", "b"));
    let e: Vec<char> = Vec::new();
    assert_eq!(replace_chars(&s, &e, &r).into_iter().collect::<String>(), "aaa".replace("", "b"));
}

#[test]
fn worktree_lines_and_methods() {
    assert_eq!(show_not_found_message(UiLocale::En, "wt-9"), "worktree not found: wt-9");
    assert_eq!(
        rm_outcome_line(UiLocale::En, true, false, Some("/resolved"), "wt-1"),
        Some("  would remove: /resolved".to_string())
    );
    assert_eq!(
        rm_outcome_line(UiLocale::En, false, true, None, "wt-1"),
        Some("  removed: wt-1".to_string())
    );
    assert_eq!(rm_outcome_line(UiLocale::En, false, false, None, "wt-1"), None);
    assert_eq!(rm_error_line(UiLocale::En, "wt-1", "boom"), "  error removing wt-1: boom");
    assert_eq!(gc_dry_run_line(UiLocale::En), "Dry run \u{2014} no changes made.");
    let rm = WorktreeCommand::Rm { ids: vec!["a".into()], force: true, dry_run: false };
    assert_eq!(ext_method(&rm), "x.ai/git/worktree/remove");
    let stats = WorktreeCommand::Db { command: WorktreeDbCommand::Stats };
    assert_eq!(ext_method(&stats), "x.ai/git/worktree/db/stats");
}

#[test]
fn ext_envelope_error_wins_over_result() {
    assert_eq!(unwrap_envelope(Some(5u64), None), Ok(5));
    assert_eq!(
        unwrap_envelope(Some(5u64), Some("\"something went wrong\"".to_string())),
        Err(WorktreeError::Acp("\"something went wrong\"".to_string()))
    );
    assert_eq!(unwrap_envelope::<u64>(None, None), Err(WorktreeError::MissingResult));
    assert_eq!(WorktreeError::MissingResult.message(), "ACP response missing result field");
    assert_eq!(WorktreeError::Acp("x".into()).message(), "ACP error: x");
}

#[test]
fn search_tool_block_records_outcome_and_run_time() {
    let block = SearchToolCallBlock::new("tasks list");
    assert_eq!(block.query, "tasks list");
    assert!(block.is_success());
    assert_eq!(block.elapsed_ms(), None);
    assert!(!block.is_foldable());

    let mut started = SearchToolCallBlock::new("q");
    started.started_at = Some(std::time::Instant::now());
    assert!(started.elapsed_ms().is_some());
    started.finish();
    let recorded = started.elapsed_ms;
    assert!(recorded.is_some());
    started.set_error(Some("boom".to_string()));
    assert_eq!(started.elapsed_ms, recorded);
    assert!(!started.is_success());

    let failed = SearchToolCallBlock::new("q").with_error("no network");
    assert_eq!(failed.error.as_deref(), Some("no network"));
    let mut found = SearchToolCallBlock::new("q");
    found.results.push(tool("a__b", "a"));
    found.result_count = 1;
    assert!(found.is_foldable());
    found.set_error(Some("late".to_string()));
    assert!(!found.is_foldable());
    assert_eq!(found.elapsed_ms, None);
}

#[test]
fn search_header_suffix_fits_or_is_dropped() {
    assert_eq!(search_header_prefix(UiLocale::ZhCn), "搜索工具 ");
    assert_eq!(search_header_prefix(UiLocale::En), "Search Tools ");
    // " (4 results)" is 12 columns: 13 + 12 < 40 leaves 40 - 13 - 12 for the query.
    assert_eq!(search_header_layout(UiLocale::En, 4, 13, 40), (" (4 results)".to_string(), 15));
    assert_eq!(search_header_layout(UiLocale::En, 1, 13, 40), (" (1 result)".to_string(), 16));
    // "（4 个结果）" is 12 columns wide.
    assert_eq!(search_header_layout(UiLocale::ZhCn, 4, 9, 30), ("（4 个结果）".to_string(), 9));
    // No room for the suffix: it is dropped and the query gets the rest.
    assert_eq!(search_header_layout(UiLocale::En, 4, 13, 25), (String::new(), 12));
    assert_eq!(search_header_layout(UiLocale::En, 4, 30, 20), (String::new(), 0));
}
