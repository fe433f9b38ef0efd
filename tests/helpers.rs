use ra::pages::{find_limits, find_matches, page_kind, FindMatch, PageKind};
use ra::paging::{grep_limit, line_paging, list_dir_paging, list_dir_window, numbered_lines, read_file_window};
use ra::prompt::{build_system_prompt, join_agents_notes};
use ra::session::{
    check_output_modes, has_search_key, log_file_name, resolve_api_key, resolve_path, should_retry_web_status,
    submit_mode, web_backoff_ms, web_max_bytes_from,
};
use ra::text::{decimal_text, lines, normalize_text, trim, trim_end, truncate};
use ra::tool_log::{
    detect_patch_strip_level, output_is_error_json, parse_command_output, parse_patch_changes,
    strip_patch_prefix, tool_command_string, tool_error, ChangeKind,
};
use ra::usage::{token_usage_from_usage, TokenUsage, Usage};

#[test]
fn truncate_marks_the_cut() {
    assert_eq!(truncate("hello", 10), ("hello".to_string(), false));
    assert_eq!(truncate("hello", 5), ("hello".to_string(), false));
    assert_eq!(truncate("hello", 3), ("hel\n...[truncated]...".to_string(), true));
    assert_eq!(truncate("héllo", 2), ("hé\n...[truncated]...".to_string(), true));
    assert_eq!(truncate("", 0), (String::new(), false));
}

#[test]
fn trimming_follows_unicode_whitespace() {
    assert_eq!(trim(" \t a b \n"), "a b");
    assert_eq!(trim("\u{3000}x\u{a0}"), "x");
    assert_eq!(trim("   "), "");
    assert_eq!(trim_end("  a  \r"), "  a");
}

#[test]
fn lines_split_like_str_lines() {
    assert_eq!(lines("a\nb\r\nc"), vec!["a", "b", "c"]);
    assert_eq!(lines("a\n"), vec!["a"]);
    assert_eq!(lines("\n\n"), vec!["", ""]);
    assert_eq!(lines("a\r"), vec!["a\r"]);
    assert!(lines("").is_empty());
}

#[test]
fn decimal_rendering() {
    assert_eq!(decimal_text(0), "0");
    assert_eq!(decimal_text(503), "503");
    assert_eq!(decimal_text(u64::MAX), "18446744073709551615");
}

#[test]
fn patch_prefixes_are_stripped() {
    assert_eq!(strip_patch_prefix(" a/src/x.rs "), "src/x.rs");
    assert_eq!(strip_patch_prefix("b/y"), "y");
    assert_eq!(strip_patch_prefix("/dev/null"), "");
    assert_eq!(strip_patch_prefix("c/z"), "c/z");
}

#[test]
fn strip_level_detection() {
    assert_eq!(detect_patch_strip_level("diff --git a/x b/x\n--- a/x\n+++ b/x\n"), 1);
    assert_eq!(detect_patch_strip_level("--- x\n+++ x\n"), 0);
    assert_eq!(detect_patch_strip_level("+++ b/x"), 1);
    assert_eq!(detect_patch_strip_level(""), 0);
}

#[test]
fn patch_changes_are_listed_once_each() {
    let patch = "--- /dev/null\n+++ b/new.txt\n@@\n--- a/old.txt\n+++ /dev/null\n--- a/mod.txt\n+++ b/mod.txt\n--- a/mod.txt\n+++ b/mod.txt\n+++ b/orphan.txt\n";
    let changes = parse_patch_changes(patch);
    let got: Vec<(String, ChangeKind)> = changes.into_iter().map(|c| (c.path, c.kind)).collect();
    assert_eq!(
        got,
        vec![
            ("new.txt".to_string(), ChangeKind::Add),
            ("old.txt".to_string(), ChangeKind::Delete),
            ("mod.txt".to_string(), ChangeKind::Update),
        ]
    );
}

#[test]
fn command_output_is_aggregated() {
    assert_eq!(
        parse_command_output("{\"exit_code\":2,\"stdout\":\"out\",\"stderr\":\"err\"}"),
        Some((2, "out\nerr".to_string()))
    );
    assert_eq!(parse_command_output("{\"exit_code\":0,\"stdout\":\"\",\"stderr\":\"err\"}"), Some((0, "err".to_string())));
    assert_eq!(parse_command_output("{\"exit_code\":0,\"stdout\":\"o\",\"stderr\":\"  \"}"), Some((0, "o".to_string())));
    assert_eq!(parse_command_output("{\"exit_code\":-1}"), Some((-1, String::new())));
    assert_eq!(parse_command_output("{\"stdout\":\"o\"}"), None);
    assert_eq!(parse_command_output("not json"), None);
}

#[test]
fn error_objects_are_recognized_and_made() {
    assert!(output_is_error_json("{\"error\":\"x\"}"));
    assert!(!output_is_error_json("{\"ok\":true}"));
    assert!(!output_is_error_json("[\"error\"]"));
    assert_eq!(tool_error("bad \"quote\""), "{\"error\":\"bad \\\"quote\\\"\"}");
}

#[test]
fn command_strings_for_logging() {
    assert_eq!(tool_command_string("shell_command", "{\"command\":\"ls -la\"}"), "bash -lc ls -la");
    assert_eq!(tool_command_string("shell_command", "oops"), "bash -lc oops");
    assert_eq!(tool_command_string("read_file", "{\"file_path\":\"a\"}"), "tool:read_file {\"file_path\":\"a\"}");
    assert_eq!(tool_command_string("list_dir", "  "), "tool:list_dir");
}

#[test]
fn usage_totals() {
    let u = Usage { prompt_tokens: 3, completion_tokens: 4, total_tokens: 0, cached_tokens: Some(2), reasoning_tokens: None };
    let t = token_usage_from_usage(&u);
    assert_eq!(t, TokenUsage { input_tokens: 3, cached_input_tokens: 2, output_tokens: 4, reasoning_output_tokens: 0, total_tokens: 7 });
    let mut sum = TokenUsage::new();
    sum.add_assign(&t);
    sum.add_assign(&t);
    assert_eq!(sum.total_tokens, 14);
    assert_eq!(sum.cached_input_tokens, 4);
    let big = TokenUsage { input_tokens: i64::MAX, cached_input_tokens: 0, output_tokens: 0, reasoning_output_tokens: 0, total_tokens: 0 };
    sum.add_assign(&big);
    assert_eq!(sum.input_tokens, i64::MAX);
    let given = Usage { prompt_tokens: 1, completion_tokens: 1, total_tokens: 5, cached_tokens: None, reasoning_tokens: Some(9) };
    let g = token_usage_from_usage(&given);
    assert_eq!(g.total_tokens, 5);
    assert_eq!(g.reasoning_output_tokens, 9);
}

#[test]
fn system_prompt_text() {
    let (p, notes) = build_system_prompt("/w", Some(5), None, true, Some("be nice".to_string()));
    assert!(p.starts_with("You are a CLI agent."));
    assert!(p.contains("\n- If you are done, call submit with a concise final answer.\nEnvironment:\n- cwd: /w\n- max_steps: 5\n- time_limit_sec: unset\n- network_access: enabled\n- sandbox: none\n\nTools:\n"));
    assert!(p.contains("- apply_patch(patch)\n- submit(answer)\n\nTool usage notes:\n"));
    assert!(p.contains("(e.g. use \"main\\(\" to search for \"main(\")"));
    assert!(p.ends_with("prefer apply_patch.\n\n\nbe nice"));
    assert_eq!(notes.as_deref(), Some("be nice"));
    let (q, none) = build_system_prompt(".", None, Some(60), false, None);
    assert!(q.contains("respond with a concise final answer."));
    assert!(q.contains("- time_limit_sec: 60"));
    assert!(!q.contains("submit(answer)"));
    assert!(q.ends_with("prefer apply_patch.\n"));
    assert!(none.is_none());
}

#[test]
fn agent_notes_join_with_blank_lines() {
    assert_eq!(join_agents_notes(&vec![]), None);
    assert_eq!(join_agents_notes(&vec!["a".to_string()]).as_deref(), Some("a"));
    assert_eq!(join_agents_notes(&vec!["a".to_string(), "b".to_string()]).as_deref(), Some("a\n\nb"));
}

#[test]
fn session_settings() {
    assert_eq!(submit_mode(false, false, true), Ok(true));
    assert_eq!(submit_mode(false, false, false), Ok(false));
    assert_eq!(submit_mode(true, false, false), Ok(true));
    assert_eq!(submit_mode(false, true, true), Ok(false));
    assert_eq!(submit_mode(true, true, false), Err("--exec and --no-submit cannot both be set".to_string()));
    assert_eq!(check_output_modes(true, true), Err("--json and --stream-json cannot both be set".to_string()));
    assert!(check_output_modes(true, false).is_ok());
    assert_eq!(resolve_api_key(Some("k".to_string()), Some("e".to_string())), Ok("k".to_string()));
    assert_eq!(resolve_api_key(None, Some("e".to_string())), Ok("e".to_string()));
    assert_eq!(
        resolve_api_key(Some(String::new()), Some("e".to_string())),
        Err("missing API key: set --api-key or OPENROUTER_API_KEY".to_string())
    );
    assert_eq!(resolve_api_key(None, None), Err("missing API key: set --api-key or OPENROUTER_API_KEY".to_string()));
    assert_eq!(log_file_name("2024-01-02T03:04:05Z", "abc"), "ra-2024-01-02T03-04-05Z-abc.jsonl");
}

#[test]
fn paths_resolve_against_the_working_directory() {
    assert_eq!(resolve_path("/w", "a/b"), "/w/a/b");
    assert_eq!(resolve_path("/w/", "a"), "/w/a");
    assert_eq!(resolve_path("/w", "/etc/x"), "/etc/x");
    assert_eq!(resolve_path("", "a"), "a");
}

#[test]
fn web_fetch_limits() {
    assert_eq!(web_max_bytes_from(None), 2097152);
    assert_eq!(web_max_bytes_from(Some("  ".to_string())), 2097152);
    assert_eq!(web_max_bytes_from(Some("x".to_string())), 2097152);
    assert_eq!(web_max_bytes_from(Some("10".to_string())), 65536);
    assert_eq!(web_max_bytes_from(Some(" 100000 ".to_string())), 100000);
    assert_eq!(web_max_bytes_from(Some("999999999".to_string())), 20971520);
    assert!(has_search_key(None, Some("k".to_string())));
    assert!(!has_search_key(Some(" ".to_string()), None));
    assert!(should_retry_web_status(408));
    assert!(should_retry_web_status(599));
    assert!(!should_retry_web_status(404));
    assert_eq!(web_backoff_ms(0), 500);
    assert_eq!(web_backoff_ms(7), 2000);
}

#[test]
fn page_kinds_by_content_type() {
    assert_eq!(page_kind("text/html; charset=utf-8", ""), PageKind::Html);
    assert_eq!(page_kind("text/plain", "<html><body>x</body></html>"), PageKind::Html);
    assert_eq!(page_kind("text/plain", "x"), PageKind::Text);
    assert_eq!(page_kind("", "x"), PageKind::Text);
    assert_eq!(page_kind("application/json", "{}"), PageKind::Text);
    assert_eq!(page_kind("image/png", "x"), PageKind::Unsupported);
}

#[test]
fn page_search_windows() {
    assert_eq!(find_limits(None, None), (10, 2));
    assert_eq!(find_limits(Some(0), Some(99)), (1, 10));
    assert_eq!(find_limits(Some(70), Some(0)), (50, 0));
    let page: Vec<String> = ["Intro", "Rust 1.75 released", "details", "more RUST", "end"]
        .iter()
        .map(|s| s.to_string())
        .collect();
    let found = find_matches(&page, "rust", 10, 1);
    assert_eq!(
        found,
        vec![
            FindMatch { start_line: 1, end_line: 3, match_line: 2 },
            FindMatch { start_line: 3, end_line: 5, match_line: 4 },
        ]
    );
    assert_eq!(find_matches(&page, "rust", 1, 0), vec![FindMatch { start_line: 2, end_line: 2, match_line: 2 }]);
    assert!(find_matches(&page, "absent", 5, 2).is_empty());
}

#[test]
fn text_normalization() {
    assert_eq!(normalize_text("a  \n\n\n  \nb\t\n"), "a\n\nb");
    assert_eq!(normalize_text("\n\nx"), "\nx");
    assert_eq!(normalize_text(""), "");
}

#[test]
fn line_paging_checks() {
    assert_eq!(line_paging("read_file", None, None), Ok((1, 200)));
    assert_eq!(line_paging("read_file", Some(3), Some(500)), Ok((3, 200)));
    assert_eq!(
        line_paging("web_open", Some(0), None),
        Err("invalid pagination: web_open.offset and web_open.limit must be >= 1 (offset is 1-indexed)".to_string())
    );
    assert_eq!(read_file_window(2, 2, 10), Ok(3));
    assert_eq!(read_file_window(9, 5, 10), Ok(10));
    assert_eq!(read_file_window(11, 5, 10), Err("offset (11) is beyond total lines (10)".to_string()));
    let ls = vec!["a".to_string(), "b".to_string(), "c".to_string()];
    assert_eq!(numbered_lines(&ls, 2, 3), vec!["2: b".to_string(), "3: c".to_string()]);
    assert_eq!(list_dir_paging(None, None, None), Ok((1, 200, 1)));
    assert!(list_dir_paging(None, None, Some(0)).is_err());
    assert_eq!(list_dir_window(5, 10, 0), Ok((0, 0)));
    assert_eq!(list_dir_window(2, 2, 5), Ok((2, 3)));
    assert_eq!(list_dir_window(6, 2, 5), Err("offset (6) is beyond total entries (5)".to_string()));
    assert_eq!(grep_limit(None), Ok(100));
    assert_eq!(grep_limit(Some(1000)), Ok(100));
    assert_eq!(grep_limit(Some(0)), Err("invalid limit: grep_files.limit must be >= 1".to_string()));
}
