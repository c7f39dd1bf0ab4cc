use oxicode_tui::fold::block_activity;
use oxicode_tui::help::{cheatsheet_lines, cheatsheet_overlay};
use oxicode_tui::palette::build_command_palette;
use oxicode_tui::render_state::{RenderState, SecureInputOrigin};
use oxicode_tui::secure::{
    key_prompt_overlay, key_saved_message, model_role_failed_message, model_role_saved_message, route_secure_submission,
    SecureFollowUp,
};
use oxicode_tui::slash::SlashCommand;
use oxicode_tui::tool_output::{command_of_entries, diff_rows, lines_of, preview_tool_result, tool_args_preview, ToolArgs};
use oxicode_tui::transcript::{
    kind_label, plain_segment, segments_by_explicit_line, split_at_newlines, Color, InlineMessageKind, TranscriptLine,
};

#[test]
fn role_names_are_trimmed_and_must_not_be_empty() {
    assert_eq!(
        route_secure_submission(SecureInputOrigin::ModelRoleKey, "  fast  "),
        SecureFollowUp::OpenRoleValuePrompt { role: "fast".to_string() }
    );
    assert_eq!(
        route_secure_submission(SecureInputOrigin::ModelRoleKey, "   "),
        SecureFollowUp::ErrorLine("Model role name can't be empty".to_string())
    );
    assert_eq!(
        route_secure_submission(SecureInputOrigin::ModelRoleValue { role: "fast".into() }, ""),
        SecureFollowUp::ErrorLine("Failed to save model role 'fast': model pattern can't be empty".to_string())
    );
    assert_eq!(
        route_secure_submission(SecureInputOrigin::ModelRoleValue { role: "fast".into() }, " openai/* "),
        SecureFollowUp::SaveModelRole { role: "fast".into(), model: "openai/*".into() }
    );
}

#[test]
fn api_keys_and_text_edits_pass_through_unchanged() {
    assert_eq!(
        route_secure_submission(SecureInputOrigin::SetKey { provider: "openai".into() }, " sk-1 "),
        SecureFollowUp::SaveApiKey { provider: "openai".into(), key: " sk-1 ".into(), newly_added: false }
    );
    assert_eq!(
        route_secure_submission(SecureInputOrigin::NewlyAdded { provider: "zai".into() }, "k"),
        SecureFollowUp::SaveApiKey { provider: "zai".into(), key: "k".into(), newly_added: true }
    );
    assert_eq!(
        route_secure_submission(SecureInputOrigin::TextEdit("theme".into()), "dark"),
        SecureFollowUp::CommitTextEdit { key: "theme".into(), text: "dark".into() }
    );
}

#[test]
fn key_saved_messages() {
    assert_eq!(key_saved_message("openai", false, true), "Saved API key for 'openai'. Ready to retry your message.");
    assert_eq!(
        key_saved_message("zai", true, false),
        "Added and configured 'zai'. Restart this session before using it."
    );
    assert_eq!(model_role_saved_message("fast", "openai/gpt"), "Model role 'fast' \u{2192} openai/gpt");
    assert_eq!(model_role_failed_message("fast", "disk full"), "Failed to save model role 'fast': disk full");
}

#[test]
fn key_prompt_is_masked_and_the_origin_is_consumed_once() {
    let o = key_prompt_overlay("openai");
    assert!(o.secure_input.as_ref().unwrap().mask_input);
    let mut s = RenderState::new();
    s.open_secure_prompt(SecureInputOrigin::SetKey { provider: "openai".into() });
    assert!(s.overlay.is_some());
    assert_eq!(
        s.take_secure_submission("sk-x"),
        Some(SecureFollowUp::SaveApiKey { provider: "openai".into(), key: "sk-x".into(), newly_added: false })
    );
    assert_eq!(s.take_secure_submission("again"), None, "the origin is consumed");
}

#[test]
fn palette_lists_every_command_sorted_by_name() {
    let cmds = vec![
        SlashCommand { name: "quit".into(), description: "Exit".into(), aliases: vec!["q".into()] },
        SlashCommand { name: "clear".into(), description: "Clear".into(), aliases: vec![] },
        SlashCommand { name: "model".into(), description: "Model".into(), aliases: vec![] },
    ];
    let o = build_command_palette(&cmds);
    assert_eq!(o.title, "Command Palette");
    let titles: Vec<&str> = o.items.iter().map(|i| i.title.as_str()).collect();
    assert_eq!(titles.len(), 3);
    assert!(titles[0].contains("clear"), "{titles:?}");
    assert!(titles[1].contains("model"), "{titles:?}");
    assert!(titles[2].contains("quit"), "{titles:?}");
}

#[test]
fn cheatsheet_lists_the_keys() {
    let lines = cheatsheet_lines();
    assert!(!lines.is_empty());
    let o = cheatsheet_overlay();
    assert_eq!(o.title, "Keyboard Shortcuts");
    assert_eq!(o.lines, lines);
}

#[test]
fn tool_preview_is_cut_at_five_hundred_chars() {
    let long = "é".repeat(600);
    let p = preview_tool_result(&long);
    assert_eq!(p.chars().count(), 501);
    assert!(p.ends_with('\u{2026}'));
    assert_eq!(preview_tool_result("short"), "short");
}

#[test]
fn lines_follow_str_lines() {
    let ls: Vec<String> = lines_of("a\r\nb\n\nc\n").into_iter().map(|l| l.into_iter().collect()).collect();
    assert_eq!(ls, vec!["a", "b", "", "c"]);
}

#[test]
fn diffs_are_recognized_and_counted() {
    let diff = "--- a/x\n+++ b/x\n@@ -1,2 +1,2 @@\n-old\n+new\n ctx\n";
    let rows = diff_rows(diff, Some(Color::Ansi(2)), Some(Color::Ansi(1))).expect("a diff");
    assert_eq!(rows[0].0, "diff +1 -1");
    assert_eq!(rows.len(), 7);
    assert_eq!(rows[4].1.color, Some(Color::Ansi(1)));
    assert_eq!(rows[5].1.color, Some(Color::Ansi(2)));
    assert!(rows[6].1.dimmed);
    assert!(diff_rows("plain output\n+one line", None, None).is_none());
}

#[test]
fn args_preview_prefers_the_command() {
    let entries = vec![("cwd".to_string(), Some("/tmp".to_string())), ("command".to_string(), Some("cargo test".to_string()))];
    assert_eq!(command_of_entries(&entries), Some("cargo test".to_string()));
    assert_eq!(tool_args_preview(&ToolArgs::Object(entries)), "cargo test");
    let pairs = vec![
        ("a".to_string(), Some("1".to_string())),
        ("n".to_string(), None),
        ("b".to_string(), Some("2".to_string())),
        ("c".to_string(), Some("3".to_string())),
        ("d".to_string(), Some("4".to_string())),
    ];
    assert_eq!(tool_args_preview(&ToolArgs::Object(pairs)), "a=1 b=2 c=3");
    assert_eq!(tool_args_preview(&ToolArgs::Null), "");
    let long = "x".repeat(80);
    let p = tool_args_preview(&ToolArgs::Str(long));
    assert_eq!(p.chars().count(), 72);
    assert!(p.ends_with('\u{2026}'));
}

#[test]
fn explicit_newlines_split_segments_into_rows() {
    let parts: Vec<String> = split_at_newlines("a\nb\n").into_iter().map(|p| p.into_iter().collect()).collect();
    assert_eq!(parts, vec!["a", "b", ""]);
    let rows = segments_by_explicit_line(vec![plain_segment("one\ntwo"), plain_segment(" more")]);
    let text: Vec<String> = rows.iter().map(|r| r.iter().map(|s| s.text.as_str()).collect()).collect();
    assert_eq!(text, vec!["one".to_string(), "two more".to_string()]);
    assert!(!kind_label(InlineMessageKind::User).is_empty());
}

#[test]
fn block_activity_summarizes_a_folded_block() {
    let t = vec![
        TranscriptLine { kind: InlineMessageKind::Tool, segments: vec![plain_segment("read src/main.rs")], block_id: 0 },
        TranscriptLine { kind: InlineMessageKind::Tool, segments: vec![plain_segment("ok")], block_id: 0 },
    ];
    let a = block_activity(&t, 0);
    assert!(!a.is_empty());
    assert_eq!(block_activity(&t, 9), block_activity(&[], 9));
}
