use base64::Engine;
use unicode_width::UnicodeWidthStr;

use oxicode_tui::fold::clamp_fold_text;
use oxicode_tui::provider::{next_provider_actions, AuthAction};
use oxicode_tui::render_state::{InlineCommand, RenderState};
use oxicode_tui::status_bar::FieldStyle;
use oxicode_tui::stream::revealed_body;
use oxicode_tui::todo::{is_todo_list_settled, todo_clear_step, TodoClear, TodoItem, TodoPhase, TodoStatus};
use oxicode_tui::tool_box::{expand_tabs, str_width, tool_box_divider, tool_box_rows, wrap_by_display_width};
use oxicode_tui::tool_output::{extract_generated_png, png_from_decoded};
use oxicode_tui::transcript::{plain_segment, Color, InlineMessageKind, InlineSegment, InlineTextStyle};

fn phase(status: TodoStatus) -> Vec<TodoPhase> {
    vec![TodoPhase {
        name: "Auth".into(),
        tasks: vec![TodoItem { content: "a".into(), status, notes: None, block_reason: None }],
    }]
}

/// One frame of the HUD auto-clear, as the event loop runs it.
fn sync_todo_clear(state: &mut RenderState, delay_secs: i64) {
    let settled = is_todo_list_settled(&state.todo_phases);
    if todo_clear_step(delay_secs, settled, false, false) == TodoClear::ClearNow {
        state.todo_phases.clear();
    }
}

#[test]
fn todo_auto_clear_fires_after_delay_when_all_closed() {
    let mut state = RenderState::new();
    state.todo_phases = phase(TodoStatus::Completed);
    sync_todo_clear(&mut state, 0);
    assert!(state.todo_phases.is_empty());
}

#[test]
fn todo_auto_clear_does_not_fire_while_open_tasks_remain() {
    let mut state = RenderState::new();
    state.todo_phases = phase(TodoStatus::Pending);
    sync_todo_clear(&mut state, 0);
    assert_eq!(state.todo_phases.len(), 1);
    assert_eq!(state.todo_phases[0].name, "Auth");
}

#[test]
fn todo_auto_clear_negative_delay_disables_clearing() {
    let mut state = RenderState::new();
    state.todo_phases = phase(TodoStatus::Completed);
    sync_todo_clear(&mut state, -1);
    assert_eq!(state.todo_phases.len(), 1);
}

#[test]
fn todo_clear_step_arms_then_waits_then_clears() {
    assert_eq!(todo_clear_step(5, true, false, false), TodoClear::Arm);
    assert_eq!(todo_clear_step(5, true, true, false), TodoClear::Wait);
    assert_eq!(todo_clear_step(5, true, true, true), TodoClear::ClearNow);
    assert_eq!(todo_clear_step(5, false, true, true), TodoClear::Disarm);
}

#[test]
fn clamp_fold_text_truncates_at_unicode_width() {
    let out = clamp_fold_text(&"x".repeat(100), 3, 80, "\u{2026}");
    assert!(out.ends_with('\u{2026}'), "ellipsis appended on overflow");
    assert!(out.width() <= 80, "clamped to budget: got {}", out.width());
    let cjk = "\u{4ECA}\u{65E5}\u{306F}\u{667A}\u{6167}".repeat(20);
    let out_cjk = clamp_fold_text(&cjk, 2, 20, "\u{2026}");
    assert!(out_cjk.width() <= 20, "CJK clamp: got {}", out_cjk.width());
    assert!(out_cjk.ends_with('\u{2026}'));
    assert_eq!(clamp_fold_text("short", 0, 80, "\u{2026}"), "short");
    assert_eq!(clamp_fold_text("text", 0, 0, "\u{2026}"), "");
}

#[test]
fn providers_action_matrix_branches_correctly() {
    assert_eq!(
        next_provider_actions(true, true),
        vec![AuthAction::SetApiKey, AuthAction::StartOAuth, AuthAction::RemoveKey],
        "has key + oauth-capable: replace, oauth, remove"
    );
    assert_eq!(
        next_provider_actions(true, false),
        vec![AuthAction::SetApiKey, AuthAction::RemoveKey],
        "has key, key-only provider: replace, remove"
    );
    assert_eq!(
        next_provider_actions(false, true),
        vec![AuthAction::SetApiKey, AuthAction::StartOAuth],
        "no key + oauth-capable: set key, oauth"
    );
    assert_eq!(
        next_provider_actions(false, false),
        vec![AuthAction::SetApiKey],
        "no key + key-only provider: set key only"
    );
}

#[test]
fn streamed_body_renders_only_the_revealed_prefix() {
    let mut state = RenderState::new();
    state.message_buffer = "hello world".to_string();
    state.stream_reveal = 5;
    let text = state.revealed_stream_body().to_string();
    assert!(text.contains("hello"), "revealed prefix renders: {text}");
    assert!(!text.contains("world"), "unrevealed text waits: {text}");
}

#[test]
fn revealed_body_stops_at_a_character_boundary() {
    assert_eq!(revealed_body("h\u{e9}llo", 2), "h");
    assert_eq!(revealed_body("h\u{e9}llo", 3), "h\u{e9}");
    assert_eq!(revealed_body("abc", usize::MAX), "abc");
}

/// Repaint the streamed block from its anchor with the revealed prefix, as
/// the event loop does after a typewriter tick.
fn repaint(state: &mut RenderState) {
    let body = state.revealed_stream_body().to_string();
    state.apply_command(InlineCommand::ReplaceLast {
        kind: InlineMessageKind::Agent,
        lines: vec![vec![plain_segment(&body)]],
    });
}

#[test]
fn advance_stream_reveal_types_out_in_bounded_steps() {
    let mut state = RenderState::new();
    state.stream_anchor = Some(0);
    state.message_buffer = "x".repeat(6000);
    state.stream_reveal = 0;

    assert!(state.advance_stream_reveal(), "first tick paints");
    repaint(&mut state);
    assert!(
        state.stream_reveal > 0 && state.stream_reveal < 6000,
        "bounded step, not a lump: {}",
        state.stream_reveal
    );
    let transcript_after_step: usize = state.transcript.len();
    assert!(transcript_after_step > 0, "the revealed prefix lands in the transcript");

    while state.advance_stream_reveal() {}
    assert_eq!(state.stream_reveal, 6000, "repeated ticks drain the backlog completely");
}

#[test]
fn typewriter_first_step_is_a_sixth() {
    let mut state = RenderState::new();
    state.stream_anchor = Some(0);
    state.message_buffer = "x".repeat(600);
    state.stream_reveal = 0;
    assert!(state.advance_stream_reveal());
    assert_eq!(state.stream_reveal, 100);
    state.stream_anchor = None;
    assert!(!state.advance_stream_reveal(), "no anchor, no typing");
}

fn spans_to_string(spans: &[(String, FieldStyle)]) -> String {
    spans.iter().map(|(t, _)| t.as_str()).collect()
}

#[test]
fn model_chips_follow_model_switch() {
    let mut state = RenderState::new();
    assert_eq!(state.context_window, 128_000, "default before sync");

    state.apply_model_to_chips("google/gemini-2.5-pro", 1_048_576);
    assert_eq!(state.header_provider, "google");
    assert_eq!(state.header_model, "google/gemini-2.5-pro");
    assert_eq!(state.context_window, 1_048_576);

    let wide = spans_to_string(&state.composer_context_line(None, None, 140));
    assert!(wide.contains("CTX 0/1048.5K"), "CTX chip renders the synced denominator: {wide}");

    state.apply_model_to_chips("", 999);
    assert_eq!(state.header_model, "google/gemini-2.5-pro");

    state.apply_model_to_chips("zai/glm-5.1", 0);
    assert_eq!(state.header_model, "zai/glm-5.1");
    assert_eq!(state.context_window, 1_048_576);
}

#[test]
fn composer_border_fields_drop_by_width() {
    let mut state = RenderState::new();
    state.header_provider = "prov".to_string();
    state.header_model = "prov/m-1".to_string();

    let narrow = spans_to_string(&state.composer_context_line(None, None, 60));
    assert!(
        narrow.contains("MODEL ") && !narrow.contains("CTX "),
        "narrow keeps the model only: {narrow}"
    );
    let wide = spans_to_string(&state.composer_context_line(None, None, 140));
    assert!(wide.contains("CTX "), "wide carries context usage: {wide}");
}

fn row_text(row: &[InlineSegment]) -> String {
    row.iter().map(|s| s.text.as_str()).collect()
}

fn white() -> Color {
    Color::Ansi(7)
}

#[test]
fn divider_carries_the_label() {
    let seg = tool_box_divider("Output", 30, white());
    let text = row_text(&seg);
    assert!(text.starts_with("\u{251C}\u{2500} Output"), "label after ├─: {text:?}");
    assert!(text.ends_with('\u{2524}'), "closes with ┤: {text:?}");
    assert_eq!(text.width(), 30, "divider fills the box width");
}

#[test]
fn korean_rows_keep_the_right_border_aligned() {
    let rows = tool_box_rows("한글테스트 명령어", 20, InlineTextStyle::plain(), white());
    for row in &rows {
        let text = row_text(row);
        assert_eq!(text.width(), 20, "row must fill exactly 20 cells: {text:?}");
        assert!(text.starts_with('\u{2502}'), "left border: {text:?}");
        assert!(text.ends_with('\u{2502}'), "right border: {text:?}");
    }
    assert!(!rows.is_empty());
    assert_eq!(rows.len(), 2, "wraps by display width");
}

#[test]
fn tool_box_rows_expand_tabs_so_borders_align() {
    let chunk = format!("{:>6}\t{}", 1, "[package]");
    let rows = tool_box_rows(&chunk, 176, InlineTextStyle::plain(), white());
    assert_eq!(rows.len(), 1);
    for seg in &rows[0] {
        assert!(!seg.text.contains('\t'), "tabs must be expanded: {:?}", seg.text);
    }
    let built: usize = rows[0].iter().map(|s| UnicodeWidthStr::width(s.text.as_str())).sum();
    assert_eq!(built, 176, "built width must equal the box width exactly");
}

#[test]
fn tabs_expand_to_the_next_stop() {
    assert_eq!(expand_tabs("a\tb", 4), "a   b");
    assert_eq!(expand_tabs("\t", 4), "    ");
    assert_eq!(expand_tabs("abcd\te", 4), "abcd    e");
}

#[test]
fn wrapping_counts_cells_not_chars() {
    assert_eq!(wrap_by_display_width("abcdef", 4), vec!["abcd".to_string(), "ef".to_string()]);
    assert_eq!(wrap_by_display_width("한글한", 4), vec!["한글".to_string(), "한".to_string()]);
    assert_eq!(str_width("한a"), 3);
}

fn image_result_content(payload: &[u8]) -> String {
    let b64 = base64::engine::general_purpose::STANDARD.encode(payload);
    format!("Generated 1 image(s).\n\nImage 1 ({} bytes, base64):\n{}\n", payload.len(), b64)
}

#[test]
fn extract_generated_png_parses_first_image_and_rejects_garbage() {
    let payload = vec![0x89, 0x50, 0x4e, 0x47, 0x0d, 0x0a, 0x1a, 0x0a];
    assert_eq!(
        extract_generated_png(&image_result_content(&payload)),
        Some(payload),
        "first base64 blob after the marker decodes"
    );
    let first: Vec<u8> = (1u8..=8).collect();
    let second: Vec<u8> = (9u8..=16).collect();
    let two = format!(
        "Generated 2 image(s).\n\nImage 1 (8 bytes, base64):\n{}\n\nImage 2 (8 bytes, base64):\n{}\n",
        base64::engine::general_purpose::STANDARD.encode(&first),
        base64::engine::general_purpose::STANDARD.encode(&second),
    );
    assert_eq!(extract_generated_png(&two), Some(first));
    assert_eq!(extract_generated_png("plain text output"), None);
    assert_eq!(extract_generated_png("Image 1 (8 bytes, base64):\n!!!not-base64!!!\n"), None);
    assert_eq!(
        extract_generated_png("Image 1 (2 bytes, base64):\n AQID \n"),
        None,
        "payloads shorter than a PNG header are rejected"
    );
}

#[test]
fn png_floor_is_eight_bytes() {
    assert_eq!(png_from_decoded(Some(vec![0; 7])), None);
    assert_eq!(png_from_decoded(Some(vec![1; 8])), Some(vec![1; 8]));
    assert_eq!(png_from_decoded(None), None);
}
