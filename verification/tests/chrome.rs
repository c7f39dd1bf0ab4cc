use oxicode_tui::chrome::{render_folded_card, render_glyph_row, render_hidden_banner, render_tip, AboveComposer, TodoPlacement};
use oxicode_tui::fold::block_activity;
use oxicode_tui::transcript::{plain_segment, InlineMessageKind, TranscriptLine};
use oxicode_tui::controls::quit_confirmation;
use oxicode_tui::panel::{render_confirmation, render_slash_popup, Area, Look, PanelRow, Tone};
use oxicode_tui::render_state::{EphemeralTip, ModalConfirmation, ConfirmationAction, RenderState};
use oxicode_tui::slash::{slash_filter, SlashCommand, SlashPopup};
use oxicode_tui::todo::{TodoItem, TodoPhase, TodoStatus};

fn row_text(r: &PanelRow) -> String {
    r.spans.iter().map(|s| s.text.as_str()).collect()
}

fn cmd(name: &str, description: &str, aliases: &[&str]) -> SlashCommand {
    SlashCommand {
        name: name.to_string(),
        description: description.to_string(),
        aliases: aliases.iter().map(|a| a.to_string()).collect(),
    }
}

fn builtins() -> Vec<SlashCommand> {
    vec![
        cmd("quit", "Exit the session", &["exit", "q"]),
        cmd("clear", "Clear the transcript", &["cls"]),
        cmd("model", "Switch the active model", &[]),
        cmd("compact", "Summarize older turns", &[]),
        cmd("help", "Show the keyboard cheatsheet", &["?"]),
        cmd("new", "Start a fresh session", &[]),
        cmd("sessions", "Resume a saved session", &[]),
        cmd("settings", "Open the settings panel", &[]),
    ]
}

fn composer() -> Area {
    Area { x: 0, y: 20, width: 100, height: 4 }
}

#[test]
fn confirmation_modal_renders_title() {
    let v = render_confirmation(Area { x: 0, y: 0, width: 80, height: 24 }, &quit_confirmation());
    assert!(v.title.contains("Quit oxicode?"), "confirmation title must render");
    assert!(v.rounded);
    assert_eq!(v.title_look, Look { tone: Tone::Error, bold: true, dim: false });
}

#[test]
fn confirmation_box_fits_its_text() {
    let c = ModalConfirmation {
        title: "Remove key for openai?".into(),
        message: "  y \u{2014} remove key     n / x \u{2014} cancel".into(),
        action: ConfirmationAction::RemoveProviderKey("openai".into()),
    };
    let v = render_confirmation(Area { x: 0, y: 0, width: 80, height: 24 }, &c);
    // At least 36 inner cells plus 4; 5 rows; centered.
    assert_eq!(v.frame, Area { x: 20, y: 9, width: 40, height: 5 });
    assert_eq!(v.rows.len(), 1);
    assert_eq!(v.rows[0].area, Area { x: 21, y: 11, width: 38, height: 1 });
    assert_eq!(row_text(&v.rows[0]), c.message);
}

#[test]
fn slash_popup_renders_command_list() {
    let popup = SlashPopup { open: true, items: slash_filter("", &builtins(), &[]), selected: 0 };
    let v = render_slash_popup(composer(), &popup).expect("popup shows");
    assert!(v.title.contains("COMMANDS"), "popup title must render");
    assert!(v.rows.iter().any(|r| row_text(r).contains("/quit")), "popup must list /quit");
    // Seven commands at most, plus the key help.
    assert_eq!(v.rows.len(), 8);
    assert_eq!(v.frame, Area { x: 0, y: 10, width: 64, height: 10 });
    assert_eq!(row_text(&v.rows[7]), "Enter insert | Up/Down move | Esc close");
    assert_eq!(v.rows[7].area.y, 18);
}

#[test]
fn slash_popup_pads_labels_into_a_column() {
    let popup = SlashPopup { open: true, items: slash_filter("qu", &builtins(), &[]), selected: 0 };
    let v = render_slash_popup(composer(), &popup).expect("popup shows");
    let first = row_text(&v.rows[0]);
    assert!(first.starts_with("> /quit"));
    assert!(first.ends_with("  Exit the session"));
    let empty = SlashPopup { open: true, items: Vec::new(), selected: 0 };
    assert!(render_slash_popup(composer(), &empty).is_none());
}

#[test]
fn tip_banner_renders_when_active() {
    let r = render_tip(composer(), "hello-tip-marker");
    assert_eq!(row_text(&r), " note: hello-tip-marker");
    assert_eq!(r.area, Area { x: 0, y: 19, width: 100, height: 1 });
    let mut state = RenderState::new();
    state.tip = Some(EphemeralTip { text: "hello-tip-marker".to_string(), born_tick: 5, ttl_ticks: 100, key: "test", ambient: false });
    assert_eq!(state.frame_plan(5, 30).above_composer, AboveComposer::Tip);
    assert_eq!(state.frame_plan(105, 30).above_composer, AboveComposer::Empty);
}

#[test]
fn the_row_above_the_composer_has_one_owner() {
    let mut state = RenderState::new();
    state.tip = Some(EphemeralTip { text: "t".into(), born_tick: 0, ttl_ticks: 100, key: "k", ambient: true });
    assert_eq!(state.frame_plan(1, 30).above_composer, AboveComposer::Tip);
    state.confirmation = Some(quit_confirmation());
    assert_eq!(state.frame_plan(1, 30).above_composer, AboveComposer::Empty, "ambient tips pause while occluded");
    state.follow_ups = vec!["continue".into()];
    assert_eq!(state.frame_plan(1, 30).above_composer, AboveComposer::FollowUps);
    state.pending_quit = true;
    assert_eq!(state.frame_plan(1, 30).above_composer, AboveComposer::QuitHint);
    state.reasoning_stage = Some("thinking".into());
    assert_eq!(state.frame_plan(1, 30).above_composer, AboveComposer::RunIndicator);
}

#[test]
fn short_terminals_compact_the_todo_list() {
    let mut state = RenderState::new();
    assert_eq!(state.frame_plan(0, 30).todo, TodoPlacement::Hidden);
    state.todo_phases = vec![TodoPhase {
        name: "Build".into(),
        tasks: vec![TodoItem { content: "a".into(), status: TodoStatus::Pending, block_reason: None, notes: None }],
    }];
    assert_eq!(state.frame_plan(0, 17).todo, TodoPlacement::Compact);
    assert_eq!(state.frame_plan(0, 18).todo, TodoPlacement::Pane);
    assert!(!state.frame_plan(0, 18).queue_pane);
}

#[test]
fn welcome_screen_shown_when_transcript_empty() {
    let mut state = RenderState::new();
    state.header_provider = "anthropic".into();
    state.header_model = "sonnet-4".into();
    let rows = state.render_welcome(Area { x: 0, y: 0, width: 80, height: 20 }, Some("proj"));
    let text: Vec<String> = rows.iter().map(row_text).collect();
    assert!(text.iter().any(|t| t.contains("OXICODE")) && text.iter().any(|t| t.contains("WORKSPACE")));
    assert_eq!(text[3], "WORKSPACE  proj");
    assert_eq!(text[4], "MODEL      anthropic / sonnet-4");
    // Eight lines centered in 20 rows; "OXICODE" centered in 80 columns.
    assert_eq!(rows[0].area, Area { x: 36, y: 6, width: 44, height: 1 });
    let rows = state.render_welcome(Area { x: 0, y: 0, width: 80, height: 5 }, None);
    assert_eq!(rows.len(), 5);
    assert_eq!(row_text(&rows[3]), "WORKSPACE  workspace");
}

#[test]
fn long_activity_folded_card_stays_within_width() {
    let mut transcript = Vec::new();
    for i in 0..8usize {
        let long = format!("tool-{i}-{}", "x".repeat(120));
        for text in [format!("tool-{i}-head"), format!("tool-{i}-body"), long] {
            transcript.push(TranscriptLine { kind: InlineMessageKind::Tool, segments: vec![plain_segment(&text)], block_id: i });
        }
    }
    let live = Area { x: 0, y: 0, width: 80, height: 6 };
    for bid in 0..8usize {
        let activity = block_activity(&transcript, bid);
        for pulse in [false, true] {
            let rows = render_glyph_row(live, 2, &activity, pulse);
            assert_eq!(rows.len(), 1);
            let text = row_text(&rows[0]);
            assert!(text.starts_with('\u{25B8}'), "glyph rows must be painted even with long activities");
            assert!(text.chars().count() <= 80, "rendered row exceeded the viewport width: '{text}'");
            let card = render_folded_card(live, 4, &activity, pulse);
            assert_eq!(card.len(), 2);
            assert!(row_text(&card[0]).chars().count() <= 80);
            assert_eq!(row_text(&card[1]), "\u{2570}\u{2500} \u{2026}");
        }
    }
    // Rows below the live region are left out.
    assert!(render_glyph_row(live, 6, "x", false).is_empty());
    assert_eq!(render_folded_card(live, 5, "x", false).len(), 1);
    let banner = render_hidden_banner(live, 5, 3);
    assert_eq!(row_text(&banner[0]), "\u{2026} 3 earlier blocks hidden");
    assert_eq!(row_text(&render_hidden_banner(live, 5, 1)[0]), "\u{2026} 1 earlier block hidden");
    let narrow = Area { x: 0, y: 0, width: 10, height: 6 };
    let cut = row_text(&render_hidden_banner(narrow, 0, 12)[0]);
    assert_eq!(cut, "\u{2026} 12 earl\u{2026}");
    assert_eq!(render_glyph_row(live, 0, "short", true)[0].spans[0].look, Look { tone: Tone::Tool, bold: false, dim: false });
    assert_eq!(row_text(&render_glyph_row(live, 0, "short", true)[0]), "\u{25B8} short \u{2022}");
}

#[test]
fn narrow_terminals_get_the_small_screen_tip_once_free() {
    let mut state = RenderState::new();
    state.small_screen_tip(80, 1);
    assert!(state.tip.is_none());
    state.small_screen_tip(39, 2);
    let tip = state.tip.as_ref().expect("tip shown");
    assert_eq!(tip.text, "Terminal too narrow \u{2014} resize for full UI");
    assert_eq!((tip.key, tip.born_tick, tip.ttl_ticks, tip.ambient), ("small_screen", 2, 300, true));
    // A showing tip is left alone.
    state.small_screen_tip(10, 9);
    assert_eq!(state.tip.as_ref().unwrap().born_tick, 2);
}
