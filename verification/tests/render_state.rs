use oxicode_tui::controls::{quit_confirmation, ConfirmedEvent};
use oxicode_tui::overlay::{
    materialize_overlay, KeyInput, ListSelection, OverlayEvent, OverlayListItem, OverlayRequest,
    OverlaySearchState, OverlayState, OverlaySubmission, SecurePromptConfig,
};
use oxicode_tui::prompt_queue::PromptQueue;
use oxicode_tui::setting_defs::{is_settings_overlay, settings_tab_index, SettingsMapRow, SettingsTab};
use oxicode_tui::render_state::{BlockDisplayMode, InlineCommand, RenderState};
use oxicode_tui::slash::SlashCommand;
use oxicode_tui::transcript::{plain_segment, InlineMessageKind, TranscriptLine};

fn cmd(name: &str, aliases: &[&str]) -> SlashCommand {
    SlashCommand {
        name: name.to_string(),
        description: format!("{name} command"),
        aliases: aliases.iter().map(|a| a.to_string()).collect(),
    }
}

fn state_with_commands() -> RenderState {
    let mut state = RenderState::new();
    state.slash_commands = vec![
        cmd("quit", &["exit", "q"]),
        cmd("clear", &["cls"]),
        cmd("model", &[]),
        cmd("compact", &[]),
        cmd("help", &[]),
        cmd("new", &[]),
        cmd("sessions", &[]),
    ];
    state
}

fn three_block_transcript() -> Vec<TranscriptLine> {
    vec![
        TranscriptLine { kind: InlineMessageKind::User, segments: vec![plain_segment("hi")], block_id: 0 },
        TranscriptLine { kind: InlineMessageKind::Agent, segments: vec![plain_segment("hello")], block_id: 1 },
        TranscriptLine { kind: InlineMessageKind::Agent, segments: vec![plain_segment("world")], block_id: 1 },
        TranscriptLine { kind: InlineMessageKind::User, segments: vec![plain_segment("bye")], block_id: 2 },
    ]
}

fn item(title: &str, selection: Option<ListSelection>) -> OverlayListItem {
    OverlayListItem {
        title: title.to_string(),
        subtitle: None,
        badge: None,
        indent: 0,
        search_value: None,
        selection,
    }
}

fn sample_overlay_items() -> Vec<OverlayListItem> {
    vec![
        item("model-a", Some(ListSelection::Model(0))),
        item("model-b", Some(ListSelection::Model(1))),
        item("model-c", Some(ListSelection::Model(2))),
    ]
}

fn overlay(title: &str, items: Vec<OverlayListItem>, search: Option<OverlaySearchState>) -> OverlayState {
    OverlayState {
        title: title.to_string(),
        lines: Vec::new(),
        items,
        selected: 0,
        search,
        secure_input: None,
        tabs: Vec::new(),
        active_tab: 0,
        sections: Vec::new(),
        active_section: 0,
        key_capture: None,
    }
}

#[test]
fn popup_opens_on_slash() {
    let mut state = state_with_commands();
    state.composer = "/".to_string();
    state.refresh_slash_popup();
    assert!(state.slash_popup.open);
    assert!(!state.slash_popup.items.is_empty());
}

#[test]
fn popup_closes_on_space() {
    let mut state = state_with_commands();
    state.composer = "/quit ".to_string();
    state.refresh_slash_popup();
    assert!(!state.slash_popup.open);
}

#[test]
fn popup_closes_on_non_slash() {
    let mut state = state_with_commands();
    state.composer = "hello".to_string();
    state.refresh_slash_popup();
    assert!(!state.slash_popup.open);
}

#[test]
fn popup_filters_as_user_types() {
    let mut state = state_with_commands();
    state.composer = "/m".to_string();
    state.refresh_slash_popup();
    assert!(state.slash_popup.open);
    assert!(state.slash_popup.items.iter().all(|i| i.name.starts_with('m')));
}

#[test]
fn popup_selection_clamps_on_shrink() {
    let mut state = state_with_commands();
    state.composer = "/".to_string();
    state.refresh_slash_popup();
    let full_count = state.slash_popup.items.len();
    state.slash_popup.selected = full_count - 1;
    state.composer = "/qu".to_string();
    state.refresh_slash_popup();
    assert!(state.slash_popup.selected < state.slash_popup.items.len());
}

#[test]
fn prompt_queue_mutations_change_the_execution_queue() {
    let mut queue = PromptQueue::new();
    queue.enqueue("first".to_string());
    queue.enqueue("second".to_string());
    queue.enqueue("third".to_string());

    assert!(queue.move_by(2, -1));
    assert_eq!(queue.remove(0).as_deref(), Some("first"));
    let pending: Vec<_> = queue.pending.iter().cloned().collect();
    assert_eq!(pending, ["third", "second"]);
}

#[test]
fn prompt_queue_is_first_in_first_out() {
    let mut queue = PromptQueue::new();
    queue.enqueue("a".to_string());
    queue.enqueue("b".to_string());
    assert_eq!(queue.len(), 2);
    assert_eq!(queue.next().as_deref(), Some("a"));
    assert_eq!(queue.next().as_deref(), Some("b"));
    assert_eq!(queue.next(), None);
    assert!(!queue.move_by(0, 1));
    assert_eq!(queue.remove(3), None);
}

#[test]
fn prompt_queue_move_back_and_forth_restores_order() {
    let mut queue = PromptQueue::new();
    for p in ["a", "b", "c"] {
        queue.enqueue(p.to_string());
    }
    assert!(queue.move_by(0, 2));
    assert!(queue.move_by(2, -2));
    let pending: Vec<_> = queue.pending.iter().cloned().collect();
    assert_eq!(pending, ["a", "b", "c"]);
    assert!(!queue.move_by(1, 5), "out-of-range moves are refused");
}

#[test]
fn turn_end_drains_queue_head() {
    let mut state = RenderState::new();
    state.queued_inputs = vec!["queued-1".into(), "queued-2".into()];
    state.drain_queue_head();
    assert_eq!(state.queued_inputs.len(), 1, "drain_queue_head must drop the head (now running)");
    assert_eq!(state.queued_inputs[0], "queued-2");
    state.drain_queue_head();
    state.drain_queue_head();
    assert!(state.queued_inputs.is_empty());
}

#[test]
fn confirmation_yes_sends_exit_and_closes() {
    let mut state = RenderState::new();
    state.confirmation = Some(quit_confirmation());
    let ev = state.handle_confirmation_key(KeyInput::Char('y'));
    assert!(state.confirmation.is_none(), "yes must close the modal");
    assert_eq!(ev, Some(ConfirmedEvent::Exit), "yes must send Exit");
}

#[test]
fn confirmation_no_closes_without_event() {
    let mut state = RenderState::new();
    state.confirmation = Some(quit_confirmation());
    let ev = state.handle_confirmation_key(KeyInput::Char('n'));
    assert!(state.confirmation.is_none(), "no must close the modal");
    assert!(ev.is_none(), "no must not send an event");
}

#[test]
fn confirmation_other_key_keeps_the_modal() {
    let mut state = RenderState::new();
    state.confirmation = Some(quit_confirmation());
    assert!(state.handle_confirmation_key(KeyInput::Char('z')).is_none());
    assert!(state.confirmation.is_some());
    assert!(RenderState::new().handle_confirmation_key(KeyInput::Enter).is_none());
}

#[test]
fn fold_all_collapses_every_block() {
    let mut state = RenderState::new();
    state.transcript = three_block_transcript();
    state.next_block_id = 3;
    state.fold_all();
    assert_eq!(state.block_display.len(), 3, "3 distinct block ids");
    assert_eq!(state.block_mode(0), BlockDisplayMode::Collapsed);
    assert_eq!(state.block_mode(1), BlockDisplayMode::Collapsed);
    assert_eq!(state.block_mode(2), BlockDisplayMode::Collapsed);
}

#[test]
fn expand_all_after_fold_all_shows_expanded() {
    let mut state = RenderState::new();
    state.transcript = three_block_transcript();
    state.next_block_id = 3;
    state.fold_all();
    state.expand_all();
    assert!(state.block_display.is_empty(), "Expanded is the default — no overrides");
    assert_eq!(state.block_mode(0), BlockDisplayMode::Expanded);
    assert_eq!(state.block_mode(2), BlockDisplayMode::Expanded);
}

#[test]
fn truncate_all_sets_explicit_truncated() {
    let mut state = RenderState::new();
    state.transcript = three_block_transcript();
    state.next_block_id = 3;
    state.fold_all();
    state.truncate_all();
    assert_eq!(state.block_display.len(), 3);
    assert_eq!(state.block_mode(1), BlockDisplayMode::Truncated);
}

#[test]
fn default_block_mode_is_expanded() {
    let state = RenderState::new();
    assert_eq!(state.block_mode(0), BlockDisplayMode::Expanded);
    assert!(state.block_display.is_empty(), "default needs no map entry");
}

#[test]
fn cycle_block_advances_through_three_states() {
    let mut state = RenderState::new();
    state.transcript = three_block_transcript();
    state.next_block_id = 3;
    state.scroll_offset = 0;
    state.cycle_block_at_view();
    assert_eq!(state.block_mode(0), BlockDisplayMode::Collapsed);
    state.cycle_block_at_view();
    assert_eq!(state.block_mode(0), BlockDisplayMode::Truncated);
    state.cycle_block_at_view();
    assert_eq!(state.block_mode(0), BlockDisplayMode::Expanded);
    assert!(!state.block_display.contains_key(&0));
    assert_eq!(state.block_mode(1), BlockDisplayMode::Expanded, "other blocks are untouched");
}

#[test]
fn overlay_keyboard_nav_moves_selection() {
    let mut state = RenderState::new();
    state.overlay = Some(overlay("Select", sample_overlay_items(), None));
    assert_eq!(state.overlay.as_ref().unwrap().selected, 0);

    let out = state.handle_overlay_key(KeyInput::Down);
    assert!(out.consumed, "Down must be consumed while overlay is open");
    assert_eq!(state.overlay.as_ref().unwrap().selected, 1);

    assert!(state.handle_overlay_key(KeyInput::Down).consumed);
    assert_eq!(state.overlay.as_ref().unwrap().selected, 2);

    assert!(state.handle_overlay_key(KeyInput::Down).consumed);
    assert_eq!(state.overlay.as_ref().unwrap().selected, 0);

    assert!(state.handle_overlay_key(KeyInput::Up).consumed);
    assert_eq!(state.overlay.as_ref().unwrap().selected, 2);

    let out = state.handle_overlay_key(KeyInput::Enter);
    assert!(out.consumed);
    assert!(state.overlay.is_none(), "overlay must be cleared after Enter");
    match out.event {
        Some(OverlayEvent::Submitted(OverlaySubmission::Selection(ListSelection::Model(2)))) => {}
        other => panic!("expected Submitted overlay event, got {other:?}"),
    }
}

#[test]
fn overlay_esc_closes_and_emits_cancelled() {
    let mut state = RenderState::new();
    state.overlay = Some(overlay("Select", sample_overlay_items(), None));
    let out = state.handle_overlay_key(KeyInput::Esc);
    assert!(out.consumed);
    assert!(state.overlay.is_none(), "overlay must be cleared after Esc");
    assert_eq!(out.event, Some(OverlayEvent::Cancelled));
}

#[test]
fn overlay_enter_on_readonly_item_is_noop() {
    let mut state = RenderState::new();
    let mut readonly = item("read", None);
    readonly.subtitle = Some("Read a file".to_string());
    state.overlay = Some(overlay("Tools", vec![readonly], None));
    let out = state.handle_overlay_key(KeyInput::Enter);
    assert!(out.consumed, "Enter must be consumed even on read-only items");
    assert!(state.overlay.is_some(), "overlay must stay open when Enter hits a read-only item");
    assert!(out.event.is_none(), "no overlay event must be emitted for a read-only Enter");
}

#[test]
fn overlay_chars_route_to_search_field() {
    let mut state = RenderState::new();
    let search = OverlaySearchState { label: "filter".to_string(), placeholder: None, value: String::new() };
    state.overlay = Some(overlay("Select", sample_overlay_items(), Some(search)));
    state.handle_overlay_key(KeyInput::Char('m'));
    state.handle_overlay_key(KeyInput::Char('o'));
    state.handle_overlay_key(KeyInput::Backspace);
    let value = state.overlay.as_ref().unwrap().search.as_ref().unwrap().value.clone();
    assert_eq!(value, "m", "Backspace should drop last char");
}

#[test]
fn overlay_key_no_op_when_no_overlay_open() {
    let mut state = RenderState::new();
    let out = state.handle_overlay_key(KeyInput::Enter);
    assert!(!out.consumed, "handle_overlay_key must return false when no overlay is open");
    assert!(!out.close && out.event.is_none() && out.switch_tab.is_none(), "nothing is sent without an overlay");
    assert!(state.handle_overlay_key(KeyInput::Esc).event.is_none());
    assert!(state.overlay.is_none());
}

#[test]
fn apply_command_show_overlay_populates_state() {
    let mut state = RenderState::new();
    let request = OverlayRequest::List {
        title: "Pick".to_string(),
        lines: vec!["desc".to_string()],
        items: vec![item("alpha", None), item("beta", None)],
        search: None,
    };
    let shutdown = state.apply_command(InlineCommand::ShowOverlay { request });
    assert!(!shutdown, "ShowOverlay must not request shutdown");
    let o = state.overlay.as_ref().expect("overlay must be Some");
    assert_eq!(o.title, "Pick");
    assert_eq!(o.items.len(), 2);
    assert_eq!(o.items[0].title, "alpha");
    assert_eq!(o.items[1].title, "beta");
    assert_eq!(o.lines.len(), 1);

    state.apply_command(InlineCommand::CloseOverlay);
    assert!(state.overlay.is_none(), "CloseOverlay must clear state");
    assert!(state.apply_command(InlineCommand::Shutdown));
}

#[test]
fn materialize_overlay_modal_with_secure_prompt_populates_secure_input() {
    let request = OverlayRequest::Modal {
        title: "API key".into(),
        lines: vec!["Paste your key".into()],
        secure_prompt: Some(SecurePromptConfig {
            label: "Key".into(),
            placeholder: Some("sk-...".into()),
            mask_input: true,
        }),
    };
    let state = materialize_overlay(request);
    let secure = state.secure_input.expect("secure_input must be Some when secure_prompt is Some");
    assert_eq!(secure.label, "Key");
    assert!(secure.mask_input);
    assert!(secure.chars.is_empty());
    assert_eq!(secure.cursor, 0);
}

#[test]
fn materialize_overlay_modal_without_secure_prompt_has_none_secure_input() {
    let request = OverlayRequest::Modal {
        title: "Confirm".into(),
        lines: vec!["y/n".into()],
        secure_prompt: None,
    };
    let state = materialize_overlay(request);
    assert!(state.secure_input.is_none(), "secure_input must be None when secure_prompt is None");
}

#[test]
fn overlay_submission_secure_input_is_routed_to_host() {
    let _ = OverlaySubmission::SecureInput("sk-test".into());
    let serialized = format!("{:?}", OverlaySubmission::SecureInput("x".into()));
    assert!(serialized.contains("SecureInput"));
}

#[test]
fn secure_prompt_edits_and_submits_the_typed_text() {
    let mut state = RenderState::new();
    state.overlay = Some(materialize_overlay(OverlayRequest::Modal {
        title: "API key".into(),
        lines: Vec::new(),
        secure_prompt: Some(SecurePromptConfig { label: "Key".into(), placeholder: None, mask_input: true }),
    }));
    for c in ['s', 'k', 'x'] {
        state.handle_overlay_key(KeyInput::Char(c));
    }
    state.handle_overlay_key(KeyInput::Backspace);
    state.handle_overlay_key(KeyInput::Char('\n'));
    let out = state.handle_overlay_key(KeyInput::Enter);
    assert!(state.overlay.is_none());
    assert_eq!(
        out.event,
        Some(OverlayEvent::Submitted(OverlaySubmission::SecureInput("sk".to_string())))
    );
}

#[test]
fn three_cycles_restore_the_override_map() {
    let mut state = RenderState::new();
    state.append_line(InlineMessageKind::Tool, vec![plain_segment("a")]);
    state.append_line(InlineMessageKind::Agent, vec![plain_segment("b")]);
    let other = state.transcript[0].block_id;
    let bid = state.transcript[1].block_id;
    state.block_display.insert(other, BlockDisplayMode::Truncated);
    state.cycle_block_at_view();
    assert_eq!(state.block_display.get(&bid), Some(&BlockDisplayMode::Collapsed));
    state.cycle_block_at_view();
    assert_eq!(state.block_display.get(&bid), Some(&BlockDisplayMode::Truncated));
    state.cycle_block_at_view();
    assert_eq!(state.block_display.get(&bid), None, "Expanded is stored as no entry");
    assert_eq!(state.block_display.len(), 1);
    assert_eq!(state.block_display.get(&other), Some(&BlockDisplayMode::Truncated));
}

#[test]
fn show_overlay_drops_stale_map_rows_and_spots_the_settings_list() {
    let mut state = RenderState::new();
    state.settings_map_rows = vec![Some(SettingsMapRow::ModelRole("planner".into()))];
    state.composer = "draft".into();
    let request = OverlayRequest::List {
        title: "Settings".to_string(),
        lines: Vec::new(),
        items: vec![item("Thinking level", Some(ListSelection::ConfigAction("ThinkingLevel".into())))],
        search: None,
    };
    state.apply_command(InlineCommand::ShowOverlay { request });
    assert!(state.settings_map_rows.is_empty(), "every shown overlay invalidates the map rows");
    assert_eq!(state.composer, "draft");
    assert!(is_settings_overlay(state.overlay.as_ref().unwrap()));
    let plain = OverlayRequest::List { title: "Pick".into(), lines: Vec::new(), items: vec![item("a", Some(ListSelection::Model(0)))], search: None };
    state.apply_command(InlineCommand::ShowOverlay { request: plain });
    assert!(!is_settings_overlay(state.overlay.as_ref().unwrap()));
    assert_eq!(settings_tab_index(SettingsTab::General), 0);
    assert_eq!(settings_tab_index(SettingsTab::Keybindings), 6);
    assert_eq!(settings_tab_index(SettingsTab::Advanced), 7);
}

#[test]
fn commands_change_only_what_they_name() {
    let mut state = RenderState::new();
    state.composer = "keep".into();
    state.committed_entries = 3;
    state.apply_command(InlineCommand::CloseOverlay);
    state.apply_command(InlineCommand::SetPrompt { prefix: "$ ".into() });
    assert_eq!(state.prompt_prefix, "$ ");
    assert_eq!(state.composer, "keep");
    assert_eq!(state.committed_entries, 3);
    assert!(!state.shutdown_requested);
}
