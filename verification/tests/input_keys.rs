use oxicode_tui::composer_keys::EscOutcome;
use oxicode_tui::controls::{quit_confirmation, GlobalAction, InlineEvent};
use oxicode_tui::input_keys::{keymap_pre_match, EditOp, KeyEffect, KeyPress, KeymapDispatch, MapRowAction};
use oxicode_tui::render_state::SecureInputOrigin;
use oxicode_tui::setting_defs::{SettingsMapRow, SettingsTab};
use oxicode_tui::overlay::{KeyInput, ListSelection, OverlayEvent, OverlayListItem, OverlayState, OverlaySubmission};
use oxicode_tui::prompt_queue::PromptQueue;
use oxicode_tui::render_state::{BlockDisplayMode, RenderState};
use oxicode_tui::settings_panel::build_key_capture_overlay;
use oxicode_tui::transcript::{plain_segment, InlineMessageKind, TranscriptLine};

fn press(key: KeyInput) -> KeyPress {
    KeyPress {
        key,
        shift: false,
        ctrl_or_alt: false,
        global: None,
        binds_submit: false,
        binds_scroll_up: false,
        binds_scroll_down: false,
        binds_help: false,
        combo: None,
    }
}

fn enter_submits() -> KeyPress {
    let mut k = press(KeyInput::Enter);
    k.binds_submit = true;
    k
}

#[test]
fn default_submit_dispatch_preserves_muscle_memory() {
    assert_eq!(keymap_pre_match(&enter_submits(), false), KeymapDispatch::Submit);
    assert_eq!(keymap_pre_match(&enter_submits(), true), KeymapDispatch::Unbound, "plain Enter in multiline inserts a newline");
    let mut shift_enter = enter_submits();
    shift_enter.shift = true;
    assert_eq!(keymap_pre_match(&shift_enter, true), KeymapDispatch::Submit);
    let mut q = press(KeyInput::Char('?'));
    q.binds_help = true;
    assert_eq!(keymap_pre_match(&q, false), KeymapDispatch::Unbound, "printable help stays with the composer");
    let mut f1 = press(KeyInput::Other);
    f1.binds_help = true;
    assert_eq!(keymap_pre_match(&f1, false), KeymapDispatch::Help);
}

#[test]
fn rebound_submit_fires_through_generic_dispatch() {
    let mut s = RenderState::new();
    let mut queue = PromptQueue::new();
    s.composer = "hello".into();
    let mut alt_s = press(KeyInput::Char('s'));
    alt_s.ctrl_or_alt = true;
    alt_s.binds_submit = true;
    let out = s.composer_key(&mut queue, alt_s, false, false, false, 0);
    assert_eq!(out.events, vec![InlineEvent::Submit("hello".into())]);
    assert!(s.composer.is_empty());
}

#[test]
fn scroll_and_help_dispatch_via_keymap() {
    let mut s = RenderState::new();
    let mut queue = PromptQueue::new();
    let mut pgup = press(KeyInput::PageUp);
    pgup.binds_scroll_up = true;
    assert_eq!(s.composer_key(&mut queue, pgup, false, false, false, 0).events, vec![InlineEvent::ScrollPageUp]);
    let mut pgdn = press(KeyInput::PageDown);
    pgdn.binds_scroll_down = true;
    assert_eq!(s.composer_key(&mut queue, pgdn, false, false, false, 0).events, vec![InlineEvent::ScrollPageDown]);
    let mut q = press(KeyInput::Char('?'));
    q.binds_help = true;
    let out = s.composer_key(&mut queue, q, false, false, false, 0);
    assert!(out.effects.is_empty());
    assert_eq!(s.overlay.as_ref().unwrap().title, "Keyboard Shortcuts", "printable help on the empty composer");
}

#[test]
fn rebound_send_now_combo_submits_immediately() {
    let mut s = RenderState::new();
    s.composer = "urgent".into();
    let mut k = press(KeyInput::Enter);
    k.ctrl_or_alt = true;
    k.global = Some(GlobalAction::SendNow);
    let out = s.modal_key(k, &Vec::new());
    assert!(out.consumed);
    assert_eq!(out.events, vec![InlineEvent::Interrupt, InlineEvent::Submit("urgent".into())]);
}

#[test]
fn modal_layers_take_keys_in_priority_order() {
    let mut s = RenderState::new();
    s.confirmation = Some(quit_confirmation());
    let out = s.modal_key(press(KeyInput::Char('y')), &Vec::new());
    assert!(out.consumed);
    assert_eq!(out.events, vec![InlineEvent::Exit]);
    assert!(s.confirmation.is_none());

    s.overlay = Some(OverlayState {
        title: "Pick".into(),
        lines: Vec::new(),
        items: vec![OverlayListItem {
            title: "a".into(),
            subtitle: None,
            badge: None,
            indent: 0,
            search_value: None,
            selection: Some(ListSelection::Model(0)),
        }],
        selected: 0,
        search: None,
        secure_input: None,
        tabs: Vec::new(),
        active_tab: 0,
        sections: Vec::new(),
        active_section: 0,
        key_capture: None,
    });
    let out = s.modal_key(press(KeyInput::Enter), &Vec::new());
    assert_eq!(
        out.events,
        vec![InlineEvent::Overlay(OverlayEvent::Submitted(OverlaySubmission::Selection(ListSelection::Model(0))))]
    );
    let out = s.modal_key(press(KeyInput::Char('x')), &Vec::new());
    assert!(!out.consumed, "with no modal layer the key goes on to the composer");
}

#[test]
fn capture_prompt_takes_the_next_combo() {
    let mut s = RenderState::new();
    s.overlay = Some(build_key_capture_overlay("OpenCommandPalette"));
    let mut alt_p = press(KeyInput::Char('p'));
    alt_p.ctrl_or_alt = true;
    alt_p.global = Some(GlobalAction::OpenCommandPalette);
    alt_p.combo = Some("Alt+p".into());
    let out = s.modal_key(alt_p, &vec!["Ctrl+p".to_string()]);
    assert!(out.consumed);
    assert!(out.events.is_empty(), "capture wins over the global shortcut");
    assert_eq!(
        out.effects,
        vec![KeyEffect::CommitKeybindings {
            action: GlobalAction::OpenCommandPalette,
            combos: vec!["Ctrl+p".to_string(), "Alt+p".to_string()],
            status: "Captured Alt+p for OpenCommandPalette".into(),
        }]
    );

    let mut plain = press(KeyInput::Char('p'));
    plain.combo = Some("p".into());
    let out = s.modal_key(plain, &Vec::new());
    assert!(out.effects.is_empty());
    assert!(s.overlay.as_ref().unwrap().lines[0].starts_with("'p' has no Ctrl or Alt"));

    let out = s.modal_key(press(KeyInput::Esc), &Vec::new());
    assert_eq!(out.effects, vec![KeyEffect::ReopenKeybindings(None)]);
}

#[test]
fn composer_keys_route_to_edits_and_events() {
    let mut s = RenderState::new();
    let mut queue = PromptQueue::new();
    s.composer = "abc".into();
    let out = s.composer_key(&mut queue, press(KeyInput::Backspace), false, false, false, 0);
    assert_eq!(out.effects, vec![KeyEffect::Edit(EditOp::Backspace)]);
    assert!(out.refresh && !out.nudge);
    let out = s.composer_key(&mut queue, press(KeyInput::Char('d')), false, false, false, 0);
    assert_eq!(out.effects, vec![KeyEffect::Edit(EditOp::Insert('d'))]);
    assert!(out.refresh && out.nudge);
    let out = s.composer_key(&mut queue, press(KeyInput::Esc), false, false, false, 3);
    assert_eq!(out.esc, Some(EscOutcome::ArmedClear));
    let out = s.composer_key(&mut queue, press(KeyInput::Esc), false, true, false, 4);
    assert_eq!(out.esc, Some(EscOutcome::ClearedInput));
    let out = s.composer_key(&mut queue, press(KeyInput::Esc), false, false, false, 5);
    assert_eq!(out.events, vec![InlineEvent::Cancel]);
    let out = s.composer_key(&mut queue, press(KeyInput::BackTab), false, false, false, 5);
    assert_eq!(out.effects, vec![KeyEffect::ToggleMode]);
    s.multiline_mode = true;
    let out = s.composer_key(&mut queue, press(KeyInput::Enter), false, false, false, 5);
    assert_eq!(out.effects, vec![KeyEffect::Edit(EditOp::Newline)]);
}

#[test]
fn empty_composer_keys_drive_the_transcript() {
    let mut s = RenderState::new();
    let mut queue = PromptQueue::new();
    s.transcript = vec![
        TranscriptLine { kind: InlineMessageKind::User, segments: vec![plain_segment("hi")], block_id: 0 },
        TranscriptLine { kind: InlineMessageKind::Agent, segments: vec![plain_segment("yo")], block_id: 1 },
    ];
    s.next_block_id = 2;
    s.scroll_offset = 0;
    let out = s.composer_key(&mut queue, press(KeyInput::Char('e')), false, false, false, 0);
    assert!(out.effects.is_empty() && out.nudge);
    assert_eq!(s.block_mode(0), BlockDisplayMode::Collapsed);
    s.composer_key(&mut queue, press(KeyInput::Char('E')), false, false, false, 0);
    assert_eq!(s.block_mode(0), BlockDisplayMode::Expanded);
    let out = s.composer_key(&mut queue, press(KeyInput::Char('!')), false, false, false, 0);
    assert!(s.shell_mode && out.effects.is_empty());
    s.agent_hub_open = true;
    s.composer = "x".into();
    s.composer_key(&mut queue, press(KeyInput::Char('q')), false, false, false, 0);
    assert!(!s.agent_hub_open);
    let out = s.composer_key(&mut queue, press(KeyInput::Char('w')), true, false, false, 0);
    assert_eq!(out.effects, vec![KeyEffect::Vim('w')]);
}

#[test]
fn keys_ready_checks_the_popup_selection() {
    let mut s = RenderState::new();
    assert!(s.keys_ready());
    s.slash_popup.open = true;
    s.slash_popup.items = Vec::new();
    assert!(s.keys_ready());
    s.search = Some(oxicode_tui::render_state::SearchState { query: "q".into(), matches: vec![1], current: 3 });
    assert!(!s.keys_ready());
}

fn settings_panel(rows: Vec<Option<SettingsMapRow>>, selected: usize) -> RenderState {
    let mut s = RenderState::new();
    let items: Vec<OverlayListItem> = rows
        .iter()
        .map(|_| OverlayListItem { title: "row".into(), subtitle: None, badge: None, indent: 0, search_value: None, selection: None })
        .collect();
    s.overlay = Some(OverlayState {
        title: "Settings".into(),
        lines: Vec::new(),
        items,
        selected,
        search: None,
        secure_input: None,
        tabs: vec!["General".into(), "Model".into()],
        active_tab: 1,
        sections: Vec::new(),
        active_section: 0,
        key_capture: None,
    });
    s.settings_map_rows = rows;
    s
}

#[test]
fn settings_map_rows_take_their_hotkeys() {
    let rows = vec![
        Some(SettingsMapRow::ModelRole("fast".into())),
        Some(SettingsMapRow::KeybindingCombo(GlobalAction::Help, "F1".into())),
        None,
    ];
    let mut s = settings_panel(rows, 0);
    let out = s.modal_key(press(KeyInput::Enter), &Vec::new());
    assert!(out.consumed);
    assert_eq!(out.effects, vec![KeyEffect::MapRow(MapRowAction::EditModelRole("fast".into()))]);
    let out = s.modal_key(press(KeyInput::Char('d')), &Vec::new());
    assert_eq!(out.effects, vec![KeyEffect::MapRow(MapRowAction::RemoveModelRole("fast".into()))]);

    s.overlay.as_mut().unwrap().selected = 1;
    let out = s.modal_key(press(KeyInput::Char('d')), &Vec::new());
    assert_eq!(
        out.effects,
        vec![KeyEffect::MapRow(MapRowAction::RemoveCombo { action: GlobalAction::Help, combo: "F1".into() })]
    );

    s.settings_active_tab = SettingsTab::Model;
    let out = s.modal_key(press(KeyInput::Char('n')), &Vec::new());
    assert!(out.consumed && out.effects.is_empty());
    assert_eq!(s.secure_input_origin, Some(SecureInputOrigin::ModelRoleKey));
    assert_eq!(s.overlay.as_ref().unwrap().title, "New model role");
}

#[test]
fn map_row_hotkeys_need_a_fresh_row_table() {
    let mut s = settings_panel(vec![Some(SettingsMapRow::ModelRole("fast".into()))], 0);
    s.settings_map_rows.push(None);
    let out = s.modal_key(press(KeyInput::Char('d')), &Vec::new());
    assert!(out.effects.is_empty(), "a stale row table does not match the panel");
}
