use oxicode_tui::controls::InlineEvent;
use oxicode_tui::inline_events::HostAction;
use oxicode_tui::loop_policy::LoopOutcome;
use oxicode_tui::overlay::{ListSelection, OverlayEvent, OverlaySubmission};
use oxicode_tui::overlay::OverlayState;
use oxicode_tui::provider::{next_provider_actions, AuthAction};
use oxicode_tui::secure::AuthStep;
use oxicode_tui::render_state::ConfirmationAction;
use oxicode_tui::render_state::{RenderState, SecureInputOrigin};
use oxicode_tui::secure::SecureFollowUp;
use oxicode_tui::setting_defs::{SettingDef, SettingWidget};
use oxicode_tui::transcript::InlineMessageKind;

fn defs() -> Vec<SettingDef> {
    vec![
        SettingDef { key: "ThinkingLevel".into(), label: "Thinking level".into(), widget: SettingWidget::Cycle },
        SettingDef {
            key: "AdvisorSyncBacklog".into(),
            label: "Advisor backlog".into(),
            widget: SettingWidget::SubmenuSelect(vec!["off".into(), "sync".into(), "async".into()]),
        },
        SettingDef { key: "DisabledTools".into(), label: "Disabled tools".into(), widget: SettingWidget::Multiselect },
        SettingDef { key: "ToolTimeoutSecs".into(), label: "Tool timeout".into(), widget: SettingWidget::Text },
    ]
}

fn state() -> RenderState {
    let mut s = RenderState::new();
    s.setting_defs = defs();
    s
}

fn select(s: &mut RenderState, sel: ListSelection, streaming: bool) -> Vec<HostAction> {
    let r = s.handle_inline_event(
        InlineEvent::Overlay(OverlayEvent::Submitted(OverlaySubmission::Selection(sel))),
        streaming,
        0,
    );
    assert_eq!(r.outcome, LoopOutcome::Continue);
    r.actions
}

fn errors(s: &RenderState) -> Vec<String> {
    s.transcript
        .iter()
        .filter(|l| l.kind == InlineMessageKind::Error)
        .map(|l| l.segments.iter().map(|x| x.text.as_str()).collect())
        .collect()
}

#[test]
fn session_picker_resume_refused_while_streaming() {
    let mut s = state();
    assert!(s.pending_resume.is_none());
    let acts = select(&mut s, ListSelection::Session("some-id".to_string()), true);
    assert!(acts.is_empty());
    assert!(s.pending_resume.is_none());
    assert_eq!(errors(&s), vec!["Cannot resume while agent is running. Use /cancel first.".to_string()]);
}

#[test]
fn session_picker_checks_the_session_when_idle() {
    let mut s = state();
    assert_eq!(select(&mut s, ListSelection::Session("abc".into()), false), vec![HostAction::CheckResume("abc".into())]);
    s.pending_resume = Some("abc".into());
    let r = s.handle_inline_event(InlineEvent::Submit("hello".into()), false, 0);
    assert_eq!(r.actions, vec![HostAction::ResumeSession("abc".into())]);
    assert!(s.pending_resume.is_none());
    assert!(s.transcript.is_empty(), "the resume consumes the submit");
}

#[test]
fn model_pickers_switch_models_and_clear_their_rows() {
    let mut s = state();
    s.overlay_model_ids = vec!["openai/gpt-5".into()];
    assert_eq!(select(&mut s, ListSelection::Model(0), false), vec![HostAction::SetModel("openai/gpt-5".into())]);
    assert!(s.overlay_model_ids.is_empty());
    assert!(select(&mut s, ListSelection::Model(0), false).is_empty(), "stale rows do nothing");
    s.overlay_catalog_models = vec![("zai".into(), "glm-5.1".into())];
    assert_eq!(select(&mut s, ListSelection::CatalogModel(0), false), vec![HostAction::SetModel("zai/glm-5.1".into())]);
}

#[test]
fn catalog_model_selection_still_closes_overlay() {
    let mut s = state();
    s.overlay_catalog_models = vec![("zai".into(), "glm-5.1".into())];
    select(&mut s, ListSelection::CatalogModel(0), false);
    assert!(s.overlay.is_none());
    assert!(s.overlay_catalog_models.is_empty());
}

#[test]
fn palette_selection_fills_the_composer() {
    let mut s = state();
    assert!(select(&mut s, ListSelection::SlashCommand("model".into()), false).is_empty());
    assert_eq!(s.composer, "/model ");
}

#[test]
fn submenu_commit_payloads_are_parsed() {
    let mut s = state();
    assert_eq!(
        select(&mut s, ListSelection::ConfigAction("SubmenuCommit:AdvisorSyncBacklog:async".into()), false),
        vec![HostAction::CommitSubmenu { key: "AdvisorSyncBacklog".into(), value: "async".into() }]
    );
    assert!(select(&mut s, ListSelection::ConfigAction("SubmenuCommit:Nope:x".into()), false).is_empty());
    assert!(select(&mut s, ListSelection::ConfigAction("SubmenuCommit:broken".into()), false).is_empty());
    assert_eq!(
        errors(&s),
        vec![
            "Unknown setting key in submenu commit: Nope".to_string(),
            "Malformed submenu commit payload: SubmenuCommit:broken".to_string()
        ]
    );
}

#[test]
fn config_actions_toggle_tools_and_settings() {
    let mut s = state();
    assert_eq!(
        select(&mut s, ListSelection::ConfigAction("DisabledToolToggle:bash".into()), false),
        vec![HostAction::ToggleTool("bash".into())]
    );
    assert_eq!(
        select(&mut s, ListSelection::ConfigAction("ThinkingLevel".into()), false),
        vec![HostAction::ApplySetting("ThinkingLevel".into())]
    );
    assert!(select(&mut s, ListSelection::ConfigAction("Bogus".into()), false).is_empty());
    assert_eq!(errors(&s), vec!["Unknown setting: Bogus".to_string()]);
}

#[test]
fn setting_editors_open_for_known_keys_only() {
    let mut s = state();
    assert_eq!(
        select(&mut s, ListSelection::SettingTextEdit("ToolTimeoutSecs".into()), false),
        vec![HostAction::OpenTextEdit("ToolTimeoutSecs".into())]
    );
    assert_eq!(
        select(&mut s, ListSelection::SettingSubmenuOpen("AdvisorSyncBacklog".into()), false),
        vec![HostAction::OpenSubmenu("AdvisorSyncBacklog".into())]
    );
    assert_eq!(
        select(&mut s, ListSelection::SettingMultiselect("DisabledTools".into()), false),
        vec![HostAction::OpenDisabledTools]
    );
    assert!(select(&mut s, ListSelection::SettingMultiselect("ThinkingLevel".into()), false).is_empty());
    assert!(select(&mut s, ListSelection::SettingTextEdit("Nope".into()), false).is_empty());
    assert_eq!(
        errors(&s),
        vec!["'ThinkingLevel' has no multiselect editor".to_string(), "Unknown setting key: Nope".to_string()]
    );
}

#[test]
fn key_capture_row_opens_the_capture_prompt() {
    let mut s = state();
    assert!(select(&mut s, ListSelection::SettingKeyCapture("OpenCommandPalette".into()), false).is_empty());
    let o = s.overlay.as_ref().expect("capture prompt");
    assert_eq!(o.key_capture.as_deref(), Some("OpenCommandPalette"));
    assert_eq!(o.title, "Keybinding: OpenCommandPalette");
    let mut t = state();
    select(&mut t, ListSelection::SettingKeyCapture("Nope".into()), false);
    assert!(t.overlay.is_none());
    assert_eq!(errors(&t), vec!["Unknown keybinding action: Nope".to_string()]);
}

#[test]
fn provider_rows_and_actions_go_to_the_host() {
    let mut s = state();
    s.overlay_providers = vec!["openai".into()];
    assert_eq!(select(&mut s, ListSelection::ProviderRow(0), false), vec![HostAction::ProviderSelected("openai".into())]);
    assert_eq!(
        select(&mut s, ListSelection::ProviderAction { provider: "openai".into(), action: AuthAction::RemoveKey }, false),
        vec![HostAction::Auth { provider: "openai".into(), action: AuthAction::RemoveKey }]
    );
    assert_eq!(select(&mut s, ListSelection::SettingsTab(2), false), vec![HostAction::SwitchSettingsTab(2)]);
    assert_eq!(select(&mut s, ListSelection::Theme("dark".into()), false), vec![HostAction::ApplyTheme("dark".into())]);
}

#[test]
fn secure_text_follows_its_origin_once() {
    let mut s = state();
    s.secure_input_origin = Some(SecureInputOrigin::SetKey { provider: "openai".into() });
    let r = s.handle_inline_event(
        InlineEvent::Overlay(OverlayEvent::Submitted(OverlaySubmission::SecureInput("sk-1".into()))),
        false,
        0,
    );
    assert_eq!(
        r.actions,
        vec![HostAction::SecureText(SecureFollowUp::SaveApiKey { provider: "openai".into(), key: "sk-1".into(), newly_added: false })]
    );
    assert!(s.secure_input_origin.is_none());
    let r = s.handle_inline_event(
        InlineEvent::Overlay(OverlayEvent::Submitted(OverlaySubmission::SecureInput("again".into()))),
        false,
        0,
    );
    assert!(r.actions.is_empty());
}

#[test]
fn submit_routes_commands_and_prompts() {
    let mut s = state();
    let r = s.handle_inline_event(InlineEvent::Submit("/help".into()), false, 0);
    assert_eq!(r.actions, vec![HostAction::DispatchCommand("/help".into())]);
    let r = s.handle_inline_event(InlineEvent::Submit("hi".into()), true, 0);
    assert_eq!(r.actions, vec![HostAction::SendPrompt("hi".into())]);
    assert_eq!(s.queued_inputs, vec!["hi".to_string()]);
    let r = s.handle_inline_event(InlineEvent::Submit(String::new()), false, 0);
    assert!(r.actions.is_empty());
}

#[test]
fn cancel_interrupt_exit_and_scroll() {
    let mut s = state();
    let r = s.handle_inline_event(InlineEvent::Cancel, false, 0);
    assert_eq!(r.outcome, LoopOutcome::Exit);
    let r = s.handle_inline_event(InlineEvent::Cancel, true, 0);
    assert_eq!((r.outcome, r.actions), (LoopOutcome::Continue, vec![HostAction::AbortRun]));
    let r = s.handle_inline_event(InlineEvent::Interrupt, true, 0);
    assert!(r.actions.is_empty(), "the second press asks to confirm");
    assert!(s.confirmation.is_some());
    assert_eq!(s.handle_inline_event(InlineEvent::Exit, false, 0).outcome, LoopOutcome::Exit);
    s.scroll_offset = 5;
    s.handle_inline_event(InlineEvent::ScrollPageDown, false, 0);
    assert_eq!(s.scroll_offset, 0);
    s.handle_inline_event(InlineEvent::ScrollLineUp, false, 0);
    assert_eq!(s.scroll_offset, 1);
    assert_eq!(s.handle_inline_event(InlineEvent::CyclePrimaryAgent, false, 0).actions, vec![HostAction::CycleModel]);
}

fn providers_overlay() -> OverlayState {
    OverlayState {
        title: "Providers".to_string(),
        lines: Vec::new(),
        items: Vec::new(),
        selected: 0,
        search: None,
        secure_input: None,
        tabs: Vec::new(),
        active_tab: 0,
        sections: Vec::new(),
        active_section: 0,
        key_capture: None,
    }
}

#[test]
fn provider_row_opens_action_menu_without_close() {
    // openai offers OAuth and has no stored key: several actions.
    let mut state = state();
    state.overlay_providers = vec!["openai".to_string()];
    state.overlay = Some(providers_overlay());
    let acts = select(&mut state, ListSelection::ProviderRow(0), false);
    assert_eq!(acts, vec![HostAction::ProviderSelected("openai".into())]);
    let actions = next_provider_actions(false, true);
    let step = state.provider_actions_menu("openai", &actions);
    assert!(step.is_none());
    let menu = state.overlay.as_ref().expect("the action menu stays open");
    assert_eq!(menu.title, "openai");
    assert_eq!(menu.lines, vec!["Pick an action".to_string()]);
    let titles: Vec<&str> = menu.items.iter().map(|i| i.title.as_str()).collect();
    assert_eq!(titles, vec!["Set API key", "Login with OAuth"]);
    assert_eq!(
        menu.items[1].selection,
        Some(ListSelection::ProviderAction { provider: "openai".into(), action: AuthAction::StartOAuth })
    );
    assert!(state.overlay_providers.is_empty(), "overlay_providers must be cleared after dispatch (got {:?})", state.overlay_providers);
}

#[test]
fn provider_row_set_api_key_opens_secure_prompt_without_close() {
    // cerebras is key-only with no stored key: the single action runs.
    let mut state = state();
    state.overlay_providers = vec!["cerebras".to_string()];
    state.overlay = Some(providers_overlay());
    let acts = select(&mut state, ListSelection::ProviderRow(0), false);
    assert_eq!(acts, vec![HostAction::ProviderSelected("cerebras".into())]);
    let actions = next_provider_actions(false, false);
    let step = state.provider_actions_menu("cerebras", &actions);
    assert_eq!(step, Some(AuthStep::OpenedKeyPrompt));
    assert!(state.overlay.as_ref().map_or(false, |o| o.secure_input.is_some()), "the secure prompt stays open");
    assert_eq!(
        state.secure_input_origin,
        Some(SecureInputOrigin::SetKey { provider: "cerebras".to_string() }),
        "secure_input_origin must be stashed by SetApiKey"
    );
}

#[test]
fn remove_key_asks_for_confirmation() {
    let mut state = state();
    assert_eq!(state.auth_action("openai", AuthAction::RemoveKey), AuthStep::AskedToRemove);
    let c = state.confirmation.as_ref().expect("a confirmation is pending");
    assert_eq!(c.title, "Remove key for openai?");
    assert_eq!(c.message, "  y \u{2014} remove key     n / x \u{2014} cancel");
    assert_eq!(c.action, ConfirmationAction::RemoveProviderKey("openai".into()));
    assert!(state.overlay.is_none());
    assert_eq!(state.auth_action("openai", AuthAction::StartOAuth), AuthStep::StartOAuth);
}
