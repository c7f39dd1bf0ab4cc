use oxicode_tui::overlay::ListSelection;
use oxicode_tui::render_state::{RenderState, SecureInputOrigin};
use oxicode_tui::setting_defs::{
    disabled_tools_overlay, label_for_setting, next_cycle_value, parse_setting_key, submenu_options_for,
    submenu_select_overlay, tool_toggle_decision, SettingDef, SettingWidget, ToolInfo, ToolToggle,
};

fn defs() -> Vec<SettingDef> {
    vec![
        SettingDef { key: "ThinkingLevel".into(), label: "Thinking level".into(), widget: SettingWidget::Cycle },
        SettingDef {
            key: "AdvisorSyncBacklog".into(),
            label: "Advisor backlog".into(),
            widget: SettingWidget::SubmenuSelect(vec!["off".into(), "sync".into(), "async".into()]),
        },
        SettingDef { key: "DisabledTools".into(), label: "Disabled tools".into(), widget: SettingWidget::Multiselect },
    ]
}

#[test]
fn settings_table_lookups() {
    let d = defs();
    assert_eq!(parse_setting_key(&d, "AdvisorSyncBacklog"), Some(1));
    assert_eq!(parse_setting_key(&d, "Nope"), None);
    assert_eq!(label_for_setting(&d, "ThinkingLevel"), "Thinking level");
    assert_eq!(label_for_setting(&d, "Nope"), "setting");
    assert_eq!(
        submenu_options_for(&d, "AdvisorSyncBacklog"),
        Some(vec!["off".to_string(), "sync".to_string(), "async".to_string()])
    );
    assert_eq!(submenu_options_for(&d, "ThinkingLevel"), None);
}

#[test]
fn glyph_set_cycles_unicode_ascii_nerd() {
    assert_eq!(next_cycle_value("GlyphSet", "unicode").as_deref(), Some("ascii"));
    assert_eq!(next_cycle_value("GlyphSet", "ascii").as_deref(), Some("nerd"));
    assert_eq!(next_cycle_value("GlyphSet", "nerd").as_deref(), Some("unicode"));
}

#[test]
fn thinking_levels_and_edit_format_cycle() {
    assert_eq!(next_cycle_value("ThinkingLevel", "medium").as_deref(), Some("high"));
    assert_eq!(next_cycle_value("ThinkingLevel", "xhigh").as_deref(), Some("off"));
    assert_eq!(next_cycle_value("ThinkingLevel", "weird").as_deref(), Some("minimal"));
    assert_eq!(next_cycle_value("EditFormat", "hashline").as_deref(), Some("str_replace"));
    assert_eq!(next_cycle_value("EditFormat", "str_replace").as_deref(), Some("hashline"));
    assert_eq!(next_cycle_value("Debug", "true"), None);
}

#[test]
fn submenu_select_lists_the_options_and_marks_the_current_one() {
    let opts = vec!["off".to_string(), "sync".to_string(), "async".to_string()];
    let o = submenu_select_overlay("AdvisorSyncBacklog", "Advisor backlog", &opts, "sync");
    let titles: Vec<&str> = o.items.iter().map(|i| i.title.as_str()).collect();
    assert_eq!(titles, vec!["off", "sync", "async"]);
    assert_eq!(o.selected, 1);
    assert_eq!(o.items[1].badge.as_deref(), Some("current"));
    assert!(o.items[0].badge.is_none());
    for item in &o.items {
        match item.selection.as_ref().expect("row is selectable") {
            ListSelection::ConfigAction(p) => assert!(p.starts_with("SubmenuCommit:AdvisorSyncBacklog:"), "{p}"),
            other => panic!("expected ConfigAction, got {other:?}"),
        }
    }
    assert_eq!(o.title, "Pick value for Advisor backlog");
    assert_eq!(o.lines, vec!["Esc cancels \u{2014} current: sync".to_string()]);
    assert_eq!(submenu_select_overlay("K", "L", &opts, "none").selected, 0);
}

#[test]
fn text_edit_prompt_prefills_all_but_the_default() {
    let mut s = RenderState::new();
    s.open_text_edit_prompt("ToolTimeoutSecs", "Tool timeout", "300");
    let si = s.overlay.as_ref().unwrap().secure_input.as_ref().unwrap();
    assert_eq!(si.chars.iter().collect::<String>(), "300");
    assert_eq!(s.overlay.as_ref().unwrap().title, "Edit Tool timeout");
    assert_eq!(s.secure_input_origin, Some(SecureInputOrigin::TextEdit("ToolTimeoutSecs".into())));
    s.open_text_edit_prompt("ToolTimeoutSecs", "Tool timeout", "default");
    assert!(s.overlay.as_ref().unwrap().secure_input.as_ref().unwrap().chars.is_empty());
}

fn tool(name: &str, essential: bool) -> ToolInfo {
    ToolInfo { name: name.into(), description: format!("{name} tool"), essential }
}

#[test]
fn multiselect_lists_tools_sorted_with_badges() {
    let tools = vec![tool("commit", false), tool("bash", true), tool("read", false)];
    let disabled = vec!["read".to_string(), "bash".to_string()];
    let o = disabled_tools_overlay(&tools, &disabled);
    let titles: Vec<&str> = o.items.iter().map(|i| i.title.as_str()).collect();
    assert_eq!(titles, vec!["bash", "commit", "read"], "registry tools, sorted");
    assert_eq!(o.items[0].badge.as_deref(), Some("essential \u{2014} locked"));
    assert_eq!(o.items[1].badge.as_deref(), Some("enabled"));
    assert_eq!(o.items[2].badge.as_deref(), Some("disabled"));
    assert_eq!(o.lines, vec!["2 disabled \u{2014} Enter/Space toggles, Esc closes".to_string()]);
    assert_eq!(o.items[1].selection, Some(ListSelection::ConfigAction("DisabledToolToggle:commit".into())));
}

#[test]
fn essential_tools_cannot_be_disabled() {
    assert_eq!(
        tool_toggle_decision("Disabled tools", "bash", true, false),
        ToolToggle::Refuse("'bash' is essential and cannot be disabled".into())
    );
    assert_eq!(
        tool_toggle_decision("Disabled tools", "commit", false, false),
        ToolToggle::Save { enable: false, line: "Disabled tools: 'commit' disabled".into() }
    );
    assert_eq!(
        tool_toggle_decision("Disabled tools", "commit", false, true),
        ToolToggle::Save { enable: true, line: "Disabled tools: 'commit' enabled".into() }
    );
}
