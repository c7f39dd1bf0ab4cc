use oxicode_tui::setting_defs::{tool_toggle_decision, ToolToggle};
use oxicode_tui::settings_commit::{
    advisor_sync_error, labeled_status, live_sync_action, model_role_removal_status, text_edit_report,
    tool_toggle_report, CommitReport, LiveSync,
};
use oxicode_tui::transcript::InlineMessageKind;

#[test]
fn saved_text_edit_reports_the_new_value() {
    let r = text_edit_report("Max tokens", Ok("4096".to_string()), None);
    assert_eq!(
        r,
        CommitReport {
            lines: vec![(InlineMessageKind::Info, "Max tokens: 4096".to_string())],
            reopen: Some("Max tokens: 4096".to_string()),
        }
    );
    assert_eq!(labeled_status("Edit format", "hashline"), "Edit format: hashline");
}

#[test]
fn refused_live_sync_comes_before_the_saved_value() {
    let e = advisor_sync_error(true, "no model");
    assert_eq!(e, "failed to enable the advisor live: no model (saved; restart to apply)");
    let r = text_edit_report("Advisor", Ok("on".to_string()), Some(e));
    assert_eq!(r.lines.len(), 2);
    assert_eq!(r.lines[0].0, InlineMessageKind::Error);
    assert_eq!(
        r.lines[0].1,
        "Advisor: failed to enable the advisor live: no model (saved; restart to apply)"
    );
    assert_eq!(r.lines[1], (InlineMessageKind::Info, "Advisor: on".to_string()));
    assert_eq!(r.reopen, Some("Advisor: on".to_string()));
    assert_eq!(
        advisor_sync_error(false, "busy"),
        "failed to disable the advisor live: busy (saved; restart to apply)"
    );
}

#[test]
fn failed_text_edit_keeps_the_panel() {
    let r = text_edit_report("Max tokens", Err("invalid digit".to_string()), None);
    assert_eq!(r.lines, vec![(InlineMessageKind::Error, "Max tokens: invalid digit".to_string())]);
    assert_eq!(r.reopen, None);
}

#[test]
fn tool_toggle_save_outcomes() {
    let line = match tool_toggle_decision("Disabled tools", "bash", false, false) {
        ToolToggle::Save { enable, line } => {
            assert!(!enable);
            line
        }
        ToolToggle::Refuse(_) => panic!("a plain tool is not refused"),
    };
    assert_eq!(
        tool_toggle_report("Disabled tools", line.clone(), Ok(())),
        (InlineMessageKind::Info, "Disabled tools: 'bash' disabled".to_string(), true)
    );
    assert_eq!(
        tool_toggle_report("Disabled tools", line, Err("read-only".to_string())),
        (InlineMessageKind::Error, "Disabled tools: failed to save: read-only".to_string(), false)
    );
}

#[test]
fn model_role_removal_statuses() {
    assert_eq!(model_role_removal_status("fast", Ok((true, Ok(())))), "Removed model role 'fast'");
    assert_eq!(model_role_removal_status("fast", Ok((false, Ok(())))), "Role 'fast' was already gone");
    assert_eq!(
        model_role_removal_status("fast", Ok((true, Err("disk full".to_string())))),
        "Failed to save model roles: disk full"
    );
    assert_eq!(
        model_role_removal_status("fast", Err("bad toml".to_string())),
        "Failed to load settings: bad toml"
    );
}

#[test]
fn live_sync_targets() {
    assert_eq!(live_sync_action("ThinkingLevel", false, false), LiveSync::ThinkingLevel);
    assert_eq!(live_sync_action("GlyphSet", false, false), LiveSync::GlyphSet);
    assert_eq!(live_sync_action("AutoCompaction", true, true), LiveSync::AutoCompaction);
    assert_eq!(live_sync_action("AdvisorEnabled", false, true), LiveSync::Advisor(true));
    assert_eq!(live_sync_action("AdvisorEnabled", true, false), LiveSync::Advisor(false));
    assert_eq!(live_sync_action("AdvisorEnabled", true, true), LiveSync::Nothing);
    assert_eq!(live_sync_action("MaxTokens", true, false), LiveSync::Nothing);
}
