use oxicode_tui::composer_keys::EscOutcome;
use oxicode_tui::controls::{
    clear_confirmation, command_line, ConfirmedEvent, GlobalAction, InterruptOutcome, InlineEvent, SubmitAction,
};
use oxicode_tui::loop_policy::LoopOutcome;
use oxicode_tui::overlay::KeyInput;
use oxicode_tui::prompt_queue::PromptQueue;
use oxicode_tui::render_state::RenderState;
use oxicode_tui::slash::SlashCommand;

fn cmd(name: &str, description: &str, aliases: &[&str]) -> SlashCommand {
    SlashCommand {
        name: name.to_string(),
        description: description.to_string(),
        aliases: aliases.iter().map(|a| a.to_string()).collect(),
    }
}

fn state() -> RenderState {
    let mut s = RenderState::new();
    s.slash_commands = vec![
        cmd("quit", "Exit", &["exit", "q"]),
        cmd("clear", "Clear", &["cls"]),
        cmd("model", "Model", &[]),
    ];
    s
}

fn lines(s: &RenderState) -> Vec<String> {
    s.transcript.iter().map(|l| l.segments.iter().map(|x| x.text.as_str()).collect()).collect()
}

#[test]
fn ctrl_c_ladder_aborts_then_confirms_then_exits() {
    let mut s = state();
    let r = s.handle_interrupt(true);
    assert_eq!(r, InterruptOutcome { outcome: LoopOutcome::Continue, abort_run: true });
    assert!(s.pending_quit);
    let r = s.handle_interrupt(true);
    assert_eq!(r, InterruptOutcome { outcome: LoopOutcome::Continue, abort_run: false });
    assert!(!s.pending_quit);
    assert!(s.confirmation.is_some());
    let r = s.handle_interrupt(false);
    assert_eq!(r.outcome, LoopOutcome::Exit, "a third Ctrl+C with the dialog up quits");
}

#[test]
fn ctrl_c_when_idle_asks_to_confirm() {
    let mut s = state();
    let r = s.handle_interrupt(false);
    assert_eq!(r, InterruptOutcome { outcome: LoopOutcome::Continue, abort_run: false });
    assert_eq!(s.confirmation.as_ref().unwrap().title, "Quit oxicode?");
}

#[test]
fn esc_quits_at_once_when_idle_and_interrupts_while_streaming() {
    let mut s = state();
    assert_eq!(s.handle_cancel(false).outcome, LoopOutcome::Exit);
    assert_eq!(s.handle_cancel(true), InterruptOutcome { outcome: LoopOutcome::Continue, abort_run: true });
}

#[test]
fn clear_confirmation_resubmits_the_forced_clear() {
    let mut s = state();
    s.confirmation = Some(clear_confirmation());
    assert_eq!(
        s.handle_confirmation_key(KeyInput::Enter),
        Some(ConfirmedEvent::Submit("/clear --yes".to_string()))
    );
    assert!(s.confirmation.is_none());
}

#[test]
fn submit_echoes_and_routes_commands_and_prompts() {
    let mut s = state();
    s.composer = "leftover".to_string();
    assert_eq!(s.handle_submit("  /model".to_string(), false, 0), SubmitAction::Command("  /model".to_string()));
    assert!(s.composer.is_empty());
    assert_eq!(s.handle_submit("fix the bug".to_string(), false, 0), SubmitAction::Prompt("fix the bug".to_string()));
    assert_eq!(lines(&s), vec!["  /model".to_string(), "fix the bug".to_string()]);
    assert_eq!(s.handle_submit(String::new(), false, 0), SubmitAction::Nothing);
}

#[test]
fn submit_while_streaming_queues_and_shows_the_send_now_tip() {
    let mut s = state();
    assert_eq!(s.handle_submit("next".to_string(), true, 7), SubmitAction::Prompt("next".to_string()));
    assert_eq!(s.queued_inputs, vec!["next".to_string()]);
    let tip = s.tip.as_ref().expect("tip");
    assert_eq!(tip.text, "Ctrl+Enter sends now | Ctrl+; manages queue");
    assert_eq!(tip.born_tick, 7);
    assert_eq!(tip.ttl_ticks, 240);
}

#[test]
fn command_lines_start_with_a_slash_after_blanks() {
    assert!(command_line("/help"));
    assert!(command_line(" \t/help"));
    assert!(!command_line("help /me"));
    assert!(!command_line(""));
}

#[test]
fn harvest_takes_the_selected_popup_command() {
    let mut s = state();
    s.composer = "/cl".to_string();
    s.refresh_slash_popup();
    assert!(s.slash_popup.open);
    assert_eq!(s.harvest_and_clear_input(), "/clear");
    assert!(!s.slash_popup.open);
    assert!(s.prompt_history.is_empty(), "commands are not recorded in history");
}

#[test]
fn harvest_records_prompts_in_history_most_recent_first() {
    let mut s = state();
    for p in ["one", "two"] {
        s.composer = p.to_string();
        assert_eq!(s.harvest_and_clear_input(), p);
    }
    assert_eq!(s.prompt_history, vec!["two".to_string(), "one".to_string()]);
    assert!(s.composer.is_empty());
}

#[test]
fn history_is_capped_at_one_hundred() {
    let mut s = state();
    for i in 0..105 {
        s.composer = format!("p{i}");
        s.harvest_and_clear_input();
    }
    assert_eq!(s.prompt_history.len(), 100);
    assert_eq!(s.prompt_history[0], "p104");
}

#[test]
fn up_recalls_history_and_down_scrolls() {
    let mut s = state();
    s.prompt_history = vec!["newest".to_string(), "older".to_string(), "oldest".to_string()];
    assert!(s.composer_up());
    assert_eq!(s.composer, "older", "the first press skips the most recent entry");
    s.composer.clear();
    assert!(s.composer_up());
    assert_eq!(s.composer, "oldest");
    s.composer.clear();
    assert!(s.composer_up());
    assert_eq!(s.composer, "oldest", "capped at the oldest");
    assert!(s.composer_down());
}

#[test]
fn up_and_down_wrap_in_the_popup() {
    let mut s = state();
    s.composer = "/".to_string();
    s.refresh_slash_popup();
    assert!(!s.composer_up());
    assert_eq!(s.slash_popup.selected, 2);
    assert!(!s.composer_down());
    assert_eq!(s.slash_popup.selected, 0);
}

#[test]
fn esc_ladder_on_the_composer() {
    let mut s = state();
    s.shell_mode = true;
    s.composer = "ls".to_string();
    assert_eq!(s.esc_key(false, false, 0), EscOutcome::LeftShellMode);
    assert!(s.composer.is_empty() && !s.shell_mode);

    s.composer = "/q".to_string();
    s.refresh_slash_popup();
    assert_eq!(s.esc_key(false, false, 0), EscOutcome::ClosedPopup);

    assert_eq!(s.esc_key(false, false, 3), EscOutcome::ArmedClear);
    assert_eq!(s.tip.as_ref().unwrap().text, "Press Esc again to clear input");
    assert_eq!(s.esc_key(true, false, 4), EscOutcome::ClearedInput);
    assert!(s.composer.is_empty());
    assert_eq!(s.esc_key(false, false, 5), EscOutcome::Cancel);
    assert_eq!(s.esc_key(false, true, 5), EscOutcome::Swallowed);
}

#[test]
fn tab_completes_the_selected_command() {
    let mut s = state();
    s.composer = "/mo".to_string();
    s.refresh_slash_popup();
    assert!(s.tab_complete());
    assert_eq!(s.composer, "/model ");
    assert!(!s.slash_popup.open);
    assert!(!s.tab_complete(), "nothing to complete once the popup closed");
}

fn queued(s: &mut RenderState, q: &mut PromptQueue, items: &[&str]) {
    for i in items {
        q.enqueue(i.to_string());
        s.queued_inputs.push(i.to_string());
    }
    s.queue_panel_open = true;
}

#[test]
fn queue_pane_keys_edit_both_lists() {
    let mut s = state();
    let mut q = PromptQueue::new();
    queued(&mut s, &mut q, &["a", "b", "c"]);
    s.queue_selected = 0;
    assert!(s.queue_key(&mut q, 'J'));
    assert_eq!(s.queued_inputs, vec!["b", "a", "c"]);
    assert_eq!(s.queue_selected, 1);
    assert!(s.queue_key(&mut q, 'x'));
    assert_eq!(s.queued_inputs, vec!["b", "c"]);
    let pending: Vec<String> = q.pending.iter().cloned().collect();
    assert_eq!(pending, s.queued_inputs, "the pane stays in sync with the queue");
    assert!(s.queue_key(&mut q, 'e'));
    assert_eq!(s.composer, "c");
    assert!(!s.queue_panel_open);
    assert!(!s.queue_key(&mut q, 'x'), "keys do nothing once the pane is closed");
}

#[test]
fn shell_submit_runs_the_line_as_a_bash_prompt() {
    let mut s = state();
    s.shell_mode = true;
    s.composer = "ls -la".to_string();
    let p = s.shell_submit().expect("a prompt");
    assert!(p.contains("ls -la"), "{p}");
    assert!(s.composer.is_empty() && !s.shell_mode);
    assert_eq!(s.prompt_history, vec!["ls -la".to_string()]);
    assert_eq!(s.shell_submit(), None);
}

#[test]
fn plan_nudge_shows_a_tip_once_the_composer_mentions_planning() {
    let mut s = state();
    s.composer = "Let's PLAN this".to_string();
    s.plan_nudge(9);
    assert_eq!(s.tip.as_ref().unwrap().key, "plan_nudge");
    let mut t = state();
    t.composer = "no nudge".to_string();
    t.plan_nudge(9);
    assert!(t.tip.is_none());
}

#[test]
fn global_actions_dispatch() {
    let mut s = state();
    assert_eq!(s.apply_global_action(GlobalAction::Interrupt), vec![InlineEvent::Interrupt]);
    assert_eq!(s.apply_global_action(GlobalAction::ScrollUp), vec![InlineEvent::ScrollPageUp]);
    assert!(s.apply_global_action(GlobalAction::ToggleMultiline).is_empty());
    assert!(s.multiline_mode);
    s.composer = "hello".to_string();
    assert_eq!(s.apply_global_action(GlobalAction::Submit), vec![InlineEvent::Submit("hello".to_string())]);
    s.composer = "urgent".to_string();
    assert_eq!(
        s.apply_global_action(GlobalAction::SendNow),
        vec![InlineEvent::Interrupt, InlineEvent::Submit("urgent".to_string())]
    );
    assert!(s.apply_global_action(GlobalAction::SendNow).is_empty(), "nothing to send");
    s.apply_global_action(GlobalAction::Help);
    assert_eq!(s.overlay.as_ref().unwrap().title, "Keyboard Shortcuts");
    s.apply_global_action(GlobalAction::OpenCommandPalette);
    let palette = s.overlay.as_ref().unwrap();
    assert_eq!(palette.title, "Command Palette");
    assert_eq!(palette.items.len(), 3);
    s.apply_global_action(GlobalAction::ToggleQueuePanel);
    assert!(s.queue_panel_open);
}

#[test]
fn scroll_by_saturates_both_ways() {
    let mut s = state();
    s.scroll_offset = 3;
    s.scroll_by(false, 10);
    assert_eq!(s.scroll_offset, 0);
    s.scroll_by(true, 4);
    assert_eq!(s.scroll_offset, 4);
    s.scroll_offset = usize::MAX - 1;
    s.scroll_by(true, 5);
    assert_eq!(s.scroll_offset, usize::MAX);
}
