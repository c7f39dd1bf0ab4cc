use oxicode_tui::agent_events::{AgentEffect, AgentEvent, AssistantFinal, ToolPalette};
use oxicode_tui::render_state::{InlineCommand, RenderState};
use oxicode_tui::status_bar::{follow_up_row, pending_quit_hint, ChipStyle, IndicatorStyle};
use oxicode_tui::todo::{
    active_phase_index, closed_count, format_todo_line, is_todo_list_settled, next_actionable_task, spine_filled,
    todo_counter, TodoItem, TodoPhase, TodoStatus,
};
use oxicode_tui::tool_output::ToolArgs;
use oxicode_tui::transcript::{plain_segment, Color, InlineMessageKind};

fn task(content: &str, status: TodoStatus) -> TodoItem {
    TodoItem { content: content.into(), status, notes: None, block_reason: None }
}

#[test]
fn format_todo_line_abandoned_is_strikethrough() {
    let (_, _, strike) = format_todo_line(&task("Drop this", TodoStatus::Abandoned));
    assert!(strike);
    let (_, _, strike) = format_todo_line(&task("Keep this", TodoStatus::Pending));
    assert!(!strike);
}

#[test]
fn format_todo_line_shows_block_reason_and_notes_marker() {
    let todo = TodoItem {
        content: "Wire OAuth".into(),
        status: TodoStatus::Blocked,
        notes: Some(vec!["waiting on vendor".into()]),
        block_reason: Some("vendor sandbox pending".into()),
    };
    let (marker, text, _) = format_todo_line(&todo);
    let line = format!("{marker}{text}");
    assert!(line.contains("Wire OAuth"));
    assert!(line.contains("blocked: vendor sandbox pending"));
    assert!(line.contains("·1"));
    assert_eq!(text, "Wire OAuth (blocked: vendor sandbox pending) ·1");
}

#[test]
fn render_todo_compact_line_shows_counts_and_active_task() {
    let phases = vec![TodoPhase {
        name: "Auth".into(),
        tasks: vec![task("a", TodoStatus::Completed), task("b", TodoStatus::InProgress)],
    }];
    assert_eq!(todo_counter(&phases), "TODO 1/2 ");
    assert_eq!(next_actionable_task(&phases), Some((0, 1)));
    assert_eq!(closed_count(&phases[0].tasks), 1);
    assert!(!is_todo_list_settled(&phases));
}

#[test]
fn active_phase_is_the_first_with_open_work() {
    let phases = vec![
        TodoPhase { name: "One".into(), tasks: vec![task("a", TodoStatus::Completed)] },
        TodoPhase { name: "Two".into(), tasks: vec![task("b", TodoStatus::Pending)] },
    ];
    assert_eq!(active_phase_index(&phases), 1);
    assert_eq!(spine_filled(1, 2, 6), 3);
    assert_eq!(spine_filled(1, 100, 6), 1, "a started plan lights one cell");
    assert_eq!(spine_filled(99, 100, 6), 5, "an open plan never fills the hook");
}

#[test]
fn pending_quit_owns_the_hint_row() {
    assert!(pending_quit_hint().contains("press Ctrl+C again to quit"));
}

fn indicator_text(state: &RenderState, ms: u64, secs: u64) -> String {
    state.reasoning_indicator(ms, secs).iter().map(|(t, _)| t.as_str()).collect()
}

#[test]
fn reasoning_row_carries_the_abort_hint() {
    let mut state = RenderState::new();
    state.reasoning_stage = Some("thinking\u{2026}".into());
    let row = indicator_text(&state, 0, 0);
    assert!(row.contains("Esc abort"), "streaming shows the contextual abort hint: {row}");
    assert!(row.contains("thinking\u{2026}"));
}

#[test]
fn run_indicator_carries_progress_facts() {
    let mut state = RenderState::new();
    let fx = state.map_agent_event(AgentEvent::AgentStart, pal(), 78);
    assert!(fx.is_empty());
    state.active_run.as_mut().unwrap().turn = 2;
    state.active_run.as_mut().unwrap().tool_calls = 3;
    let row = indicator_text(&state, 0, 65);
    assert!(row.contains("RUNNING"), "{row}");
    assert!(row.contains("working"), "stage fallback label: {row}");
    assert!(row.contains("turn 2"), "turn count: {row}");
    assert!(row.contains("3 tool calls"), "tool count: {row}");
    assert!(row.contains("1m 05s"), "elapsed: {row}");
    assert!(row.contains("Esc abort"), "{row}");
}

#[test]
fn spinner_frame_is_wall_clock_not_draw_count() {
    let state = RenderState::new();
    let a = state.reasoning_indicator(10, 0);
    let b = state.reasoning_indicator(70, 0);
    assert_eq!(a[0].0, b[0].0, "draws within one period show the same frame");
    let c = state.reasoning_indicator(90, 0);
    assert_ne!(a[0].0, c[0].0, "the next period advances the spinner");
    assert_eq!(a[0].1, IndicatorStyle::Primary);
}

#[test]
fn follow_up_row_brackets_each_suggestion() {
    let spans = follow_up_row(&["Run tests".to_string(), "Commit".to_string()]);
    let text: String = spans.iter().map(|(t, _)| t.as_str()).collect();
    assert_eq!(text, "Suggestions: [Run tests]  [Commit]");
    assert_eq!(spans[0].1, ChipStyle::Label);
    assert_eq!(spans[1].1, ChipStyle::Chip);
}

fn pal() -> ToolPalette {
    ToolPalette { border: Color::Ansi(7), error: Color::Ansi(1), added: None, removed: None }
}

fn apply_all(state: &mut RenderState, fx: Vec<AgentEffect>) {
    for e in fx {
        match e {
            AgentEffect::Command(c) => {
                state.apply_command(c);
            }
            AgentEffect::Repaint { message, .. } => {
                if !message.is_empty() {
                    let lines = message.split('\n').map(|l| vec![plain_segment(l)]).collect();
                    state.apply_command(InlineCommand::ReplaceLast { kind: InlineMessageKind::Agent, lines });
                }
            }
            _ => {}
        }
    }
}

fn answer(state: &mut RenderState, streamed: &[&str], final_text: Option<&str>) {
    let mut fx = state.map_agent_event(AgentEvent::MessageStart, pal(), 78);
    for d in streamed {
        fx.extend(state.map_agent_event(AgentEvent::TextDelta(d.to_string()), pal(), 78));
    }
    let assistant = final_text.map(|t| AssistantFinal { thinking: String::new(), text: t.to_string() });
    fx.extend(state.map_agent_event(AgentEvent::MessageEnd { assistant }, pal(), 78));
    apply_all(state, fx);
}

fn joined(state: &RenderState) -> String {
    state
        .transcript
        .iter()
        .map(|l| l.segments.iter().map(|s| s.text.as_str()).collect::<String>())
        .collect::<Vec<_>>()
        .join("|")
}

#[test]
fn consecutive_messages_stream_into_separate_blocks() {
    let mut state = RenderState::new();
    for body in ["first answer", "second answer"] {
        answer(&mut state, &[body], Some(body));
    }
    let text = joined(&state);
    assert!(text.contains("first answer") && text.contains("second answer"), "both messages survive: {text}");
    assert!(!text.contains("first answersecond answer"), "{text}");
}

#[test]
fn message_end_replaces_the_streamed_block_without_duplicates() {
    let mut state = RenderState::new();
    answer(&mut state, &["para one", "\n\npara two"], Some("para one\n\npara two"));
    let text = joined(&state);
    assert_eq!(text.matches("para one").count(), 1, "{text}");
    assert_eq!(text.matches("para two").count(), 1, "{text}");
}

#[test]
fn tool_lines_survive_the_full_turn_event_sequence() {
    let mut state = RenderState::new();
    answer(&mut state, &["I will check."], None);
    let mut fx = state.map_agent_event(
        AgentEvent::ToolExecutionStart { tool_name: "bash".into(), args: ToolArgs::Str("echo hi".into()) },
        pal(),
        78,
    );
    fx.extend(state.map_agent_event(
        AgentEvent::ToolExecutionEnd { tool_name: "bash".into(), content: "ls output".into(), is_error: false },
        pal(),
        78,
    ));
    apply_all(&mut state, fx);
    answer(&mut state, &["All done."], None);
    let text = joined(&state);
    assert!(text.contains("I will check."), "{text}");
    assert!(text.contains("ls output"), "{text}");
    assert!(text.contains("All done."), "{text}");
    let check = text.find("I will check.").unwrap();
    let tool = text.find("ls output").unwrap();
    let done = text.find("All done.").unwrap();
    assert!(check < tool && tool < done, "order is kept: {text}");
}
