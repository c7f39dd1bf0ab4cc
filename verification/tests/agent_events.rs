use oxicode_tui::agent_events::{AgentEffect, AgentEvent, AssistantFinal, SessionEvent, ToolPalette};
use oxicode_tui::prompt_queue::PromptQueue;
use oxicode_tui::render_state::{InlineCommand, RenderState};
use oxicode_tui::tool_output::ToolArgs;
use oxicode_tui::transcript::{plain_segment, Color, InlineMessageKind};

fn pal() -> ToolPalette {
    ToolPalette { border: Color::Ansi(7), error: Color::Ansi(1), added: Some(Color::Ansi(2)), removed: Some(Color::Ansi(1)) }
}

/// Applies what an event asked for, as the event loop does: commands go
/// to the state, a repaint re-renders the streamed block from its anchor.
fn apply_all(state: &mut RenderState, fx: Vec<AgentEffect>) -> usize {
    let mut images = 0;
    for e in fx {
        match e {
            AgentEffect::Command(c) => {
                state.apply_command(c);
            }
            AgentEffect::Repaint { message, .. } => {
                if !message.is_empty() {
                    state.apply_command(InlineCommand::ReplaceLast {
                        kind: InlineMessageKind::Agent,
                        lines: vec![vec![plain_segment(&message)]],
                    });
                }
            }
            AgentEffect::ImagePreview(_) => images += 1,
            AgentEffect::Notify => {}
        }
    }
    images
}

fn send(state: &mut RenderState, event: AgentEvent) -> Vec<AgentEffect> {
    state.map_agent_event(event, pal(), 78)
}

fn transcript_text(state: &RenderState) -> Vec<String> {
    state
        .transcript
        .iter()
        .map(|l| l.segments.iter().map(|s| s.text.as_str()).collect())
        .collect()
}

#[test]
fn thinking_delta_sets_fixed_stage_label_not_raw_text() {
    let mut state = RenderState::new();
    let fx = send(&mut state, AgentEvent::ThinkingDelta("considering options".into()));
    assert_eq!(
        state.reasoning_stage.as_deref(),
        Some("thinking\u{2026}"),
        "reasoning stage must show a fixed label, never the streamed fragment"
    );
    for e in &fx {
        assert!(
            !matches!(e, AgentEffect::Command(InlineCommand::Inline { .. })),
            "thinking must not emit a transcript Inline command"
        );
    }
}

#[test]
fn message_end_clears_reasoning_stage() {
    let mut state = RenderState::new();
    state.reasoning_stage = Some("thinking\u{2026}".into());
    send(&mut state, AgentEvent::MessageEnd { assistant: None });
    assert!(
        state.reasoning_stage.is_none(),
        "MessageEnd must clear the reasoning stage so follow-ups / tips can render"
    );
}

#[test]
fn run_tracker_spans_the_whole_tool_loop() {
    let mut state = RenderState::new();
    send(&mut state, AgentEvent::AgentStart);
    assert!(state.active_run.is_some(), "AgentStart opens the run tracker");

    send(&mut state, AgentEvent::MessageStart);
    let fx = send(&mut state, AgentEvent::ToolExecutionStart { tool_name: "read".into(), args: ToolArgs::Null });
    apply_all(&mut state, fx);
    send(&mut state, AgentEvent::MessageEnd { assistant: None });

    let run = state.active_run.as_ref().expect("run stays live");
    assert_eq!(run.turn, 1, "MessageStart counts a turn");
    assert_eq!(run.tool_calls, 1, "ToolExecutionStart counts a call");

    send(&mut state, AgentEvent::AgentEnd);
    assert!(state.active_run.is_none(), "AgentEnd closes the tracker");
    assert!(state.reasoning_stage.is_none(), "AgentEnd releases the indicator row");
}

#[test]
fn first_text_delta_overrides_thinking_stage_with_generating_response() {
    let mut state = RenderState::new();
    send(&mut state, AgentEvent::ThinkingDelta("considering".into()));
    send(&mut state, AgentEvent::TextDelta("hi".into()));
    assert_eq!(
        state.reasoning_stage.as_deref(),
        Some("generating response"),
        "first Text delta must move the stage off `thinking\u{2026}`"
    );
}

#[test]
fn message_end_releases_the_stream_anchor() {
    let mut state = RenderState::new();
    let mut fx = send(&mut state, AgentEvent::MessageStart);
    fx.extend(send(&mut state, AgentEvent::TextDelta("done".into())));
    fx.extend(send(&mut state, AgentEvent::MessageEnd { assistant: None }));
    apply_all(&mut state, fx);
    assert!(
        state.stream_anchor.is_none(),
        "MessageEnd finalizes the message — the anchor must release so the finished block can commit to scrollback"
    );
}

#[test]
fn final_message_text_replaces_the_streamed_buffer() {
    let mut state = RenderState::new();
    let mut fx = send(&mut state, AgentEvent::MessageStart);
    fx.extend(send(&mut state, AgentEvent::TextDelta("partial".into())));
    fx.extend(send(
        &mut state,
        AgentEvent::MessageEnd {
            assistant: Some(AssistantFinal { thinking: String::new(), text: "the whole answer".into() }),
        },
    ));
    apply_all(&mut state, fx);
    assert_eq!(transcript_text(&state), vec!["the whole answer".to_string()]);
    assert!(state.message_buffer.is_empty());
    assert_eq!(state.stream_reveal, usize::MAX, "the final text is shown whole");
}

#[test]
fn agent_session_event_reaches_the_transcript_bridge() {
    let mut state = RenderState::new();
    let fx = state.handle_session_event(
        SessionEvent::Agent(AgentEvent::TextChunk { text: "streamed reply".to_string() }),
        None,
        pal(),
        78,
    );
    assert!(!fx.is_empty(), "an agent event must produce a render command");
    apply_all(&mut state, fx);
    assert_eq!(state.transcript.len(), 1);
    assert_eq!(state.transcript[0].kind, InlineMessageKind::Agent);
    assert_eq!(state.transcript[0].segments[0].text, "streamed reply");
}

#[test]
fn missing_key_error_opens_the_key_prompt_for_the_session_provider() {
    let mut state = RenderState::new();
    let fx = state.handle_session_event(
        SessionEvent::Agent(AgentEvent::Error { message: "Missing API key for request".into() }),
        Some("deepseek/deepseek-v4-flash"),
        pal(),
        78,
    );
    apply_all(&mut state, fx);
    let text = transcript_text(&state);
    assert!(text.iter().any(|t| t.contains("Authentication is required for 'deepseek'")));
    assert!(text.iter().any(|t| t == "Missing API key for request"));
    assert!(state.overlay.as_ref().and_then(|o| o.secure_input.as_ref()).is_some());
}

#[test]
fn generate_image_without_payload_keeps_generic_preview() {
    let mut state = RenderState::new();
    let mut fx = send(
        &mut state,
        AgentEvent::ToolExecutionStart { tool_name: "generate_image".into(), args: ToolArgs::Null },
    );
    fx.extend(send(
        &mut state,
        AgentEvent::ToolExecutionEnd {
            tool_name: "generate_image".into(),
            content: "Image generation completed but returned no images.".into(),
            is_error: false,
        },
    ));
    let images = apply_all(&mut state, fx);
    let texts = transcript_text(&state);
    assert!(texts.iter().any(|t| t.contains("returned no images")), "generic preview path still renders the summary");
    assert_eq!(images, 0);
}

#[test]
fn generate_image_result_enqueues_the_decoded_preview_and_never_the_base64() {
    let mut state = RenderState::new();
    let mut fx = send(
        &mut state,
        AgentEvent::ToolExecutionStart { tool_name: "generate_image".into(), args: ToolArgs::Null },
    );
    fx.extend(send(
        &mut state,
        AgentEvent::ToolExecutionEnd {
            tool_name: "generate_image".into(),
            content: "Generated 1 image(s).\n\nImage 1 (8 bytes, base64):\niVBORw0KGgo=\n".into(),
            is_error: false,
        },
    ));
    let png: Vec<Vec<u8>> = fx
        .iter()
        .filter_map(|e| match e {
            AgentEffect::ImagePreview(p) => Some(p.clone()),
            _ => None,
        })
        .collect();
    assert_eq!(png, vec![vec![0x89, 0x50, 0x4e, 0x47, 0x0d, 0x0a, 0x1a, 0x0a]]);
    apply_all(&mut state, fx);
    assert!(transcript_text(&state).iter().all(|t| !t.contains("iVBORw0KGgo=")), "raw base64 must never render as text");
}

#[test]
fn tool_output_box_shows_the_first_twelve_lines_and_counts_the_rest() {
    let mut state = RenderState::new();
    let content: String = (1..=15).map(|i| format!("line {i}\n")).collect();
    let mut fx = send(&mut state, AgentEvent::ToolExecutionStart { tool_name: "bash".into(), args: ToolArgs::Null });
    fx.extend(send(
        &mut state,
        AgentEvent::ToolExecutionEnd { tool_name: "bash".into(), content: content.trim_end().to_string(), is_error: false },
    ));
    apply_all(&mut state, fx);
    let texts = transcript_text(&state);
    assert!(texts.iter().any(|t| t.contains("line 12")));
    assert!(!texts.iter().any(|t| t.contains("line 13")));
    assert!(texts.iter().any(|t| t.contains("\u{2026} +3 lines")), "{texts:?}");
}

#[test]
fn usage_and_turn_end_update_the_state() {
    let mut state = RenderState::new();
    send(&mut state, AgentEvent::Usage { input_tokens: 4200 });
    assert_eq!(state.context_tokens, Some(4200));
    state.queued_inputs = vec!["next".into(), "later".into()];
    let fx = send(&mut state, AgentEvent::TurnEnd);
    assert_eq!(state.queued_inputs, vec!["later".to_string()]);
    assert!(fx.iter().any(|e| matches!(e, AgentEffect::Notify)));
}

fn line_texts(state: &RenderState) -> Vec<String> {
    state.transcript.iter().map(|l| l.segments.iter().map(|s| s.text.as_str()).collect()).collect()
}

#[test]
fn completed_handoff_starts_over_and_queues_the_continuation() {
    let mut state = RenderState::new();
    state.append_line(InlineMessageKind::Agent, vec![plain_segment("old talk")]);
    state.message_buffer = "partial".into();
    state.scroll_offset = 0;
    let mut queue = PromptQueue::new();
    state.complete_handoff("/tmp/h.md", true, &mut queue);
    assert_eq!(line_texts(&state), vec!["Handoff written to /tmp/h.md. New session started.".to_string()]);
    assert_eq!(state.transcript[0].kind, InlineMessageKind::Info);
    assert!(state.message_buffer.is_empty());
    assert_eq!(state.scroll_offset, usize::MAX);
    assert_eq!(queue.len(), 1);
    assert_eq!(
        queue.next(),
        Some("Read the handoff document at /tmp/h.md and continue from where the previous session left off.".to_string())
    );
}

#[test]
fn completed_handoff_with_typed_input_skips_auto_continue() {
    let mut state = RenderState::new();
    state.composer = "  keep me ".into();
    let mut queue = PromptQueue::new();
    state.complete_handoff("doc.md", true, &mut queue);
    assert_eq!(
        line_texts(&state),
        vec![
            "Handoff written to doc.md. New session started.".to_string(),
            "Handoff complete. Auto-continue skipped because input was non-empty \u{2014} press Enter to submit your message in the new session.".to_string(),
        ]
    );
    assert!(state.composer.is_empty());
    assert_eq!(queue.len(), 0);
    // Without auto-continue and nothing typed: just the one line.
    let mut state = RenderState::new();
    state.complete_handoff("doc.md", false, &mut queue);
    assert_eq!(line_texts(&state).len(), 1);
    assert_eq!(queue.len(), 0);
}
