use oxicode_tui::scrollback::{scrollback_commit_plan, DisplayRow};
use oxicode_tui::settings_panel::{
    build_key_capture_overlay, capture_decision, remove_combo_decision, CaptureDecision, RemoveDecision,
};
use oxicode_tui::transcript::{plain_segment, InlineMessageKind, TranscriptLine};

fn tl(kind: InlineMessageKind, text: &str, block_id: usize) -> TranscriptLine {
    TranscriptLine { kind, segments: vec![plain_segment(text)], block_id }
}

/// 6 agent blocks × 2 lines = 12 entries.
fn long_transcript() -> Vec<TranscriptLine> {
    (0..6)
        .flat_map(|b| {
            [
                tl(InlineMessageKind::Agent, &format!("b{b}-line-one"), b),
                tl(InlineMessageKind::Agent, &format!("b{b}-line-two"), b),
            ]
        })
        .collect()
}

/// One display row per transcript line (agent flow has no spacers), as
/// wide as the line's text.
fn display_of(transcript: &[TranscriptLine]) -> Vec<DisplayRow> {
    transcript
        .iter()
        .enumerate()
        .map(|(i, l)| DisplayRow {
            source_index: i,
            cells: Some(l.segments.iter().map(|s| s.text.chars().count()).sum()),
        })
        .collect()
}

#[test]
fn commit_plan_sheds_oldest_blocks_and_keeps_the_tail() {
    let transcript = long_transcript();
    let display = display_of(&transcript);
    let plan = scrollback_commit_plan(&display, &transcript, 80, 4, None).expect("plan");
    assert_eq!(plan.rows, 8, "12 rows total, keep 4 → commit 8");
    assert_eq!(plan.new_committed_entries, 8);
}

#[test]
fn commit_plan_never_splits_a_block() {
    let transcript: Vec<TranscriptLine> = (0..3)
        .flat_map(|b| (0..3).map(move |i| tl(InlineMessageKind::Agent, &format!("b{b}-{i}"), b)))
        .collect();
    let display = display_of(&transcript);
    let plan = scrollback_commit_plan(&display, &transcript, 80, 5, None).expect("plan");
    assert_eq!(plan.new_committed_entries, 3, "boundary snaps to block start");
    assert_eq!(plan.rows, 3);
}

#[test]
fn commit_plan_excludes_the_streaming_anchor() {
    let transcript = long_transcript();
    let display = display_of(&transcript);
    let plan = scrollback_commit_plan(&display, &transcript, 80, 4, Some(4)).expect("plan");
    assert!(plan.new_committed_entries <= 4, "nothing at/after the anchored (streaming) block commits");
}

#[test]
fn commit_plan_noop_when_tail_fits() {
    let transcript = long_transcript();
    let display = display_of(&transcript);
    assert!(scrollback_commit_plan(&display, &transcript, 80, 12, None).is_none());
}

#[test]
fn oversized_block_commits_its_head_at_line_granularity() {
    let mut transcript: Vec<TranscriptLine> =
        (0..30).map(|i| tl(InlineMessageKind::Agent, &format!("big-{i:02}"), 0)).collect();
    transcript.push(tl(InlineMessageKind::Agent, "tail-a", 1));
    transcript.push(tl(InlineMessageKind::Agent, "tail-b", 1));
    let display = display_of(&transcript);
    let plan = scrollback_commit_plan(&display, &transcript, 80, 10, None).expect("plan");
    assert_eq!(plan.new_committed_entries, 22, "32 rows, keep 10 → head 22 rows commit");
    assert_eq!(plan.rows, 22);
}

#[test]
fn wrapped_lines_count_every_terminal_row() {
    // Two 100-cell lines at width 40 take 3 rows each.
    let transcript = vec![
        tl(InlineMessageKind::Agent, &"a".repeat(100), 0),
        tl(InlineMessageKind::Agent, &"b".repeat(100), 1),
    ];
    let display = display_of(&transcript);
    let plan = scrollback_commit_plan(&display, &transcript, 40, 3, None).expect("plan");
    assert_eq!(plan.rows, 3);
    assert_eq!(plan.boundary_item, 1);
    assert_eq!(plan.new_committed_entries, 1);
}

#[test]
fn capture_commits_a_ctrl_combo_once() {
    let current = vec!["Ctrl+p".to_string()];
    assert_eq!(
        capture_decision(false, true, Some("Alt+p"), &current),
        CaptureDecision::Commit(vec!["Ctrl+p".to_string(), "Alt+p".to_string()])
    );
    assert_eq!(
        capture_decision(false, true, Some("Ctrl+p"), &current),
        CaptureDecision::Commit(vec!["Ctrl+p".to_string()]),
        "an already bound combo is not duplicated"
    );
    assert_eq!(capture_decision(true, false, None, &current), CaptureDecision::Cancel);
}

#[test]
fn capture_refuses_plain_keys_and_unnamed_keys() {
    let current = vec!["Ctrl+p".to_string()];
    match capture_decision(false, false, Some("p"), &current) {
        CaptureDecision::Reject(m) => assert!(m.starts_with("'p' has no Ctrl or Alt")),
        other => panic!("expected a refusal, got {other:?}"),
    }
    match capture_decision(false, true, None, &current) {
        CaptureDecision::Reject(m) => assert!(m.starts_with("That key can't be captured")),
        other => panic!("expected a refusal, got {other:?}"),
    }
}

#[test]
fn removing_the_last_combo_is_refused() {
    match remove_combo_decision("OpenCommandPalette", &vec!["Ctrl+p".to_string()], "Ctrl+p") {
        RemoveDecision::Refuse(m) => {
            assert!(m.contains("Refusing to remove the last combo"));
            assert!(m.contains("OpenCommandPalette"));
        }
        other => panic!("expected a refusal, got {other:?}"),
    }
}

#[test]
fn removing_a_bound_combo_keeps_the_others() {
    let current = vec!["Ctrl+p".to_string(), "Alt+p".to_string()];
    assert_eq!(
        remove_combo_decision("OpenCommandPalette", &current, "Alt+p"),
        RemoveDecision::Commit(vec!["Ctrl+p".to_string()])
    );
    assert_eq!(remove_combo_decision("OpenCommandPalette", &current, "Ctrl+x"), RemoveDecision::Unbound);
}

#[test]
fn key_capture_overlay_names_the_action() {
    let o = build_key_capture_overlay("OpenCommandPalette");
    assert_eq!(o.key_capture.as_deref(), Some("OpenCommandPalette"));
    assert!(o.items.is_empty());
}
