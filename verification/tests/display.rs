use oxicode_tui::display::{
    block_natural_heights, display_items, sticky_head, view_start, DisplayContent, DisplayItem, VisibleItem,
};
use oxicode_tui::render_state::{BlockDisplayMode, RenderState};
use oxicode_tui::transcript::{plain_segment, InlineMessageKind, TranscriptLine};

fn tl(kind: InlineMessageKind, text: &str, block_id: usize) -> TranscriptLine {
    TranscriptLine { kind, segments: vec![plain_segment(text)], block_id }
}

/// Every line of the transcript, unfolded.
fn all_lines(t: &[TranscriptLine]) -> Vec<VisibleItem> {
    (0..t.len()).map(|i| VisibleItem::Line { source_index: i, folded: false }).collect()
}

fn line(source_index: usize, block_start: bool) -> DisplayItem {
    DisplayItem { source_index, content: DisplayContent::Line { folded: false, block_start } }
}

fn spacer(source_index: usize) -> DisplayItem {
    DisplayItem { source_index, content: DisplayContent::Spacer }
}

#[test]
fn user_turns_get_one_blank_spacer_row() {
    let t = vec![tl(InlineMessageKind::Agent, "agent-answer", 0), tl(InlineMessageKind::User, "next-question", 1)];
    assert_eq!(display_items(&all_lines(&t), &t, 0), vec![line(0, true), spacer(1), line(1, true)]);
}

#[test]
fn no_spacer_above_the_first_transcript_line() {
    let t = vec![tl(InlineMessageKind::User, "opening-question", 0)];
    assert_eq!(display_items(&all_lines(&t), &t, 0), vec![line(0, true)]);
}

#[test]
fn response_breathes_after_the_user_request() {
    let t = vec![tl(InlineMessageKind::User, "the request", 0), tl(InlineMessageKind::Agent, "the answer", 1)];
    let d = display_items(&all_lines(&t), &t, 0);
    assert_eq!(d, vec![line(0, true), spacer(1), line(1, true)]);
}

#[test]
fn assistant_tool_flow_stays_contiguous() {
    let t = vec![
        tl(InlineMessageKind::Tool, "[tool] read", 0),
        tl(InlineMessageKind::Tool, "[done] ok", 0),
        tl(InlineMessageKind::Agent, "the answer", 1),
    ];
    let d = display_items(&all_lines(&t), &t, 0);
    assert_eq!(d, vec![line(0, true), line(1, false), line(2, true)]);
}

#[test]
fn committed_entries_floor_the_live_render() {
    let t: Vec<TranscriptLine> = (0..6)
        .flat_map(|b| [tl(InlineMessageKind::Agent, &format!("b{b}-line-one"), b), tl(InlineMessageKind::Agent, &format!("b{b}-line-two"), b)])
        .collect();
    let d = display_items(&all_lines(&t), &t, 8);
    assert_eq!(d.len(), 4);
    assert!(d.iter().all(|x| x.source_index >= 8), "committed blocks leave the viewport");
    assert_eq!(d[0], line(8, true));
}

#[test]
fn gaps_are_shown_and_folded_lines_keep_their_flag() {
    let t = vec![tl(InlineMessageKind::Agent, "a", 0), tl(InlineMessageKind::Agent, "b", 0), tl(InlineMessageKind::Agent, "c", 0)];
    let items = vec![
        VisibleItem::Line { source_index: 0, folded: true },
        VisibleItem::Gap { source_index: 1, hidden_lines: 2 },
    ];
    assert_eq!(
        display_items(&items, &t, 0),
        vec![
            DisplayItem { source_index: 0, content: DisplayContent::Line { folded: true, block_start: true } },
            DisplayItem { source_index: 1, content: DisplayContent::Gap { hidden_lines: 2 } },
        ]
    );
}

#[test]
fn natural_heights_count_items_per_block_in_order() {
    let t = vec![
        tl(InlineMessageKind::Agent, "old-0", 0),
        tl(InlineMessageKind::Agent, "old-1", 0),
        tl(InlineMessageKind::Agent, "mid-0", 1),
        tl(InlineMessageKind::Agent, "new-0", 2),
        tl(InlineMessageKind::Agent, "new-1", 2),
        tl(InlineMessageKind::Agent, "new-2", 2),
    ];
    let (ids, hs) = block_natural_heights(&t, &all_lines(&t), 0);
    assert_eq!(ids, vec![0, 1, 2]);
    assert_eq!(hs, vec![2, 1, 3]);
    let (ids, hs) = block_natural_heights(&t, &all_lines(&t), 3);
    assert_eq!((ids, hs), (vec![2], vec![3]), "frozen rows do not count");
}

#[test]
fn ladder_keeps_hand_collapsed_blocks_at_their_natural_height() {
    let mut s = RenderState::new();
    s.transcript = vec![tl(InlineMessageKind::Agent, "a", 0), tl(InlineMessageKind::Agent, "b", 1)];
    s.next_block_id = 2;
    s.block_display.insert(0, BlockDisplayMode::Collapsed);
    let (rows, hidden) = s.block_allocations(&vec![0, 1], &vec![1, 4], &vec![0, 0]);
    assert_eq!(rows, vec![1, 0]);
    assert_eq!(hidden, 1);
}

#[test]
fn view_start_follows_the_tail_or_the_pinned_line() {
    let sources: Vec<usize> = (0..40).collect();
    assert_eq!(view_start(&sources, usize::MAX, 20), 20);
    assert_eq!(view_start(&sources, 10, 20), 10);
    assert_eq!(view_start(&sources, 35, 20), 20, "clamped so the view stays full");
    assert_eq!(view_start(&sources, 99, 20), 20);
    assert_eq!(view_start(&[], 3, 20), 0);
}

#[test]
fn sticky_header_pins_block_head_when_scrolled_into_body() {
    let t: Vec<TranscriptLine> = (0..40).map(|i| tl(InlineMessageKind::Agent, &format!("body-line-{i:02}"), 0)).collect();
    let sources: Vec<usize> = (0..40).collect();
    let start = view_start(&sources, 10, 20);
    assert_eq!(sticky_head(&t, &sources, start), Some(0));
}

#[test]
fn sticky_header_absent_when_viewport_at_block_head() {
    let t: Vec<TranscriptLine> = (0..40).map(|i| tl(InlineMessageKind::Agent, &format!("head-line-{i:02}"), 0)).collect();
    let sources: Vec<usize> = (0..40).collect();
    let start = view_start(&sources, 0, 20);
    assert_eq!(start, 0);
    assert_eq!(sticky_head(&t, &sources, start), None);
}
