use oxicode_tui::line_render::{transcript_line_marked, Ink, LineSpan};
use oxicode_tui::transcript::{plain_segment, Color, InlineMessageKind, InlineSegment, InlineTextStyle, TranscriptLine};

fn tl(kind: InlineMessageKind, text: &str, block_id: usize) -> TranscriptLine {
    TranscriptLine { kind, segments: vec![plain_segment(text)], block_id }
}

fn spans_to_string(spans: &[LineSpan]) -> String {
    spans.iter().map(|s| s.text.as_str()).collect()
}

#[test]
fn plain_segments_render_in_their_kind_color_not_response() {
    let user = transcript_line_marked(&tl(InlineMessageKind::User, "body", 0), false, false, false, true, 80);
    assert_eq!(user[0].look.ink, Ink::Kind(InlineMessageKind::User), "user text must read in the user color");
    let agent = transcript_line_marked(&tl(InlineMessageKind::Agent, "body", 0), false, false, false, true, 80);
    assert_eq!(agent[0].look.ink, Ink::Kind(InlineMessageKind::Agent));
}

#[test]
fn user_lines_are_bold_primary_without_prefix() {
    let rendered = transcript_line_marked(&tl(InlineMessageKind::User, "refactor the parser", 0), false, false, false, true, 80);
    assert_eq!(rendered.len(), 1, "plain style renders no prefix span");
    assert_eq!(spans_to_string(&rendered), "refactor the parser", "user text renders as typed, no glyph");
    assert!(rendered[0].look.bold, "user body is the only bold transcript text");
}

#[test]
fn agent_tool_and_shell_lines_have_no_prefix() {
    for (kind, label) in [(InlineMessageKind::Agent, "agent"), (InlineMessageKind::Tool, "tool"), (InlineMessageKind::Pty, "shell")] {
        let rendered = transcript_line_marked(&tl(kind, &format!("{label}-content"), 0), false, false, false, true, 80);
        assert_eq!(rendered.len(), 1, "{label} lines carry no marker spans");
        assert_eq!(spans_to_string(&rendered), format!("{label}-content"));
        assert!(!rendered[0].look.bold);
    }
}

#[test]
fn system_labels_render_on_block_start_only() {
    let line = tl(InlineMessageKind::Error, "boom", 0);
    let head = transcript_line_marked(&line, false, false, false, true, 80);
    assert_eq!(spans_to_string(&head), "error: boom");
    let body = transcript_line_marked(&line, false, false, false, false, 80);
    assert_eq!(spans_to_string(&body), "boom", "continuation lines drop the label");
}

#[test]
fn folded_head_keeps_the_block_label() {
    let line = tl(InlineMessageKind::Error, "boom", 0);
    let rendered = transcript_line_marked(&line, true, false, false, false, 80);
    assert_eq!(spans_to_string(&rendered), "[+] error: boom", "a collapsed block stays identifiable");
    let agent = transcript_line_marked(&tl(InlineMessageKind::Agent, "done", 0), true, false, false, false, 80);
    assert_eq!(spans_to_string(&agent), "[+] done");
}

#[test]
fn transcript_line_marked_clamps_to_width() {
    let big: String = "x".repeat(300);
    let rendered = transcript_line_marked(&tl(InlineMessageKind::Agent, &big, 0), false, false, false, true, 40);
    assert!(spans_to_string(&rendered).chars().count() <= 40, "transcript row overflowed the terminal width");
    assert_eq!(spans_to_string(&rendered), "x".repeat(40));
    // The prefix takes its cells first.
    let warn = transcript_line_marked(&tl(InlineMessageKind::Warning, &big, 0), false, false, false, true, 20);
    assert_eq!(spans_to_string(&warn), format!("warning: {}", "x".repeat(11)));
}

#[test]
fn rows_cut_across_segments_and_keep_segment_styles() {
    let red = InlineTextStyle { color: Some(Color::Ansi(1)), bold: false, italic: true, dimmed: false, strikethrough: false };
    let line = TranscriptLine {
        kind: InlineMessageKind::Tool,
        segments: vec![plain_segment("abc"), InlineSegment { text: "defgh".into(), style: red }, plain_segment("ijk")],
        block_id: 3,
    };
    let spans = transcript_line_marked(&line, false, false, false, true, 6);
    assert_eq!(spans.len(), 2);
    assert_eq!(spans[0].text, "abc");
    assert_eq!(spans[1].text, "def");
    assert_eq!(spans[1].look.ink, Ink::Fixed(Color::Ansi(1)));
    assert!(spans[1].look.italic);
    // Wide characters never straddle the edge.
    let wide = transcript_line_marked(&tl(InlineMessageKind::Agent, "한국어", 0), false, false, false, true, 5);
    assert_eq!(spans_to_string(&wide), "한국");
}

#[test]
fn search_hits_are_underlined_and_the_current_one_reversed() {
    let line = tl(InlineMessageKind::Agent, "needle", 0);
    let hit = transcript_line_marked(&line, false, true, false, true, 80);
    assert!(hit[0].look.underlined && !hit[0].look.reversed);
    let current = transcript_line_marked(&line, false, true, true, true, 80);
    assert!(current[0].look.reversed && !current[0].look.underlined);
    let none = transcript_line_marked(&line, false, false, false, true, 80);
    assert!(!none[0].look.reversed && !none[0].look.underlined);
}
