//! Transcript model: message kinds, styled segments, transcript lines, and
//! the splitting of styled segments at explicit newlines.
use vstd::prelude::*;

use crate::text::{chars_of, string_of};

verus! {

/// The semantic kind of a transcript message.
#[derive(Debug, Clone, Copy, PartialEq, Eq, Structural)]
pub enum InlineMessageKind {
    Agent,
    Error,
    Info,
    Policy,
    Pty,
    Tool,
    User,
    Warning,
}

/// A terminal color.
#[derive(Debug, Clone, Copy, PartialEq, Eq, Structural)]
pub enum Color {
    /// One of the 16 ANSI colors, by index.
    Ansi(u8),
    /// An entry of the 256-color palette.
    Indexed(u8),
    Rgb(u8, u8, u8),
}

/// Text attributes of a segment.
#[derive(Debug, Clone, Copy, PartialEq, Eq, Structural)]
pub struct InlineTextStyle {
    pub color: Option<Color>,
    pub bold: bool,
    pub italic: bool,
    pub dimmed: bool,
    pub strikethrough: bool,
}

impl InlineTextStyle {
    /// The plain style: no color, no attributes.
    pub fn plain() -> (s: Self)
        ensures
            s == Self::plain_spec(),
    {
        InlineTextStyle { color: None, bold: false, italic: false, dimmed: false, strikethrough: false }
    }

    pub open spec fn plain_spec() -> Self {
        InlineTextStyle { color: None, bold: false, italic: false, dimmed: false, strikethrough: false }
    }
}

/// A run of text in one style.
#[derive(Debug)]
pub struct InlineSegment {
    pub text: String,
    pub style: InlineTextStyle,
}

/// The mathematical value of a segment.
pub struct SegmentView {
    pub text: Seq<char>,
    pub style: InlineTextStyle,
}

impl View for InlineSegment {
    type V = SegmentView;

    open spec fn view(&self) -> SegmentView {
        SegmentView { text: self.text@, style: self.style }
    }
}

/// The views of a sequence of segments.
pub open spec fn segs_view(segs: Seq<InlineSegment>) -> Seq<SegmentView> {
    segs.map_values(|s: InlineSegment| s@)
}

/// One visual transcript line: its kind, its segments, and the block (a run
/// of lines folded and navigated together) it belongs to.
#[derive(Debug)]
pub struct TranscriptLine {
    pub kind: InlineMessageKind,
    pub segments: Vec<InlineSegment>,
    pub block_id: usize,
}

/// The mathematical value of a transcript line.
pub struct LineView {
    pub kind: InlineMessageKind,
    pub segments: Seq<SegmentView>,
    pub block_id: usize,
}

impl View for TranscriptLine {
    type V = LineView;

    open spec fn view(&self) -> LineView {
        LineView { kind: self.kind, segments: segs_view(self.segments@), block_id: self.block_id }
    }
}

impl Clone for InlineSegment {
    fn clone(&self) -> (c: Self)
        ensures
            c@ == self@,
    {
        InlineSegment { text: self.text.clone(), style: self.style }
    }
}

/// A copy of a segment vector.
pub fn clone_segments(segs: &Vec<InlineSegment>) -> (c: Vec<InlineSegment>)
    ensures
        segs_view(c@) == segs_view(segs@),
{
    let mut c: Vec<InlineSegment> = Vec::new();
    let mut i: usize = 0;
    while i < segs.len()
        invariant
            i <= segs.len(),
            segs_view(c@) == segs_view(segs@).take(i as int),
        decreases segs.len() - i,
    {
        let x = segs[i].clone();
        let ghost before = c@;
        c.push(x);
        assert(c@ == before.push(x));
        assert(x@ == segs@[i as int]@);
        assert(segs_view(c@) =~= segs_view(before).push(x@));
        assert(segs_view(segs@).take(i + 1) =~= segs_view(segs@).take(i as int).push(x@));
        i += 1;
    }
    assert(segs_view(segs@).take(segs.len() as int) =~= segs_view(segs@));
    c
}

impl Clone for TranscriptLine {
    fn clone(&self) -> (c: Self)
        ensures
            c@ == self@,
    {
        TranscriptLine { kind: self.kind, segments: clone_segments(&self.segments), block_id: self.block_id }
    }
}

/// The views of a sequence of transcript lines.
pub open spec fn lines_view(lines: Seq<TranscriptLine>) -> Seq<LineView> {
    lines.map_values(|l: TranscriptLine| l@)
}

/// A plain-styled segment holding `text`.
pub fn plain_segment(text: &str) -> (s: InlineSegment)
    ensures
        s@ == (SegmentView { text: text@, style: InlineTextStyle::plain_spec() }),
{
    InlineSegment { text: String::from_str(text), style: InlineTextStyle::plain() }
}

/// `t` split at every `'\n'` (as `str::split('\n')`): one part more than
/// there are newlines; parts may be empty.
pub open spec fn split_lines(t: Seq<char>) -> Seq<Seq<char>>
    decreases t.len(),
{
    if t.len() == 0 {
        seq![Seq::empty()]
    } else {
        let prev = split_lines(t.drop_last());
        if t.last() == '\n' {
            prev.push(Seq::empty())
        } else {
            prev.update(prev.len() - 1, prev.last().push(t.last()))
        }
    }
}

pub proof fn lemma_split_lines_nonempty(t: Seq<char>)
    ensures
        split_lines(t).len() >= 1,
    decreases t.len(),
{
    if t.len() > 0 {
        lemma_split_lines_nonempty(t.drop_last());
    }
}

/// Split `t` at every newline (`str::split('\n')`).
pub fn split_at_newlines(t: &str) -> (parts: Vec<Vec<char>>)
    ensures
        parts@.map_values(|p: Vec<char>| p@) == split_lines(t@),
{
    let cs = chars_of(t);
    let mut parts: Vec<Vec<char>> = Vec::new();
    parts.push(Vec::new());
    let mut i: usize = 0;
    assert(cs@.take(0) == Seq::<char>::empty());
    assert(parts@.map_values(|p: Vec<char>| p@) == split_lines(Seq::<char>::empty()));
    while i < cs.len()
        invariant
            i <= cs.len(),
            cs@ == t@,
            parts.len() >= 1,
            parts@.map_values(|p: Vec<char>| p@) == split_lines(cs@.take(i as int)),
        decreases cs.len() - i,
    {
        let c = cs[i];
        let ghost before = parts@.map_values(|p: Vec<char>| p@);
        assert(cs@.take(i + 1).drop_last() == cs@.take(i as int));
        if c == '\n' {
            parts.push(Vec::new());
            assert(parts@.map_values(|p: Vec<char>| p@) == before.push(Seq::empty()));
        } else {
            let last = parts.len() - 1;
            let mut cur = parts.pop().unwrap();
            cur.push(c);
            parts.push(cur);
            assert(parts@.map_values(|p: Vec<char>| p@) == before.update(last as int, before.last().push(c)));
        }
        i += 1;
    }
    assert(cs@.take(cs.len() as int) == cs@);
    parts
}

/// Add the part `part` (in `style`) to the last line of `lines`: empty parts
/// add nothing.
pub open spec fn add_part(lines: Seq<Seq<SegmentView>>, part: Seq<char>, style: InlineTextStyle) -> Seq<Seq<SegmentView>> {
    if part.len() == 0 {
        lines
    } else {
        lines.update(lines.len() - 1, lines.last().push(SegmentView { text: part, style }))
    }
}

/// Place the newline-separated `parts` of one segment onto `lines`: every
/// part but the first opens a new line.
pub open spec fn place_parts(lines: Seq<Seq<SegmentView>>, parts: Seq<Seq<char>>, style: InlineTextStyle) -> Seq<Seq<SegmentView>>
    decreases parts.len(),
{
    if parts.len() == 0 {
        lines
    } else {
        let before = place_parts(lines, parts.drop_last(), style);
        let opened = if parts.len() > 1 { before.push(Seq::empty()) } else { before };
        add_part(opened, parts.last(), style)
    }
}

/// The lines of styled segments `segs`, split at explicit newlines: empty
/// pieces are dropped, empty lines kept.
pub open spec fn split_segments(segs: Seq<SegmentView>) -> Seq<Seq<SegmentView>>
    decreases segs.len(),
{
    if segs.len() == 0 {
        seq![Seq::empty()]
    } else {
        place_parts(split_segments(segs.drop_last()), split_lines(segs.last().text), segs.last().style)
    }
}

/// Whether some segment holds a newline.
pub open spec fn has_newline(segs: Seq<SegmentView>) -> bool {
    exists|i: int, j: int| 0 <= i < segs.len() && 0 <= j < segs[i].text.len() && segs[i].text[j] == '\n'
}

/// The explicit lines of `segs`: unchanged when no segment holds a newline.
pub open spec fn explicit_lines(segs: Seq<SegmentView>) -> Seq<Seq<SegmentView>> {
    if has_newline(segs) {
        split_segments(segs)
    } else {
        seq![segs]
    }
}

pub proof fn lemma_place_parts_nonempty(lines: Seq<Seq<SegmentView>>, parts: Seq<Seq<char>>, style: InlineTextStyle)
    requires
        lines.len() >= 1,
    ensures
        place_parts(lines, parts, style).len() >= 1,
    decreases parts.len(),
{
    if parts.len() > 0 {
        lemma_place_parts_nonempty(lines, parts.drop_last(), style);
    }
}

pub proof fn lemma_split_segments_nonempty(segs: Seq<SegmentView>)
    ensures
        split_segments(segs).len() >= 1,
    decreases segs.len(),
{
    if segs.len() > 0 {
        lemma_split_segments_nonempty(segs.drop_last());
        lemma_place_parts_nonempty(split_segments(segs.drop_last()), split_lines(segs.last().text), segs.last().style);
    }
}

/// The views of a vector of segment vectors.
pub open spec fn rows_view(rows: Seq<Vec<InlineSegment>>) -> Seq<Seq<SegmentView>> {
    rows.map_values(|r: Vec<InlineSegment>| segs_view(r@))
}

fn text_has_newline(t: &str) -> (r: bool)
    ensures
        r == exists|j: int| 0 <= j < t@.len() && t@[j] == '\n',
{
    let cs = chars_of(t);
    let mut j: usize = 0;
    while j < cs.len()
        invariant
            j <= cs.len(),
            cs@ == t@,
            forall|k: int| 0 <= k < j ==> cs@[k] != '\n',
        decreases cs.len() - j,
    {
        if cs[j] == '\n' {
            return true;
        }
        j += 1;
    }
    false
}

/// Split styled segments at explicit newlines. The common single-line path
/// returns the segments unchanged; otherwise empty pieces are dropped while
/// empty lines are kept, because blank lines carry layout.
pub fn segments_by_explicit_line(segments: Vec<InlineSegment>) -> (rows: Vec<Vec<InlineSegment>>)
    ensures
        rows_view(rows@) == explicit_lines(segs_view(segments@)),
        rows@.len() >= 1,
{
    let ghost sv = segs_view(segments@);
    let mut any = false;
    let mut i: usize = 0;
    while i < segments.len()
        invariant
            i <= segments.len(),
            sv == segs_view(segments@),
            any == exists|a: int, j: int| 0 <= a < i && 0 <= j < sv[a].text.len() && sv[a].text[j] == '\n',
        decreases segments.len() - i,
    {
        let h = text_has_newline(segments[i].text.as_str());
        proof {
            if h {
                let j = choose|j: int| 0 <= j < sv[i as int].text.len() && sv[i as int].text[j] == '\n';
                assert(0 <= i < i + 1 && 0 <= j < sv[i as int].text.len() && sv[i as int].text[j] == '\n');
            }
        }
        any = any || h;
        i += 1;
    }
    if !any {
        let mut rows: Vec<Vec<InlineSegment>> = Vec::new();
        rows.push(segments);
        assert(rows_view(rows@) == seq![sv]);
        return rows;
    }
    let mut lines: Vec<Vec<InlineSegment>> = Vec::new();
    lines.push(Vec::new());
    let mut k: usize = 0;
    assert(segs_view(lines@[0]@) =~= Seq::<SegmentView>::empty());
    assert(rows_view(lines@) =~= split_segments(sv.take(0)));
    while k < segments.len()
        invariant
            k <= segments.len(),
            sv == segs_view(segments@),
            lines.len() >= 1,
            rows_view(lines@) == split_segments(sv.take(k as int)),
        decreases segments.len() - k,
    {
        let seg = &segments[k];
        let parts = split_at_newlines(seg.text.as_str());
        let ghost pv = parts@.map_values(|p: Vec<char>| p@);
        let ghost base = rows_view(lines@);
        let mut p: usize = 0;
        proof {
            assert(sv.take(k + 1).drop_last() == sv.take(k as int));
            assert(sv.take(k + 1).last() == sv[k as int]);
            assert(pv.take(0) == Seq::<Seq<char>>::empty());
        }
        while p < parts.len()
            invariant
                p <= parts.len(),
                pv == parts@.map_values(|q: Vec<char>| q@),
                lines.len() >= 1,
                rows_view(lines@) == place_parts(base, pv.take(p as int), seg.style),
                base.len() >= 1,
            decreases parts.len() - p,
        {
            let ghost prev = rows_view(lines@);
            proof {
                assert(pv.take(p + 1).drop_last() == pv.take(p as int));
                assert(pv.take(p + 1).last() == pv[p as int]);
            }
            if p > 0 {
                lines.push(Vec::new());
                assert(segs_view(lines@[lines.len() - 1]@) =~= Seq::<SegmentView>::empty());
                assert(rows_view(lines@) =~= prev.push(Seq::empty()));
            }
            let ghost opened = rows_view(lines@);
            if parts[p].len() > 0 {
                let piece = InlineSegment { text: string_of(parts[p].as_slice()), style: seg.style };
                let last = lines.len() - 1;
                let mut cur = lines.pop().unwrap();
                cur.push(piece);
                lines.push(cur);
                proof {
                    assert(segs_view(cur@) == opened.last().push(piece@));
                    assert(rows_view(lines@) == opened.update(last as int, opened.last().push(piece@)));
                }
            }
            p += 1;
        }
        proof {
            assert(pv.take(pv.len() as int) == pv);
        }
        k += 1;
    }
    assert(sv.take(segments.len() as int) == sv);
    lines
}

/// Lower-case kind label, the last-resort activity descriptor of a block.
pub open spec fn kind_label_spec(kind: InlineMessageKind) -> Seq<char> {
    match kind {
        InlineMessageKind::Agent => "agent"@,
        InlineMessageKind::User => "user"@,
        InlineMessageKind::Tool => "tool"@,
        InlineMessageKind::Error => "error"@,
        InlineMessageKind::Warning => "warning"@,
        InlineMessageKind::Info => "info"@,
        InlineMessageKind::Policy => "policy"@,
        InlineMessageKind::Pty => "pty"@,
    }
}

/// Lower-case label of a message kind (e.g. "tool", "agent", "user").
pub fn kind_label(kind: InlineMessageKind) -> (s: String)
    ensures
        s@ == kind_label_spec(kind),
{
    match kind {
        InlineMessageKind::Agent => String::from_str("agent"),
        InlineMessageKind::User => String::from_str("user"),
        InlineMessageKind::Tool => String::from_str("tool"),
        InlineMessageKind::Error => String::from_str("error"),
        InlineMessageKind::Warning => String::from_str("warning"),
        InlineMessageKind::Info => String::from_str("info"),
        InlineMessageKind::Policy => String::from_str("policy"),
        InlineMessageKind::Pty => String::from_str("pty"),
    }
}

} // verus!
