//! How one transcript line reads on screen: speaker identity by color and
//! weight, severity labels on a block's first line, the fold marker, search
//! highlighting, and the row cut to the terminal width.
use vstd::prelude::*;

use crate::fold::fit_count;
use crate::text::{chars_of, push_str, string_of};
use crate::tool_box::{cells_or_zero, char_width_or_zero};
use crate::transcript::{segs_view, Color, InlineMessageKind, InlineSegment, SegmentView, TranscriptLine};

verus! {

/// Where a span's color comes from.
#[derive(Debug, Clone, Copy, PartialEq, Eq, Structural)]
pub enum Ink {
    /// The theme color of a message kind (response ink for agent text,
    /// the user color, the tool color, ...).
    Kind(InlineMessageKind),
    /// A color the segment carries itself.
    Fixed(Color),
}

/// Color and attributes of a transcript span.
#[derive(Debug, Clone, Copy, PartialEq, Eq, Structural)]
pub struct LineLook {
    pub ink: Ink,
    pub bold: bool,
    pub italic: bool,
    pub dim: bool,
    pub underlined: bool,
    pub reversed: bool,
}

/// A piece of a rendered transcript line.
#[derive(Debug, Clone)]
pub struct LineSpan {
    pub text: String,
    pub look: LineLook,
}

impl View for LineSpan {
    type V = (Seq<char>, LineLook);

    open spec fn view(&self) -> (Seq<char>, LineLook) {
        (self.text@, self.look)
    }
}

pub open spec fn line_spans_view(v: Seq<LineSpan>) -> Seq<(Seq<char>, LineLook)> {
    v.map_values(|s: LineSpan| s@)
}

/// The cells `cs` take, control characters counting none.
pub open spec fn cells_sum(cs: Seq<char>) -> int
    decreases cs.len(),
{
    if cs.len() == 0 { 0 } else { cells_sum(cs.drop_last()) + cells_or_zero(cs.last()) }
}

/// The segments cut to `cap` cells: characters are kept in order while
/// they fit; the first one that does not ends the row (its segment keeps
/// what fit, later segments are dropped).
pub open spec fn clip_segs(segs: Seq<SegmentView>, cap: int) -> Seq<SegmentView>
    decreases segs.len(),
{
    if segs.len() == 0 {
        Seq::empty()
    } else {
        let t = segs[0].text;
        let n = fit_count(t, cap);
        if n < t.len() {
            seq![SegmentView { text: t.take(n), style: segs[0].style }]
        } else {
            seq![segs[0]] + clip_segs(segs.drop_first(), cap - cells_sum(t))
        }
    }
}

/// The severity label of a kind, shown on a block's first line.
pub open spec fn severity_label(kind: InlineMessageKind) -> Option<Seq<char>> {
    match kind {
        InlineMessageKind::Error => Some("error: "@),
        InlineMessageKind::Warning => Some("warning: "@),
        InlineMessageKind::Info => Some("info: "@),
        InlineMessageKind::Policy => Some("policy: "@),
        _ => None,
    }
}

/// The prefix of a line: `[+] ` on a folded head, then the severity label
/// on a folded head or a block's first line.
pub open spec fn line_prefix(kind: InlineMessageKind, folded: bool, block_start: bool) -> Seq<char> {
    (if folded { "[+] "@ } else { Seq::empty() }) + match severity_label(kind) {
        Some(l) => if folded || block_start { l } else { Seq::empty() },
        None => Seq::empty(),
    }
}

/// The kind's own ink, without attributes.
pub open spec fn kind_look(kind: InlineMessageKind) -> LineLook {
    LineLook { ink: Ink::Kind(kind), bold: false, italic: false, dim: false, underlined: false, reversed: false }
}

/// A segment's look: its own color or the kind's; its bold (always bold
/// for user input), italic and dim; underlined for a search match,
/// reversed for the current match.
pub open spec fn segment_look(s: SegmentView, kind: InlineMessageKind, is_match: bool, is_current: bool) -> LineLook {
    LineLook {
        ink: match s.style.color { Some(c) => Ink::Fixed(c), None => Ink::Kind(kind) },
        bold: s.style.bold || kind == InlineMessageKind::User,
        italic: s.style.italic,
        dim: s.style.dimmed,
        underlined: is_match && !is_current,
        reversed: is_current,
    }
}

/// The spans of a transcript line on a row `width` cells wide: the prefix
/// (if any) in the kind's ink, then the segments cut to the cells the
/// prefix leaves.
pub open spec fn marked_spans(kind: InlineMessageKind, segs: Seq<SegmentView>, folded: bool, is_match: bool, is_current: bool, block_start: bool, width: u16) -> Seq<(Seq<char>, LineLook)> {
    let p = line_prefix(kind, folded, block_start);
    let cap = if width as int > p.len() { width as int - p.len() } else { 0 };
    let head = if p.len() > 0 { seq![(p, kind_look(kind))] } else { Seq::empty() };
    head + clip_segs(segs, cap).map_values(|s: SegmentView| (s.text, segment_look(s, kind, is_match, is_current)))
}

/// How many leading characters of `cs` fit in `cap` cells, and the cells
/// they take.
fn fit_prefix(cs: &Vec<char>, cap: usize) -> (r: (usize, usize))
    ensures
        r.0 as int == fit_count(cs@, cap as int),
        r.1 as int == cells_sum(cs@.take(r.0 as int)),
        r.1 <= cap,
        r.0 <= cs@.len(),
{
    let mut used: usize = 0;
    let mut i: usize = 0;
    let mut going = true;
    assert(cs@.skip(0) =~= cs@);
    assert(cs@.take(0) =~= Seq::<char>::empty());
    while going && i < cs.len()
        invariant
            i <= cs@.len(),
            used <= cap,
            used as int == cells_sum(cs@.take(i as int)),
            going ==> fit_count(cs@, cap as int) == i + fit_count(cs@.skip(i as int), cap - used),
            !going ==> fit_count(cs@, cap as int) == i,
        decreases cs@.len() - i + (if going { 1int } else { 0int }),
    {
        let w = char_width_or_zero(cs[i]);
        assert(cs@.skip(i as int)[0] == cs@[i as int]);
        assert(cs@.skip(i as int).drop_first() =~= cs@.skip(i + 1));
        if w > cap - used {
            going = false;
        } else {
            assert(cs@.take(i + 1).drop_last() =~= cs@.take(i as int));
            used = used + w;
            i += 1;
        }
    }
    if going {
        assert(cs@.skip(i as int).len() == 0);
    }
    (i, used)
}

proof fn lemma_fit_all_uses_all(cs: Seq<char>, cap: int)
    requires
        fit_count(cs, cap) >= cs.len(),
    ensures
        cs.take(cs.len() as int) =~= cs,
{
}

/// The spans of `line` on a row `width` cells wide (see `marked_spans`):
/// `folded` marks a collapsed block's head, `is_block_start` the block's
/// first line, `is_match` / `is_current` a search hit.
pub fn transcript_line_marked(line: &TranscriptLine, folded: bool, is_match: bool, is_current: bool, is_block_start: bool, width: u16) -> (spans: Vec<LineSpan>)
    ensures
        line_spans_view(spans@) == marked_spans(line.kind, segs_view(line.segments@), folded, is_match, is_current, is_block_start, width),
{
    let kind = line.kind;
    let mut prefix = String::new();
    if folded {
        push_str(&mut prefix, "[+] ");
    }
    let label: Option<&str> = match kind {
        InlineMessageKind::Error => Some("error: "),
        InlineMessageKind::Warning => Some("warning: "),
        InlineMessageKind::Info => Some("info: "),
        InlineMessageKind::Policy => Some("policy: "),
        _ => None,
    };
    match label {
        Some(l) => {
            if folded || is_block_start {
                push_str(&mut prefix, l);
            }
        },
        None => {},
    }
    proof {
        reveal_strlit("[+] ");
        reveal_strlit("error: ");
        reveal_strlit("warning: ");
        reveal_strlit("info: ");
        reveal_strlit("policy: ");
        assert(prefix@ =~= line_prefix(kind, folded, is_block_start));
    }
    let plen = chars_of(prefix.as_str()).len();
    let cap: usize = if (width as usize) > plen { width as usize - plen } else { 0 };
    let ghost segs = segs_view(line.segments@);
    let ghost want = marked_spans(kind, segs, folded, is_match, is_current, is_block_start, width);
    let mut spans: Vec<LineSpan> = Vec::new();
    if plen > 0 {
        spans.push(LineSpan {
            text: prefix,
            look: LineLook { ink: Ink::Kind(kind), bold: false, italic: false, dim: false, underlined: false, reversed: false },
        });
    }
    let ghost head = line_spans_view(spans@);
    let ghost f = |s: SegmentView| (s.text, segment_look(s, kind, is_match, is_current));
    let mut rem = cap;
    let mut i: usize = 0;
    let mut stopped = false;
    assert(segs.skip(0) =~= segs);
    while !stopped && i < line.segments.len()
        invariant
            i <= line.segments@.len(),
            segs == segs_view(line.segments@),
            f == (|s: SegmentView| (s.text, segment_look(s, kind, is_match, is_current))),
            !stopped ==> clip_segs(segs, cap as int) == segs.take(i as int) + clip_segs(segs.skip(i as int), rem as int)
                && line_spans_view(spans@) == head + segs.take(i as int).map_values(f),
            stopped ==> line_spans_view(spans@) == head + clip_segs(segs, cap as int).map_values(f),
        decreases line.segments@.len() - i + (if stopped { 0int } else { 1int }),
    {
        let seg = &line.segments[i];
        let cs = chars_of(seg.text.as_str());
        let (n, used) = fit_prefix(&cs, rem);
        let look = LineLook {
            ink: match seg.style.color { Some(c) => Ink::Fixed(c), None => Ink::Kind(kind) },
            bold: seg.style.bold || kind == InlineMessageKind::User,
            italic: seg.style.italic,
            dim: seg.style.dimmed,
            underlined: is_match && !is_current,
            reversed: is_current,
        };
        let ghost before = spans@;
        assert(segs.skip(i as int)[0] == segs[i as int]);
        assert(segs.skip(i as int).drop_first() =~= segs.skip(i + 1));
        if n < cs.len() {
            let text = string_of(&cs.as_slice()[0..n]);
            spans.push(LineSpan { text, look });
            proof {
                assert(clip_segs(segs.skip(i as int), rem as int) == seq![SegmentView { text: segs[i as int].text.take(n as int), style: segs[i as int].style }]);
                assert(line_spans_view(spans@) =~= line_spans_view(before).push((segs[i as int].text.take(n as int), look)));
                assert(clip_segs(segs, cap as int) =~= segs.take(i as int).push(SegmentView { text: segs[i as int].text.take(n as int), style: segs[i as int].style }));
                assert(clip_segs(segs, cap as int).map_values(f) =~= segs.take(i as int).map_values(f).push((segs[i as int].text.take(n as int), look)));
            }
            stopped = true;
        } else {
            spans.push(LineSpan { text: seg.text.clone(), look });
            proof {
                lemma_fit_all_uses_all(cs@, rem as int);
                assert(segs.take(i + 1) =~= segs.take(i as int).push(segs[i as int]));
                assert(line_spans_view(spans@) =~= line_spans_view(before).push((segs[i as int].text, look)));
                assert(segs.take(i + 1).map_values(f) =~= segs.take(i as int).map_values(f).push(f(segs[i as int])));
                assert(clip_segs(segs.skip(i as int), rem as int) =~= seq![segs[i as int]] + clip_segs(segs.skip(i + 1), rem - used));
            }
            rem = rem - used;
            i += 1;
        }
    }
    if !stopped {
        assert(segs.take(i as int) =~= segs);
        assert(segs.skip(i as int) =~= Seq::<SegmentView>::empty());
        assert(clip_segs(segs, cap as int) =~= segs);
    }
    assert(line_spans_view(spans@) =~= want);
    spans
}

} // verus!
