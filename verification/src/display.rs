//! The live transcript's display list: which rows are drawn for the
//! visible items (turn spacers between a request and its response), how
//! many rows each block would take, how the row budget folds blocks, where
//! the view starts, and which block head is pinned above it.
use vstd::prelude::*;

use crate::loop_policy::{clamped_offset, effective_scroll_offset};
use crate::render_state::{BlockDisplayMode, RenderState};
use crate::transcript::{lines_view, InlineMessageKind, LineView, TranscriptLine};

verus! {

/// What the folding policy surfaces of the transcript: a line (possibly
/// folded to its head), or a gap standing for hidden lines.
#[derive(Debug, Clone, Copy, PartialEq, Eq, Structural)]
pub enum VisibleItem {
    Line { source_index: usize, folded: bool },
    Gap { source_index: usize, hidden_lines: usize },
}

/// What one display row shows.
#[derive(Debug, Clone, Copy, PartialEq, Eq, Structural)]
pub enum DisplayContent {
    /// A blank breathing row between turns.
    Spacer,
    /// The transcript line, folded to its head or not; `block_start` marks
    /// the first line of its block.
    Line { folded: bool, block_start: bool },
    /// `… +N lines`.
    Gap { hidden_lines: usize },
}

/// One display row and the transcript line it belongs to.
#[derive(Debug, Clone, Copy, PartialEq, Eq, Structural)]
pub struct DisplayItem {
    pub source_index: usize,
    pub content: DisplayContent,
}

/// The transcript line an item stands for.
pub open spec fn item_source(it: VisibleItem) -> usize {
    match it {
        VisibleItem::Line { source_index, .. } => source_index,
        VisibleItem::Gap { source_index, .. } => source_index,
    }
}

/// Every item stands for a line of the transcript.
pub open spec fn items_in(items: Seq<VisibleItem>, n: nat) -> bool {
    forall|k: int| 0 <= k < items.len() ==> item_source(#[trigger] items[k]) < n
}

/// The display rows of the first `n` items from entry `from` on, with the
/// block and kind of the last line shown. A line opening a block gets a
/// spacer above it when a line was shown before and either it or the
/// previous line is the user's: a request and its response never glue
/// together, while the assistant's own flow stays contiguous.
pub open spec fn display_from(items: Seq<VisibleItem>, lines: Seq<LineView>, from: usize, n: int) -> (Seq<DisplayItem>, Option<usize>, Option<InlineMessageKind>)
    decreases n,
{
    if n <= 0 {
        (Seq::empty(), None, None)
    } else {
        let (d, pb, pk) = display_from(items, lines, from, n - 1);
        match items[n - 1] {
            VisibleItem::Line { source_index, folded } => if source_index < from {
                (d, pb, pk)
            } else {
                let tl = lines[source_index as int];
                let start = pb != Some(tl.block_id);
                let spacer = start && pb is Some
                    && (tl.kind == InlineMessageKind::User || pk == Some(InlineMessageKind::User));
                let d1 = if spacer { d.push(DisplayItem { source_index, content: DisplayContent::Spacer }) } else { d };
                (d1.push(DisplayItem { source_index, content: DisplayContent::Line { folded, block_start: start } }),
                    Some(tl.block_id), Some(tl.kind))
            },
            VisibleItem::Gap { source_index, hidden_lines } => if source_index < from {
                (d, pb, pk)
            } else {
                (d.push(DisplayItem { source_index, content: DisplayContent::Gap { hidden_lines } }), pb, pk)
            },
        }
    }
}

/// The display rows of `items` from transcript entry `from_entry` on.
pub fn display_items(items: &[VisibleItem], transcript: &[TranscriptLine], from_entry: usize) -> (d: Vec<DisplayItem>)
    requires
        items_in(items@, transcript@.len()),
    ensures
        d@ == display_from(items@, lines_view(transcript@), from_entry, items@.len() as int).0,
{
    let ghost lines = lines_view(transcript@);
    let mut d: Vec<DisplayItem> = Vec::new();
    let mut prev_block: Option<usize> = None;
    let mut prev_kind: Option<InlineMessageKind> = None;
    let mut i: usize = 0;
    while i < items.len()
        invariant
            i <= items@.len(),
            lines == lines_view(transcript@),
            items_in(items@, transcript@.len()),
            (d@, prev_block, prev_kind) == display_from(items@, lines, from_entry, i as int),
        decreases items@.len() - i,
    {
        let it = items[i];
        assert(item_source(items@[i as int]) < transcript@.len());
        match it {
            VisibleItem::Line { source_index, folded } => {
                if source_index >= from_entry {
                    let tl = &transcript[source_index];
                    assert(lines[source_index as int] == tl@);
                    let start = match prev_block {
                        Some(b) => b != tl.block_id,
                        None => true,
                    };
                    let spacer = start && prev_block.is_some()
                        && (tl.kind == InlineMessageKind::User || prev_kind == Some(InlineMessageKind::User));
                    if spacer {
                        d.push(DisplayItem { source_index, content: DisplayContent::Spacer });
                    }
                    d.push(DisplayItem { source_index, content: DisplayContent::Line { folded, block_start: start } });
                    prev_block = Some(tl.block_id);
                    prev_kind = Some(tl.kind);
                }
            },
            VisibleItem::Gap { source_index, hidden_lines } => {
                if source_index >= from_entry {
                    d.push(DisplayItem { source_index, content: DisplayContent::Gap { hidden_lines } });
                }
            },
        }
        i += 1;
    }
    d
}

/// The first position at or after `k` where `ids` holds `b`.
pub open spec fn position_from(ids: Seq<usize>, b: usize, k: int) -> Option<int>
    decreases ids.len() - k,
{
    if k < 0 || k >= ids.len() {
        None
    } else if ids[k] == b {
        Some(k)
    } else {
        position_from(ids, b, k + 1)
    }
}

/// The first position of `b` in `ids`, if it is there.
pub open spec fn position_of(ids: Seq<usize>, b: usize) -> Option<int> {
    position_from(ids, b, 0)
}

/// The blocks of the first `n` live items (from entry `from` on), in order
/// of first appearance, and how many items each has.
pub open spec fn heights_from(items: Seq<VisibleItem>, lines: Seq<LineView>, from: usize, n: int) -> (Seq<usize>, Seq<int>)
    decreases n,
{
    if n <= 0 {
        (Seq::empty(), Seq::empty())
    } else {
        let (ids, hs) = heights_from(items, lines, from, n - 1);
        let src = item_source(items[n - 1]);
        if src < from {
            (ids, hs)
        } else {
            let b = lines[src as int].block_id;
            match position_of(ids, b) {
                Some(k) => (ids, hs.update(k, hs[k] + 1)),
                None => (ids.push(b), hs.push(1)),
            }
        }
    }
}

proof fn lemma_position_from(ids: Seq<usize>, b: usize, k: int)
    requires
        0 <= k,
    ensures
        match position_from(ids, b, k) {
            Some(p) => k <= p < ids.len() && ids[p] == b && forall|j: int| k <= j < p ==> ids[j] != b,
            None => forall|j: int| k <= j < ids.len() ==> ids[j] != b,
        },
    decreases ids.len() - k,
{
    if k < ids.len() && ids[k] != b {
        lemma_position_from(ids, b, k + 1);
    }
}

proof fn lemma_position_of(ids: Seq<usize>, b: usize)
    ensures
        match position_of(ids, b) {
            Some(k) => 0 <= k < ids.len() && ids[k] == b && forall|j: int| 0 <= j < k ==> ids[j] != b,
            None => forall|j: int| 0 <= j < ids.len() ==> ids[j] != b,
        },
{
    lemma_position_from(ids, b, 0);
}

proof fn lemma_heights_shape(items: Seq<VisibleItem>, lines: Seq<LineView>, from: usize, n: int)
    requires
        0 <= n <= items.len(),
    ensures
        heights_from(items, lines, from, n).0.len() == heights_from(items, lines, from, n).1.len(),
        forall|k: int| 0 <= k < heights_from(items, lines, from, n).1.len() ==> 1 <= #[trigger] heights_from(items, lines, from, n).1[k] <= n,
        heights_from(items, lines, from, n).0.len() <= n,
    decreases n,
{
    if n > 0 {
        lemma_heights_shape(items, lines, from, n - 1);
        let (ids, hs) = heights_from(items, lines, from, n - 1);
        let src = item_source(items[n - 1]);
        if src >= from {
            let b = lines[src as int].block_id;
            lemma_position_of(ids, b);
        }
    }
}

/// The blocks of the live items (from transcript entry `from_entry` on), in
/// order of first appearance, and each block's natural height: how many
/// items it surfaces.
pub fn block_natural_heights(transcript: &[TranscriptLine], items: &[VisibleItem], from_entry: usize) -> (r: (Vec<usize>, Vec<usize>))
    requires
        items_in(items@, transcript@.len()),
    ensures
        r.0@ == heights_from(items@, lines_view(transcript@), from_entry, items@.len() as int).0,
        r.1@.len() == r.0@.len(),
        forall|k: int| 0 <= k < r.1@.len() ==> r.1@[k] as int == heights_from(items@, lines_view(transcript@), from_entry, items@.len() as int).1[k],
{
    let ghost lines = lines_view(transcript@);
    let mut ids: Vec<usize> = Vec::new();
    let mut hs: Vec<usize> = Vec::new();
    let mut i: usize = 0;
    while i < items.len()
        invariant
            i <= items@.len(),
            lines == lines_view(transcript@),
            items_in(items@, transcript@.len()),
            ids@ == heights_from(items@, lines, from_entry, i as int).0,
            hs@.len() == ids@.len(),
            forall|k: int| 0 <= k < hs@.len() ==> hs@[k] as int == heights_from(items@, lines, from_entry, i as int).1[k],
        decreases items@.len() - i,
    {
        proof {
            lemma_heights_shape(items@, lines, from_entry, i as int);
        }
        let it = items[i];
        assert(item_source(items@[i as int]) < transcript@.len());
        let src = match it {
            VisibleItem::Line { source_index, .. } => source_index,
            VisibleItem::Gap { source_index, .. } => source_index,
        };
        if src >= from_entry {
            let b = transcript[src].block_id;
            assert(lines[src as int].block_id == b);
            proof {
                lemma_position_of(ids@, b);
            }
            let mut k: usize = 0;
            while k < ids.len() && ids[k] != b
                invariant
                    k <= ids@.len(),
                    forall|j: int| 0 <= j < k ==> ids@[j] != b,
                decreases ids@.len() - k,
            {
                k += 1;
            }
            let ghost old_hs = hs@;
            let ghost prev = heights_from(items@, lines, from_entry, i as int);
            if k < ids.len() {
                assert(position_of(ids@, b) == Some(k as int));
                assert(prev.1[k as int] <= i);
                let h = hs[k];
                hs.set(k, h + 1);
                assert forall|j: int| 0 <= j < hs@.len() implies hs@[j] as int == heights_from(items@, lines, from_entry, i + 1).1[j] by {
                    if j != k {
                        assert(hs@[j] == old_hs[j]);
                    }
                }
            } else {
                assert(position_of(ids@, b) is None);
                ids.push(b);
                hs.push(1);
                assert forall|j: int| 0 <= j < hs@.len() implies hs@[j] as int == heights_from(items@, lines, from_entry, i + 1).1[j] by {
                    if j < old_hs.len() {
                        assert(hs@[j] == old_hs[j]);
                    }
                }
            }
        }
        i += 1;
    }
    (ids, hs)
}

/// The rows a block gets: its natural height when it was folded by hand,
/// otherwise what the row budget allocated to it.
pub open spec fn block_rows(mode: BlockDisplayMode, natural: int, alloc: int) -> int {
    if mode == BlockDisplayMode::Collapsed { natural } else { alloc }
}

/// How many of the first `n` blocks get no row.
pub open spec fn hidden_in(rows: Seq<usize>, n: int) -> nat
    decreases n,
{
    if n <= 0 { 0 } else { hidden_in(rows, n - 1) + if rows[n - 1] == 0 { 1nat } else { 0nat } }
}

impl RenderState {
    /// The rows each block of `ids` gets, given its natural height and the
    /// budget's allocation `allocs` (a hand-collapsed block keeps its
    /// natural height: the user already chose how it folds), and how many
    /// blocks are hidden entirely.
    pub fn block_allocations(&self, ids: &Vec<usize>, heights: &Vec<usize>, allocs: &Vec<usize>) -> (r: (Vec<usize>, usize))
        requires
            heights@.len() == ids@.len(),
            allocs@.len() == ids@.len(),
        ensures
            r.0@.len() == ids@.len(),
            forall|k: int| 0 <= k < ids@.len() ==> r.0@[k] as int == block_rows(self.mode_of(ids@[k]), heights@[k] as int, allocs@[k] as int),
            r.1 as int == hidden_in(r.0@, ids@.len() as int),
    {
        let mut rows: Vec<usize> = Vec::new();
        let mut hidden: usize = 0;
        let mut k: usize = 0;
        while k < ids.len()
            invariant
                k <= ids@.len() == heights@.len() == allocs@.len(),
                rows@.len() == k,
                forall|j: int| 0 <= j < k ==> rows@[j] as int == block_rows(self.mode_of(ids@[j]), heights@[j] as int, allocs@[j] as int),
                hidden as int == hidden_in(rows@, k as int),
                hidden <= k,
            decreases ids@.len() - k,
        {
            let m = self.block_mode(ids[k]);
            let r = if m == BlockDisplayMode::Collapsed { heights[k] } else { allocs[k] };
            let ghost before = rows@;
            rows.push(r);
            assert(hidden_in(rows@, k as int) == hidden_in(before, k as int)) by {
                lemma_hidden_prefix(before, rows@, k as int);
            }
            if r == 0 {
                hidden += 1;
            }
            k += 1;
        }
        (rows, hidden)
    }
}

proof fn lemma_hidden_prefix(a: Seq<usize>, b: Seq<usize>, n: int)
    requires
        0 <= n <= a.len(),
        n <= b.len(),
        forall|j: int| 0 <= j < n ==> a[j] == b[j],
    ensures
        hidden_in(a, n) == hidden_in(b, n),
    decreases n,
{
    if n > 0 {
        lemma_hidden_prefix(a, b, n - 1);
    }
}

/// The first display row whose line is at or after `offset`, or the last
/// row when there is none.
pub open spec fn first_at_or_after(sources: Seq<usize>, offset: usize, k: int) -> int
    decreases sources.len() - k,
{
    if k < 0 || k >= sources.len() {
        if sources.len() > 0 { sources.len() - 1 } else { 0 }
    } else if sources[k] >= offset {
        k
    } else {
        first_at_or_after(sources, offset, k + 1)
    }
}

/// The first display row drawn in a `height`-row view over rows whose
/// lines are `sources`: the tail when following, otherwise the first row
/// at the pinned line, clamped so the view stays full.
pub open spec fn view_start_spec(sources: Seq<usize>, scroll_offset: usize, height: usize) -> int {
    let total = sources.len();
    let raw: int = if scroll_offset == usize::MAX {
        if total >= height { total - height } else { 0 }
    } else {
        first_at_or_after(sources, scroll_offset, 0)
    };
    clamped_offset(raw as nat, total, height as nat) as int
}

/// The first display row drawn (see `view_start_spec`).
pub fn view_start(sources: &[usize], scroll_offset: usize, height: usize) -> (r: usize)
    ensures
        r as int == view_start_spec(sources@, scroll_offset, height),
{
    let total = sources.len();
    let raw = if scroll_offset == usize::MAX {
        total.saturating_sub(height)
    } else {
        let mut k: usize = 0;
        while k < total && sources[k] < scroll_offset
            invariant
                k <= total == sources@.len(),
                first_at_or_after(sources@, scroll_offset, 0) == first_at_or_after(sources@, scroll_offset, k as int),
            decreases total - k,
        {
            k += 1;
        }
        if k < total { k } else { total.saturating_sub(1) }
    };
    effective_scroll_offset(raw, total, height)
}

/// The first line of block `b` at or after line `k`.
pub open spec fn first_line_of(lines: Seq<LineView>, b: usize, k: int) -> Option<int>
    decreases lines.len() - k,
{
    if k < 0 || k >= lines.len() {
        None
    } else if lines[k].block_id == b {
        Some(k)
    } else {
        first_line_of(lines, b, k + 1)
    }
}

/// The block head pinned above the view: when the view starts inside a
/// block's body rather than on its first line, that first line.
pub open spec fn sticky_spec(lines: Seq<LineView>, sources: Seq<usize>, start: int) -> Option<int> {
    if 0 <= start < sources.len() && sources[start] < lines.len() {
        let src = sources[start] as int;
        match first_line_of(lines, lines[src].block_id, 0) {
            Some(f) => if f != src { Some(f) } else { None },
            None => None,
        }
    } else {
        None
    }
}

/// The line pinned above the view starting at display row `start` (see
/// `sticky_spec`).
pub fn sticky_head(transcript: &[TranscriptLine], sources: &[usize], start: usize) -> (r: Option<usize>)
    ensures
        match sticky_spec(lines_view(transcript@), sources@, start as int) {
            Some(f) => r == Some(f as usize),
            None => r is None,
        },
{
    let ghost lines = lines_view(transcript@);
    if start >= sources.len() || sources[start] >= transcript.len() {
        return None;
    }
    let src = sources[start];
    let b = transcript[src].block_id;
    assert(lines[src as int].block_id == b);
    let mut k: usize = 0;
    while k < transcript.len() && transcript[k].block_id != b
        invariant
            k <= transcript@.len(),
            lines == lines_view(transcript@),
            first_line_of(lines, b, 0) == first_line_of(lines, b, k as int),
        decreases transcript@.len() - k,
    {
        assert(lines[k as int].block_id != b);
        k += 1;
    }
    if k < transcript.len() {
        assert(lines[k as int].block_id == b);
        if k != src { Some(k) } else { None }
    } else {
        None
    }
}

} // verus!
