//! Shedding finished transcript rows into the terminal's own scrollback:
//! which leading display rows can be committed so that the live region
//! keeps only the viewport.
use vstd::prelude::*;

use crate::transcript::{lines_view, LineView, TranscriptLine};

verus! {

/// One row of the live transcript display: the transcript line it comes
/// from and its width in cells (`None` for the blank spacer between turns).
#[derive(Debug, Clone, Copy, PartialEq, Eq, Structural)]
pub struct DisplayRow {
    pub source_index: usize,
    pub cells: Option<usize>,
}

/// A planned flush of finalized rows into the host scrollback.
#[derive(Debug, Clone, Copy, PartialEq, Eq, Structural)]
pub struct ScrollbackCommit {
    /// Terminal rows printed above the viewport.
    pub rows: u16,
    /// Display rows `[0, boundary_item)` are committed.
    pub boundary_item: usize,
    /// Transcript index of the first entry that stays live.
    pub new_committed_entries: usize,
}

/// Terminal rows a display row takes at `width` cells: a spacer or an empty
/// line takes one, a line wraps to `ceil(cells / width)`.
pub open spec fn row_height(cells: Option<usize>, width: int) -> int {
    match cells {
        None => 1,
        Some(w) => if w == 0 { 1 } else { (w + width - 1) / width },
    }
}

/// Terminal rows taken by the first `k` display rows.
pub open spec fn rows_before(disp: Seq<DisplayRow>, width: int, k: int) -> int
    decreases k,
{
    if k <= 0 {
        0
    } else {
        rows_before(disp, width, k - 1) + row_height(disp[k - 1].cells, width)
    }
}

/// The largest `k <= j` whose first `k` rows end within `limit` terminal
/// rows (0 when none does).
pub open spec fn last_within(disp: Seq<DisplayRow>, width: int, limit: int, j: int) -> int
    decreases j,
{
    if j <= 0 {
        0
    } else if rows_before(disp, width, j) <= limit {
        j
    } else {
        last_within(disp, width, limit, j - 1)
    }
}

/// The first display row at or after `k` that comes from transcript entry
/// `anchor` or later.
pub open spec fn first_from(disp: Seq<DisplayRow>, anchor: usize, k: int) -> Option<int>
    decreases disp.len() - k,
{
    if k < 0 || k >= disp.len() {
        None
    } else if disp[k].source_index >= anchor {
        Some(k)
    } else {
        first_from(disp, anchor, k + 1)
    }
}

/// The block of the transcript line display row `i` comes from.
pub open spec fn bid_of(disp: Seq<DisplayRow>, lines: Seq<LineView>, i: int) -> Option<usize> {
    if disp[i].source_index < lines.len() {
        Some(lines[disp[i].source_index as int].block_id)
    } else {
        None
    }
}

/// Display rows `i` and `j` come from lines of one block.
pub open spec fn same_block(disp: Seq<DisplayRow>, lines: Seq<LineView>, i: int, j: int) -> bool {
    bid_of(disp, lines, i) is Some && bid_of(disp, lines, i) == bid_of(disp, lines, j)
}

/// Start of the run of display rows ending at `i` that share block `bid`.
pub open spec fn run_start(disp: Seq<DisplayRow>, lines: Seq<LineView>, bid: Option<usize>, i: int) -> int
    decreases i,
{
    if i > 0 && bid_of(disp, lines, i - 1) == bid {
        run_start(disp, lines, bid, i - 1)
    } else {
        i
    }
}

/// End of the run of display rows starting at `i` that share block `bid`.
pub open spec fn run_end(disp: Seq<DisplayRow>, lines: Seq<LineView>, bid: Option<usize>, i: int) -> int
    decreases disp.len() - i,
{
    if 0 <= i < disp.len() && bid_of(disp, lines, i) == bid {
        run_end(disp, lines, bid, i + 1)
    } else {
        i
    }
}

/// The block around display row `b` is taller than `keep` rows, so it can
/// never fit the live region and may be split at a line boundary.
pub open spec fn oversized(disp: Seq<DisplayRow>, lines: Seq<LineView>, width: int, keep: int, b: int) -> bool {
    let bid = bid_of(disp, lines, b);
    let s = run_start(disp, lines, bid, b);
    let e = run_end(disp, lines, bid, b);
    rows_before(disp, width, e) - rows_before(disp, width, s) > keep
}

/// A commit boundary may sit at `b`: at the top, between two blocks, or
/// inside a block too tall for the viewport.
pub open spec fn may_cut(disp: Seq<DisplayRow>, lines: Seq<LineView>, width: int, keep: int, b: int) -> bool {
    b <= 0 || !same_block(disp, lines, b - 1, b) || oversized(disp, lines, width, keep, b)
}

/// The largest boundary at or below `b` that may be cut.
pub open spec fn retreat(disp: Seq<DisplayRow>, lines: Seq<LineView>, width: int, keep: int, b: int) -> int
    decreases b,
{
    if b <= 0 || may_cut(disp, lines, width, keep, b) {
        b
    } else {
        retreat(disp, lines, width, keep, b - 1)
    }
}

/// First transcript index in block `bid`.
pub open spec fn first_in_block(lines: Seq<LineView>, bid: usize, k: int) -> Option<int>
    decreases lines.len() - k,
{
    if k < 0 || k >= lines.len() {
        None
    } else if lines[k].block_id == bid {
        Some(k)
    } else {
        first_in_block(lines, bid, k + 1)
    }
}

/// The commit plan: shed the rows above the last `keep` terminal rows,
/// never reaching the anchored streaming entry, and keep blocks whole
/// unless a block is taller than the viewport. `None` when nothing can be
/// committed.
pub open spec fn commit_plan(disp: Seq<DisplayRow>, lines: Seq<LineView>, width0: int, keep: int, anchor: Option<usize>) -> Option<ScrollbackCommit> {
    let width = if width0 >= 1 { width0 } else { 1 };
    let n = disp.len() as int;
    let total = rows_before(disp, width, n);
    if total <= keep || n == 0 {
        None
    } else {
        let b0 = last_within(disp, width, total - keep, n);
        if b0 == 0 {
            None
        } else {
            let b1 = match anchor {
                Some(a) => match first_from(disp, a, 0) {
                    Some(p) => if p < b0 { p } else { b0 },
                    None => b0,
                },
                None => b0,
            };
            let b2 = if b1 < n - 1 { b1 } else { n - 1 };
            let b = retreat(disp, lines, width, keep, b2);
            if b <= 0 {
                None
            } else {
                let first_live = disp[b].source_index;
                let rows = rows_before(disp, width, b);
                let rows16: u16 = if rows <= 0xFFFF { rows as u16 } else { 0xFFFFu16 };
                if same_block(disp, lines, b - 1, b) {
                    Some(ScrollbackCommit { rows: rows16, boundary_item: b as usize, new_committed_entries: first_live })
                } else if first_live >= lines.len() {
                    None
                } else {
                    match first_in_block(lines, lines[first_live as int].block_id, 0) {
                        Some(k) => Some(ScrollbackCommit { rows: rows16, boundary_item: b as usize, new_committed_entries: k as usize }),
                        None => None,
                    }
                }
            }
        }
    }
}

proof fn lemma_ceil_div(w: int, d: int)
    requires
        w >= 1,
        d >= 1,
    ensures
        (w + d - 1) / d == w / d + (if w % d != 0 { 1int } else { 0int }),
        (w + d - 1) / d >= 1,
{
    let q = w / d;
    let r = w % d;
    vstd::arithmetic::div_mod::lemma_fundamental_div_mod(w, d);
    assert(0 <= r < d) by {
        vstd::arithmetic::div_mod::lemma_mod_bound(w, d);
    }
    assert(w == q * d + r) by (nonlinear_arith)
        requires w == d * (w / d) + (w % d), q == w / d, r == w % d;
    if r == 0 {
        assert(w + d - 1 == q * d + (d - 1));
        vstd::arithmetic::div_mod::lemma_fundamental_div_mod_converse_div(w + d - 1, d, q, d - 1);
        assert(q >= 1) by (nonlinear_arith)
            requires w == q * d, w >= 1, d >= 1;
    } else {
        assert(w + d - 1 == (q + 1) * d + (r - 1)) by (nonlinear_arith)
            requires w == q * d + r;
        vstd::arithmetic::div_mod::lemma_fundamental_div_mod_converse_div(w + d - 1, d, q + 1, r - 1);
        assert(q >= 0) by (nonlinear_arith)
            requires w == q * d + r, w >= 1, d >= 1, 0 <= r < d;
    }
}

proof fn lemma_rows_mono(disp: Seq<DisplayRow>, width: int, i: int, j: int)
    requires
        width >= 1,
        0 <= i <= j <= disp.len(),
    ensures
        rows_before(disp, width, i) + (j - i) <= rows_before(disp, width, j),
    decreases j - i,
{
    if i < j {
        lemma_rows_mono(disp, width, i, j - 1);
        match disp[j - 1].cells {
            Some(w) => if w > 0 {
                lemma_ceil_div(w as int, width);
            },
            None => {},
        }
    }
}

/// Terminal rows display row `d` takes.
fn row_height_exec(cells: Option<usize>, width: usize) -> (h: usize)
    requires
        width >= 1,
    ensures
        h as int == row_height(cells, width as int),
        h >= 1,
{
    match cells {
        None => 1,
        Some(w) => if w == 0 {
            1
        } else {
            proof {
                lemma_ceil_div(w as int, width as int);
            }
            let q = w / width;
            let r = w % width;
            if r != 0 {
                proof {
                    vstd::arithmetic::div_mod::lemma_fundamental_div_mod(w as int, width as int);
                    assert(q < usize::MAX) by (nonlinear_arith)
                        requires w as int == width * q + r, r >= 1, width >= 1, w <= usize::MAX, q >= 0;
                }
                q + 1
            } else {
                q
            }
        },
    }
}

/// The running row totals: entry `k` is the number of terminal rows taken
/// by display rows `0..=k`.
fn display_ends(display: &[DisplayRow], width: usize) -> (ends: Vec<usize>)
    requires
        width >= 1,
        rows_before(display@, width as int, display@.len() as int) <= usize::MAX,
    ensures
        ends@.len() == display@.len(),
        forall|k: int| 0 <= k < ends@.len() ==> ends@[k] as int == rows_before(display@, width as int, k + 1),
{
    let mut ends: Vec<usize> = Vec::new();
    let mut y: usize = 0;
    let mut i: usize = 0;
    while i < display.len()
        invariant
            width >= 1,
            i <= display@.len(),
            rows_before(display@, width as int, display@.len() as int) <= usize::MAX,
            y as int == rows_before(display@, width as int, i as int),
            ends@.len() == i,
            forall|k: int| 0 <= k < i ==> ends@[k] as int == rows_before(display@, width as int, k + 1),
        decreases display@.len() - i,
    {
        let h = row_height_exec(display[i].cells, width);
        proof {
            lemma_rows_mono(display@, width as int, i + 1, display@.len() as int);
            assert(rows_before(display@, width as int, i + 1) == rows_before(display@, width as int, i as int) + row_height(display@[i as int].cells, width as int));
        }
        y = y + h;
        ends.push(y);
        i += 1;
    }
    ends
}

fn bid_at(display: &[DisplayRow], transcript: &[TranscriptLine], i: usize) -> (r: Option<usize>)
    requires
        i < display@.len(),
    ensures
        r == bid_of(display@, lines_view(transcript@), i as int),
{
    let src = display[i].source_index;
    if src < transcript.len() {
        Some(transcript[src].block_id)
    } else {
        None
    }
}

/// Plans which leading display rows move into the host scrollback so that
/// only `keep_rows` terminal rows stay live (see `commit_plan`). Nothing is
/// committed while everything fits; a planned commit leaves at least one
/// row on each side, keeps the viewport filled, commits nothing from the
/// anchored streaming entry on, splits only a block taller than the kept
/// rows, and counts its terminal rows capped at 65535.
pub fn scrollback_commit_plan(
    display: &[DisplayRow],
    transcript: &[TranscriptLine],
    width: usize,
    keep_rows: usize,
    anchor_entry: Option<usize>,
) -> (r: Option<ScrollbackCommit>)
    requires
        rows_before(display@, if width >= 1 { width as int } else { 1 }, display@.len() as int) <= usize::MAX,
    ensures
        r == commit_plan(display@, lines_view(transcript@), width as int, keep_rows as int, anchor_entry),
        ({
            let w = if width >= 1 { width as int } else { 1 };
            let total = rows_before(display@, w, display@.len() as int);
            &&& (display@.len() == 0 || total <= keep_rows) ==> r is None
            &&& r matches Some(c) ==> {
                let b = c.boundary_item as int;
                &&& 0 < b < display@.len()
                &&& rows_before(display@, w, b) + keep_rows <= total
                &&& (anchor_entry matches Some(a) ==> forall|i: int| 0 <= i < b ==> display@[i].source_index < a)
                &&& may_cut(display@, lines_view(transcript@), w, keep_rows as int, b)
                &&& c.rows as int == (if rows_before(display@, w, b) <= 0xFFFF { rows_before(display@, w, b) } else { 0xFFFF })
            }
        }),
{
    let r = plan_commit(display, transcript, width, keep_rows, anchor_entry);
    let n = display.len();
    proof {
        let lines = lines_view(transcript@);
        if r is Some {
            lemma_commit_plan_safe(display@, lines, width as int, keep_rows as int, anchor_entry);
        }
    }
    r
}

fn plan_commit(
    display: &[DisplayRow],
    transcript: &[TranscriptLine],
    width: usize,
    keep_rows: usize,
    anchor_entry: Option<usize>,
) -> (r: Option<ScrollbackCommit>)
    requires
        rows_before(display@, if width >= 1 { width as int } else { 1 }, display@.len() as int) <= usize::MAX,
    ensures
        r == commit_plan(display@, lines_view(transcript@), width as int, keep_rows as int, anchor_entry),
{
    let ghost disp = display@;
    let ghost lines = lines_view(transcript@);
    let width: usize = if width >= 1 { width } else { 1 };
    let n = display.len();
    let ends = display_ends(display, width);
    if n == 0 {
        return None;
    }
    let total = ends[n - 1];
    if total <= keep_rows {
        return None;
    }
    let limit = total - keep_rows;
    // Last k whose first k rows end within the limit.
    let mut k: usize = n;
    while k > 0 && ends[k - 1] > limit
        invariant
            k <= n == disp.len() == ends@.len(),
            disp == display@,
            forall|q: int| 0 <= q < ends@.len() ==> ends@[q] as int == rows_before(disp, width as int, q + 1),
            last_within(disp, width as int, limit as int, n as int) == last_within(disp, width as int, limit as int, k as int),
        decreases k,
    {
        k -= 1;
    }
    if k == 0 {
        return None;
    }
    let mut b = k;
    match anchor_entry {
        Some(a) => {
            let mut p: usize = 0;
            let mut found = false;
            assert(first_from(disp, a, 0) == first_from(disp, a, 0));
            while p < n && !found
                invariant
                    p <= n == disp.len(),
                    disp == display@,
                    found ==> p < n && disp[p as int].source_index >= a && first_from(disp, a, 0) == Some(p as int),
                    !found ==> first_from(disp, a, 0) == first_from(disp, a, p as int),
                decreases n - p + (if found { 0int } else { 1int }),
            {
                if display[p].source_index >= a {
                    found = true;
                } else {
                    p += 1;
                }
            }
            if found && p < b {
                b = p;
            }
        },
        None => {},
    }
    if b > n - 1 {
        b = n - 1;
    }
    // Block-atomic: step back while the boundary splits a block that fits.
    let ghost b2 = b as int;
    let mut done = false;
    while b > 0 && !done
        invariant
            b <= b2 < n == disp.len() == ends@.len(),
            disp == display@,
            lines == lines_view(transcript@),
            width >= 1,
            forall|q: int| 0 <= q < ends@.len() ==> ends@[q] as int == rows_before(disp, width as int, q + 1),
            retreat(disp, lines, width as int, keep_rows as int, b2) == retreat(disp, lines, width as int, keep_rows as int, b as int),
            done ==> may_cut(disp, lines, width as int, keep_rows as int, b as int),
        decreases b + (if done { 0int } else { 1int }),
    {
        let last = bid_at(display, transcript, b - 1);
        let next = bid_at(display, transcript, b);
        let same = match (last, next) {
            (Some(x), Some(y)) => x == y,
            _ => false,
        };
        if !same {
            done = true;
        } else {
            let mut s = b;
            while s > 0 && bid_at(display, transcript, s - 1) == next
                invariant
                    s <= b < disp.len(),
                    disp == display@,
                    lines == lines_view(transcript@),
                    run_start(disp, lines, next, b as int) == run_start(disp, lines, next, s as int),
                decreases s,
            {
                s -= 1;
            }
            let mut e = b;
            while e < n && bid_at(display, transcript, e) == next
                invariant
                    b <= e <= n == disp.len(),
                    disp == display@,
                    lines == lines_view(transcript@),
                    bid_of(disp, lines, b as int) == next,
                    e > b || e == b,
                    run_end(disp, lines, next, b as int) == run_end(disp, lines, next, e as int),
                decreases n - e,
            {
                e += 1;
            }
            assert(e > b);
            let before = if s == 0 { 0 } else { ends[s - 1] };
            proof {
                lemma_rows_mono(disp, width as int, s as int, e as int);
                assert(run_start(disp, lines, next, b as int) == s);
                assert(run_end(disp, lines, next, b as int) == e);
            }
            if ends[e - 1] - before > keep_rows {
                done = true;
            } else {
                b -= 1;
            }
        }
    }
    if b == 0 {
        return None;
    }
    let rows: u16 = if ends[b - 1] <= 0xFFFF { ends[b - 1] as u16 } else { 0xFFFF };
    let last = bid_at(display, transcript, b - 1);
    let next = bid_at(display, transcript, b);
    let first_live = display[b].source_index;
    let same = match (last, next) {
        (Some(x), Some(y)) => x == y,
        _ => false,
    };
    if same {
        return Some(ScrollbackCommit { rows, boundary_item: b, new_committed_entries: first_live });
    }
    if first_live >= transcript.len() {
        return None;
    }
    let live_bid = transcript[first_live].block_id;
    let mut t: usize = 0;
    while t < transcript.len() && transcript[t].block_id != live_bid
        invariant
            t <= transcript@.len(),
            lines == lines_view(transcript@),
            first_in_block(lines, live_bid, 0) == first_in_block(lines, live_bid, t as int),
        decreases transcript@.len() - t,
    {
        t += 1;
    }
    if t < transcript.len() {
        Some(ScrollbackCommit { rows, boundary_item: b, new_committed_entries: t })
    } else {
        None
    }
}

proof fn lemma_retreat(disp: Seq<DisplayRow>, lines: Seq<LineView>, width: int, keep: int, b: int)
    ensures
        retreat(disp, lines, width, keep, b) <= b,
        retreat(disp, lines, width, keep, b) > 0 ==> may_cut(disp, lines, width, keep, retreat(disp, lines, width, keep, b)),
    decreases b,
{
    if !(b <= 0 || may_cut(disp, lines, width, keep, b)) {
        lemma_retreat(disp, lines, width, keep, b - 1);
    }
}

proof fn lemma_first_from(disp: Seq<DisplayRow>, anchor: usize, k: int)
    requires
        0 <= k,
    ensures
        match first_from(disp, anchor, k) {
            Some(p) => k <= p < disp.len() && disp[p].source_index >= anchor
                && forall|i: int| k <= i < p ==> disp[i].source_index < anchor,
            None => forall|i: int| k <= i < disp.len() ==> disp[i].source_index < anchor,
        },
    decreases disp.len() - k,
{
    if k < disp.len() && disp[k].source_index < anchor {
        lemma_first_from(disp, anchor, k + 1);
    }
}

proof fn lemma_last_within(disp: Seq<DisplayRow>, width: int, limit: int, j: int)
    ensures
        last_within(disp, width, limit, j) <= j || j < 0,
        last_within(disp, width, limit, j) > 0 ==> rows_before(disp, width, last_within(disp, width, limit, j)) <= limit,
    decreases j,
{
    if j > 0 && rows_before(disp, width, j) > limit {
        lemma_last_within(disp, width, limit, j - 1);
    }
}

/// What every planned commit keeps: at least one row is committed and at
/// least one stays live; the rows that stay live still fill the viewport;
/// nothing from the anchored streaming entry on is committed; and the
/// boundary splits no block that would fit the viewport.
pub proof fn lemma_commit_plan_safe(
    disp: Seq<DisplayRow>,
    lines: Seq<LineView>,
    width0: int,
    keep: int,
    anchor: Option<usize>,
)
    requires
        disp.len() <= usize::MAX,
        commit_plan(disp, lines, width0, keep, anchor) is Some,
    ensures
        ({
            let c = commit_plan(disp, lines, width0, keep, anchor).unwrap();
            let width = if width0 >= 1 { width0 } else { 1 };
            let b = c.boundary_item as int;
            &&& 0 < b < disp.len()
            &&& rows_before(disp, width, b) + keep <= rows_before(disp, width, disp.len() as int)
            &&& (anchor matches Some(a) ==> forall|i: int| 0 <= i < b ==> disp[i].source_index < a)
            &&& may_cut(disp, lines, width, keep, b)
            &&& c.rows as int == (if rows_before(disp, width, b) <= 0xFFFF { rows_before(disp, width, b) } else { 0xFFFF })
        }),
{
    let width = if width0 >= 1 { width0 } else { 1 };
    let n = disp.len() as int;
    let total = rows_before(disp, width, n);
    let b0 = last_within(disp, width, total - keep, n);
    lemma_last_within(disp, width, total - keep, n);
    let b1 = match anchor {
        Some(a) => match first_from(disp, a, 0) {
            Some(p) => if p < b0 { p } else { b0 },
            None => b0,
        },
        None => b0,
    };
    match anchor {
        Some(a) => lemma_first_from(disp, a, 0),
        None => {},
    }
    let b2 = if b1 < n - 1 { b1 } else { n - 1 };
    lemma_retreat(disp, lines, width, keep, b2);
    let b = retreat(disp, lines, width, keep, b2);
    lemma_rows_mono(disp, width, b, b0);
    lemma_rows_mono(disp, width, 0, b);
}

/// Nothing is committed while every row fits the kept rows (or there are
/// no rows).
pub proof fn lemma_commit_plan_none_when_fits(
    disp: Seq<DisplayRow>,
    lines: Seq<LineView>,
    width0: int,
    keep: int,
    anchor: Option<usize>,
)
    requires
        disp.len() == 0 || rows_before(disp, if width0 >= 1 { width0 } else { 1 }, disp.len() as int) <= keep,
    ensures
        commit_plan(disp, lines, width0, keep, anchor) is None,
{
}

} // verus!
