//! Where the live transcript's rows go: from the view's first display row
//! down, each block under row pressure becomes a glyph row, a folded card,
//! or nothing, the others take their wrapped lines; the bottom row is kept
//! for the "earlier blocks hidden" banner when blocks were hidden.
use vstd::prelude::*;

verus! {

/// One display row to place: its block, and the cells of its line (`None`
/// for a turn spacer, which takes one blank row).
#[derive(Debug, Clone, Copy, PartialEq, Eq, Structural)]
pub struct PlanItem {
    pub block: usize,
    pub cells: Option<usize>,
}

/// What goes where.
#[derive(Debug, Clone, Copy, PartialEq, Eq, Structural)]
pub enum Placement {
    /// The glyph row of block `block` at row `y`.
    Glyph { block: usize, y: u16 },
    /// The two-row folded card of block `block` from row `y`.
    Card { block: usize, y: u16 },
    /// Display row `item` wrapped into `height` rows from row `y`.
    Line { item: usize, y: u16, height: u16 },
}

/// The value `ids[k]` maps to in `vals` for the first `k` with
/// `ids[k] == b` (0 when `b` is absent).
pub open spec fn value_of(ids: Seq<usize>, vals: Seq<usize>, b: usize, k: int) -> int
    decreases ids.len() - k,
{
    if k < 0 || k >= ids.len() || k >= vals.len() {
        0
    } else if ids[k] == b {
        vals[k] as int
    } else {
        value_of(ids, vals, b, k + 1)
    }
}

/// The wrapped height of a line of `cells` cells on rows `width` wide: one
/// row when empty, else enough rows for its cells, as a `u16`.
pub open spec fn wrapped_height(cells: usize, width: int) -> u16 {
    if cells == 0 {
        1
    } else {
        let rows = (cells + width - 1) / width;
        (if rows < 1 { 1 } else { rows }) as u16
    }
}

/// The plan while walking the display rows: the next free row, the block
/// of the last row seen, the blocks already folded away, what was placed,
/// and whether the region is full.
pub struct PlanState {
    pub y: int,
    pub current: Option<usize>,
    pub skipped: Seq<usize>,
    pub out: Seq<Placement>,
    pub done: bool,
}

/// A display row taking its natural rows at `st.y`.
pub open spec fn natural(st: PlanState, item: PlanItem, idx: int, bottom: int, width: int) -> PlanState {
    match item.cells {
        None => PlanState { y: st.y + 1, ..st },
        Some(c) => {
            let h = wrapped_height(c, width);
            let shown = if (h as int) < bottom - st.y { h as int } else { bottom - st.y };
            PlanState { y: st.y + h, out: st.out.push(Placement::Line { item: idx as usize, y: st.y as u16, height: shown as u16 }), ..st }
        },
    }
}

/// One display row of the plan. The walk stops at the region's bottom, or
/// at the banner row when blocks are hidden. On entering a block squeezed
/// below its natural height: a block folded away before is passed over, no
/// row hides the block, one row makes a glyph row, two a folded card, more
/// let its rows through; any other row takes its natural rows.
pub open spec fn plan_step(st: PlanState, item: PlanItem, idx: int, bottom: int, banner: Option<int>, width: int,
    ids: Seq<usize>, rows: Seq<usize>, naturals: Seq<usize>) -> PlanState {
    if st.done {
        st
    } else if st.y >= bottom || (banner matches Some(b) && st.y >= b) {
        PlanState { done: true, ..st }
    } else if st.current != Some(item.block) {
        let entered = PlanState { current: Some(item.block), ..st };
        let a = value_of(ids, rows, item.block, 0);
        let n = value_of(ids, naturals, item.block, 0);
        if a < n {
            if st.skipped.contains(item.block) {
                entered
            } else if a == 0 {
                PlanState { skipped: st.skipped.push(item.block), ..entered }
            } else if a == 1 {
                PlanState { y: st.y + 1, skipped: st.skipped.push(item.block),
                    out: st.out.push(Placement::Glyph { block: item.block, y: st.y as u16 }), ..entered }
            } else if a == 2 {
                PlanState { y: st.y + 2, skipped: st.skipped.push(item.block),
                    out: st.out.push(Placement::Card { block: item.block, y: st.y as u16 }), ..entered }
            } else {
                natural(entered, item, idx, bottom, width)
            }
        } else {
            natural(entered, item, idx, bottom, width)
        }
    } else {
        natural(st, item, idx, bottom, width)
    }
}

/// The plan after the first `n` display rows.
pub open spec fn plan_upto(items: Seq<PlanItem>, n: int, top: int, bottom: int, banner: Option<int>, width: int,
    ids: Seq<usize>, rows: Seq<usize>, naturals: Seq<usize>) -> PlanState
    decreases n,
{
    if n <= 0 {
        PlanState { y: top, current: None, skipped: Seq::empty(), out: Seq::empty(), done: false }
    } else {
        plan_step(plan_upto(items, n - 1, top, bottom, banner, width, ids, rows, naturals), items[n - 1], n - 1,
            bottom, banner, width, ids, rows, naturals)
    }
}

/// The banner row: the region's last row, when any block is hidden.
pub open spec fn banner_row(bottom: u16, hidden: usize) -> Option<int> {
    if hidden > 0 { Some(if bottom >= 1 { bottom - 1 } else { 0 }) } else { None }
}

fn lookup(ids: &Vec<usize>, vals: &Vec<usize>, b: usize) -> (v: usize)
    ensures
        v as int == value_of(ids@, vals@, b, 0),
{
    let mut k: usize = 0;
    while k < ids.len() && k < vals.len()
        invariant
            k <= ids@.len(),
            value_of(ids@, vals@, b, 0) == value_of(ids@, vals@, b, k as int),
        decreases ids@.len() - k,
    {
        if ids[k] == b {
            return vals[k];
        }
        k += 1;
    }
    0
}

fn seen(v: &Vec<usize>, b: usize) -> (r: bool)
    ensures
        r == v@.contains(b),
{
    let mut k: usize = 0;
    while k < v.len()
        invariant
            k <= v@.len(),
            forall|j: int| 0 <= j < k ==> v@[j] != b,
        decreases v@.len() - k,
    {
        if v[k] == b {
            assert(v@[k as int] == b);
            return true;
        }
        k += 1;
    }
    false
}

fn height_of(cells: usize, width: usize) -> (h: u16)
    requires
        width >= 1,
    ensures
        h == wrapped_height(cells, width as int),
{
    if cells == 0 {
        1
    } else {
        let q = cells / width;
        let r = cells % width;
        proof {
            assert(q * width + r == cells && 0 <= r < width) by (nonlinear_arith)
                requires q == cells / width, r == cells % width, width >= 1;
            if r != 0 {
                assert(q < cells) by (nonlinear_arith)
                    requires q * width + r == cells, r < width, r > 0, width >= 1, q >= 0;
            }
            let want = (cells + width - 1) / (width as int);
            if r == 0 {
                assert(want == q) by (nonlinear_arith)
                    requires q * width == cells, width >= 1, want == (cells + width - 1) / (width as int);
            } else {
                assert(want == q + 1) by (nonlinear_arith)
                    requires q * width + r == cells, 0 < r < width, want == (cells + width - 1) / (width as int);
            }
        }
        let rows = if r == 0 { q } else { q + 1 };
        (if rows < 1 { 1 } else { rows }) as u16
    }
}

/// The placements of the live region's rows: `items` are the display rows
/// from the view's first one on, placed from row `top` down to `bottom`
/// (exclusive) on rows `width` cells wide; `ids`, `rows` and `naturals`
/// give each block's allotted and natural height, and `hidden` how many
/// blocks the budget hid. Returns the placements and the banner row.
pub fn plan_rows(items: &Vec<PlanItem>, top: u16, bottom: u16, width: u16, hidden: usize,
    ids: &Vec<usize>, rows: &Vec<usize>, naturals: &Vec<usize>) -> (r: (Vec<Placement>, Option<u16>))
    ensures
        r.0@ == plan_upto(items@, items@.len() as int, top as int, bottom as int, banner_row(bottom, hidden),
            (if width >= 1 { width as int } else { 1 }), ids@, rows@, naturals@).out,
        match r.1 {
            Some(b) => banner_row(bottom, hidden) == Some(b as int),
            None => banner_row(bottom, hidden) is None,
        },
{
    let w: usize = if width >= 1 { width as usize } else { 1 };
    let banner: Option<u16> = if hidden > 0 { Some(bottom.saturating_sub(1)) } else { None };
    let ghost gb = banner_row(bottom, hidden);
    let mut y: u64 = top as u64;
    let mut current: Option<usize> = None;
    let mut skipped: Vec<usize> = Vec::new();
    let mut out: Vec<Placement> = Vec::new();
    let mut done = false;
    let mut i: usize = 0;
    while i < items.len()
        invariant
            i <= items@.len(),
            w >= 1,
            w as int == (if width >= 1 { width as int } else { 1 }),
            gb == banner_row(bottom, hidden),
            match banner { Some(b) => gb == Some(b as int), None => gb is None },
            y <= 2 * (u16::MAX as u64),
            ({
                let st = plan_upto(items@, i as int, top as int, bottom as int, gb, w as int, ids@, rows@, naturals@);
                &&& st.y == y as int
                &&& st.current == current
                &&& st.skipped == skipped@
                &&& st.out == out@
                &&& st.done == done
            }),
        decreases items@.len() - i,
    {
        let item = items[i];
        if !done {
            let full = y >= bottom as u64 || match banner { Some(b) => y >= b as u64, None => false };
            if full {
                done = true;
            } else {
                let mut take_natural = true;
                if current != Some(item.block) {
                    current = Some(item.block);
                    let a = lookup(ids, rows, item.block);
                    let n = lookup(ids, naturals, item.block);
                    if a < n {
                        if seen(&skipped, item.block) {
                            take_natural = false;
                        } else if a == 0 {
                            skipped.push(item.block);
                            take_natural = false;
                        } else if a == 1 {
                            out.push(Placement::Glyph { block: item.block, y: y as u16 });
                            skipped.push(item.block);
                            y = y + 1;
                            take_natural = false;
                        } else if a == 2 {
                            out.push(Placement::Card { block: item.block, y: y as u16 });
                            skipped.push(item.block);
                            y = y + 2;
                            take_natural = false;
                        }
                    }
                }
                if take_natural {
                    match item.cells {
                        None => {
                            y = y + 1;
                        },
                        Some(c) => {
                            let h = height_of(c, w);
                            let room = bottom as u64 - y;
                            let shown = if (h as u64) < room { h as u64 } else { room };
                            out.push(Placement::Line { item: i, y: y as u16, height: shown as u16 });
                            y = y + h as u64;
                        },
                    }
                }
            }
        }
        proof {
            reveal_with_fuel(plan_upto, 2);
        }
        i += 1;
    }
    (out, banner)
}

} // verus!
