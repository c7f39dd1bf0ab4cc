//! What a centered overlay panel shows and where: the bordered frame, the
//! tab bar, search bar, explanatory lines, section sidebar, the scrolled
//! item window and the key-help footer, or the single-line prompt with its
//! caret. Painting the rows is the terminal's business; each row here is a
//! one-line area with the styled text that goes into it.
use vstd::prelude::*;

use crate::render_state::ModalConfirmation;
use crate::slash::SlashPopup;
use crate::overlay::{filtered_indices, overlay_filtered_indices, position_of, position_or_zero, OverlaySearchState, OverlaySecureInput, OverlayState};
use crate::settings_panel::{item_section_idx, section_of};
use crate::text::{chars_of, push_char, push_str, string_of};
use crate::tool_box::{str_cells, str_width};

verus! {

/// A rectangle of terminal cells.
#[derive(Debug, Clone, Copy, PartialEq, Eq, Structural)]
pub struct Area {
    pub x: u16,
    pub y: u16,
    pub width: u16,
    pub height: u16,
}

/// The theme color a piece of text takes.
#[derive(Debug, Clone, Copy, PartialEq, Eq, Structural)]
pub enum Tone {
    Primary,
    Secondary,
    Foreground,
    Error,
    Info,
    /// Tool output.
    Tool,
    /// The terminal's own colors.
    Plain,
}

/// Color and weight of a piece of text.
#[derive(Debug, Clone, Copy, PartialEq, Eq, Structural)]
pub struct Look {
    pub tone: Tone,
    pub bold: bool,
    pub dim: bool,
}

/// A piece of text and its look.
#[derive(Debug, Clone)]
pub struct PanelSpan {
    pub text: String,
    pub look: Look,
}

impl View for PanelSpan {
    type V = (Seq<char>, Look);

    open spec fn view(&self) -> (Seq<char>, Look) {
        (self.text@, self.look)
    }
}

/// One painted line: the one-row area and the spans written into it from
/// its left edge (cut off at its right edge).
#[derive(Debug, Clone)]
pub struct PanelRow {
    pub area: Area,
    pub spans: Vec<PanelSpan>,
}

impl View for PanelRow {
    type V = (Area, Seq<(Seq<char>, Look)>);

    open spec fn view(&self) -> (Area, Seq<(Seq<char>, Look)>) {
        (self.area, spans_view(self.spans@))
    }
}

/// The views of `spans`, in order.
pub open spec fn spans_view(spans: Seq<PanelSpan>) -> Seq<(Seq<char>, Look)> {
    spans.map_values(|s: PanelSpan| s@)
}

/// A panel: the cleared, bordered frame with its title in the top border,
/// the rows painted inside it in order, and where the caret goes.
#[derive(Debug, Clone)]
pub struct PanelView {
    pub frame: Area,
    pub title: String,
    pub title_look: Look,
    pub border: Look,
    /// Rounded corners instead of square ones.
    pub rounded: bool,
    pub rows: Vec<PanelRow>,
    pub cursor: Option<(u16, u16)>,
}

/// The views of `rows`, in order.
pub open spec fn rows_view(rows: Seq<PanelRow>) -> Seq<(Area, Seq<(Seq<char>, Look)>)> {
    rows.map_values(|r: PanelRow| r@)
}

pub open spec fn look(tone: Tone, bold: bool, dim: bool) -> Look {
    Look { tone, bold, dim }
}

/// `a + b`, saturating at `u16::MAX`.
pub open spec fn sat_add16(a: int, b: int) -> u16 {
    if a + b > u16::MAX { u16::MAX } else if a + b < 0 { 0 } else { (a + b) as u16 }
}

/// `a - b`, saturating at 0.
pub open spec fn sat_sub16(a: int, b: int) -> u16 {
    if a - b < 0 { 0 } else if a - b > u16::MAX { u16::MAX } else { (a - b) as u16 }
}

pub open spec fn min16(a: u16, b: u16) -> u16 {
    if a <= b { a } else { b }
}

/// `v` held between `lo` and `hi`.
pub open spec fn clamp16(v: u16, lo: u16, hi: u16) -> u16 {
    if v < lo { lo } else if v > hi { hi } else { v }
}

/// The area does not run past the last addressable cell.
pub open spec fn area_ok(a: Area) -> bool {
    a.x + a.width <= u16::MAX && a.y + a.height <= u16::MAX
}

/// A `width` x `height` rectangle centered in `area` (left-aligned when
/// wider than it).
pub open spec fn centered(area: Area, width: u16, height: u16) -> Area {
    Area {
        x: (area.x + sat_sub16(area.width as int, width as int) / 2) as u16,
        y: (area.y + sat_sub16(area.height as int, height as int) / 2) as u16,
        width,
        height,
    }
}

/// The cells inside a one-cell border around `a`.
pub open spec fn inner_of(a: Area) -> Area {
    Area {
        x: min16(sat_add16(a.x as int, 1), sat_add16(a.x as int, a.width as int)),
        y: min16(sat_add16(a.y as int, 1), sat_add16(a.y as int, a.height as int)),
        width: sat_sub16(a.width as int, 2),
        height: sat_sub16(a.height as int, 2),
    }
}

/// The one-row area at `(x, y)`, `width` cells wide.
pub open spec fn line_area(x: u16, y: u16, width: u16) -> Area {
    Area { x, y, width, height: 1 }
}

/// The explanatory lines, one row each from row `y0` down.
pub open spec fn line_rows(lines: Seq<String>, x: u16, y0: u16, width: u16) -> Seq<(Area, Seq<(Seq<char>, Look)>)> {
    Seq::new(lines.len(), |k: int| (line_area(x, sat_add16(y0 as int, k), width), seq![(lines[k]@, look(Tone::Secondary, false, false))]))
}

/// The panel title as it sits in the top border.
pub open spec fn panel_title(o: OverlayState) -> Seq<char> {
    " "@ + o.title@ + " "@
}

fn sat_add(a: u16, b: u16) -> (r: u16)
    ensures
        r == sat_add16(a as int, b as int),
{
    a.saturating_add(b)
}

fn sat_sub(a: u16, b: u16) -> (r: u16)
    ensures
        r == sat_sub16(a as int, b as int),
{
    a.saturating_sub(b)
}

fn min_u16(a: u16, b: u16) -> (r: u16)
    ensures
        r == min16(a, b),
{
    if a <= b { a } else { b }
}

fn centered_in(area: Area, width: u16, height: u16) -> (r: Area)
    requires
        area_ok(area),
    ensures
        r == centered(area, width, height),
{
    Area {
        x: area.x + sat_sub(area.width, width) / 2,
        y: area.y + sat_sub(area.height, height) / 2,
        width,
        height,
    }
}

fn inner_area(a: Area) -> (r: Area)
    ensures
        r == inner_of(a),
{
    Area {
        x: min_u16(sat_add(a.x, 1), sat_add(a.x, a.width)),
        y: min_u16(sat_add(a.y, 1), sat_add(a.y, a.height)),
        width: sat_sub(a.width, 2),
        height: sat_sub(a.height, 2),
    }
}

fn panel_width(area: Area) -> (w: u16)
    ensures
        w == clamp16(area.width, 30, 80),
{
    if area.width < 30 { 30 } else if area.width > 80 { 80 } else { area.width }
}

/// A row holding one span.
fn single_row(area: Area, text: String, l: Look) -> (r: PanelRow)
    ensures
        r@ == (area, seq![(text@, l)]),
{
    let mut spans: Vec<PanelSpan> = Vec::new();
    spans.push(PanelSpan { text, look: l });
    let r = PanelRow { area, spans };
    assert(r@.1 =~= seq![(r.spans@[0].text@, l)]);
    r
}

/// Appends the explanatory-line rows to `rows`; returns the row below them.
fn push_line_rows(rows: &mut Vec<PanelRow>, lines: &Vec<String>, x: u16, y0: u16, width: u16) -> (y: u16)
    ensures
        rows_view(final(rows)@) == rows_view(old(rows)@) + line_rows(lines@, x, y0, width),
        y == sat_add16(y0 as int, lines@.len() as int),
{
    let ghost start = rows_view(rows@);
    let mut y = y0;
    let mut k: usize = 0;
    while k < lines.len()
        invariant
            k <= lines@.len(),
            y == sat_add16(y0 as int, k as int),
            rows_view(rows@) == start + line_rows(lines@, x, y0, width).take(k as int),
        decreases lines@.len() - k,
    {
        let line = lines[k].clone();
        assert(line@ == lines@[k as int]@);
        let r = single_row(Area { x, y, width, height: 1 }, line, Look { tone: Tone::Secondary, bold: false, dim: false });
        assert(r@ == line_rows(lines@, x, y0, width)[k as int]);
        let ghost before = rows@;
        rows.push(r);
        proof {
            assert(rows@ == before.push(r));
            assert(rows_view(rows@) =~= rows_view(before).push(r@));
            assert(line_rows(lines@, x, y0, width).take(k + 1) =~= line_rows(lines@, x, y0, width).take(k as int).push(r@));
        }
        y = sat_add(y, 1);
        k += 1;
    }
    proof {
        assert(line_rows(lines@, x, y0, width).take(lines@.len() as int) =~= line_rows(lines@, x, y0, width));
    }
    y
}

// ---------------------------------------------------------------------------
// The single-line prompt
// ---------------------------------------------------------------------------

/// The frame of a prompt panel with `n_lines` explanatory lines: room for
/// them, the input row and the border, 30 to 80 cells wide.
pub open spec fn prompt_frame(area: Area, n_lines: nat) -> Area {
    let desired = sat_add16(sat_add16((n_lines as u16) as int, 1) as int, 2);
    centered(area, clamp16(area.width, 30, 80), min16(desired, sat_sub16(area.height as int, 2)))
}

/// The label in front of the input: `label: `.
pub open spec fn prompt_prefix(si: OverlaySecureInput) -> Seq<char> {
    si.label@ + ": "@
}

/// The cells the label prefix takes.
pub open spec fn prefix_cells(si: OverlaySecureInput) -> u16 {
    str_cells(prompt_prefix(si)) as u16
}

/// What the input shows of the entered text: one `*` per character when
/// masked, else the text.
pub open spec fn shown_input(si: OverlaySecureInput) -> Seq<char> {
    if si.mask_input { Seq::new(si.chars@.len(), |i: int| '*') } else { si.chars@ }
}

/// The row the input sits on.
pub open spec fn prompt_row(area: Area, o: OverlayState) -> u16 {
    sat_add16(inner_of(prompt_frame(area, o.lines@.len())).y as int, o.lines@.len() as int)
}

/// The input field right of the label prefix.
pub open spec fn input_area(area: Area, o: OverlayState, si: OverlaySecureInput) -> Area {
    let inner = inner_of(prompt_frame(area, o.lines@.len()));
    line_area(sat_add16(inner.x as int, prefix_cells(si) as int), prompt_row(area, o), sat_sub16(inner.width as int, prefix_cells(si) as int))
}

/// The rows of a prompt panel: the explanatory lines, the label prefix,
/// then the placeholder (dimmed) while nothing is entered, else the shown
/// input.
pub open spec fn prompt_rows(area: Area, o: OverlayState, si: OverlaySecureInput) -> Seq<(Area, Seq<(Seq<char>, Look)>)> {
    let inner = inner_of(prompt_frame(area, o.lines@.len()));
    let row = prompt_row(area, o);
    let prefix = (line_area(inner.x, row, min16(prefix_cells(si), inner.width)), seq![(prompt_prefix(si), look(Tone::Secondary, false, false))]);
    let field = input_area(area, o, si);
    let tail = if si.chars@.len() == 0 {
        match si.placeholder {
            Some(p) => seq![(field, seq![(p@, look(Tone::Secondary, false, true))])],
            None => Seq::empty(),
        }
    } else {
        seq![(field, seq![(shown_input(si), look(Tone::Plain, false, false))])]
    };
    line_rows(o.lines@, inner.x, inner.y, inner.width) + seq![prefix] + tail
}

/// Where the caret of a prompt goes. With nothing entered: the start of
/// the field, if it has a cell. Otherwise the shown input is one unit the
/// caret cannot enter: the caret goes to its nearer edge (its end on a tie)
/// and stays inside the field.
pub open spec fn prompt_cursor(area: Area, o: OverlayState, si: OverlaySecureInput) -> Option<(u16, u16)> {
    let field = input_area(area, o, si);
    let row = prompt_row(area, o);
    if si.chars@.len() == 0 {
        if field.width > 0 { Some((field.x, row)) } else { None }
    } else {
        let shown_cells: int = if si.mask_input { si.chars@.len() as int } else { str_cells(si.chars@) as int };
        let at = if 2 * si.cursor < si.chars@.len() { field.x } else { sat_add16(field.x as int, shown_cells) };
        let last = sat_sub16(sat_add16(field.x as int, field.width as int) as int, 1);
        Some((min16(at, last), row))
    }
}

/// The panel of a single-line prompt.
fn prompt_panel(area: Area, o: &OverlayState, si: &OverlaySecureInput) -> (v: PanelView)
    requires
        area_ok(area),
        si.cursor <= si.chars@.len(),
    ensures
        v.frame == prompt_frame(area, o.lines@.len()),
        v.title@ == panel_title(*o),
        v.title_look == accent() && v.border == muted() && !v.rounded,
        rows_view(v.rows@) == prompt_rows(area, *o, *si),
        v.cursor == prompt_cursor(area, *o, *si),
{
    let n = o.lines.len();
    let desired = sat_add(sat_add(n as u16, 1), 2);
    let frame = centered_in(area, panel_width(area), min_u16(desired, sat_sub(area.height, 2)));
    let inner = inner_area(frame);
    let mut rows: Vec<PanelRow> = Vec::new();
    let row = push_line_rows(&mut rows, &o.lines, inner.x, inner.y, inner.width);
    let mut prefix = si.label.clone();
    push_str(&mut prefix, ": ");
    let cells = str_width(prefix.as_str()) as u16;
    rows.push(single_row(
        Area { x: inner.x, y: row, width: min_u16(cells, inner.width), height: 1 },
        prefix,
        Look { tone: Tone::Secondary, bold: false, dim: false },
    ));
    let field = Area { x: sat_add(inner.x, cells), y: row, width: sat_sub(inner.width, cells), height: 1 };
    let ghost before = rows_view(rows@);
    let cursor = if si.chars.len() == 0 {
        match &si.placeholder {
            Some(p) => {
                rows.push(single_row(field, p.clone(), Look { tone: Tone::Secondary, bold: false, dim: true }));
            },
            None => {},
        }
        if field.width > 0 { Some((field.x, row)) } else { None }
    } else {
        let (shown, shown_cells) = if si.mask_input {
            let mut s = String::new();
            let mut i: usize = 0;
            while i < si.chars.len()
                invariant
                    i <= si.chars@.len(),
                    s@ == Seq::new(i as nat, |j: int| '*'),
                decreases si.chars@.len() - i,
            {
                push_char(&mut s, '*');
                proof {
                    assert(s@ =~= Seq::new((i + 1) as nat, |j: int| '*'));
                }
                i += 1;
            }
            (s, si.chars.len())
        } else {
            let s = string_of(si.chars.as_slice());
            let w = str_width(s.as_str());
            (s, w)
        };
        assert(shown@ == shown_input(*si));
        rows.push(single_row(field, shown, Look { tone: Tone::Plain, bold: false, dim: false }));
        let at = if si.cursor < si.chars.len() - si.cursor {
            field.x
        } else if shown_cells > (u16::MAX - field.x) as usize {
            u16::MAX
        } else {
            field.x + shown_cells as u16
        };
        let last = sat_sub(sat_add(field.x, field.width), 1);
        Some((min_u16(at, last), row))
    };
    proof {
        assert(rows_view(rows@) =~= prompt_rows(area, *o, *si));
    }
    let mut title = String::from_str(" ");
    push_str(&mut title, o.title.as_str());
    push_str(&mut title, " ");
    PanelView {
        frame,
        title,
        title_look: Look { tone: Tone::Primary, bold: true, dim: false },
        border: Look { tone: Tone::Secondary, bold: false, dim: false },
        rounded: false,
        rows,
        cursor,
    }
}

// ---------------------------------------------------------------------------
// The list panel
// ---------------------------------------------------------------------------

pub open spec fn plain() -> Look {
    look(Tone::Plain, false, false)
}

pub open spec fn muted() -> Look {
    look(Tone::Secondary, false, false)
}

pub open spec fn faint() -> Look {
    look(Tone::Secondary, false, true)
}

pub open spec fn accent() -> Look {
    look(Tone::Primary, true, false)
}

pub open spec fn b2i(b: bool) -> int {
    if b { 1 } else { 0 }
}

/// How many item rows fit: the area height less seven rows of chrome, at
/// least three.
pub open spec fn visible_max(area: Area) -> int {
    if area.height as int - 7 > 3 { area.height as int - 7 } else { 3 }
}

/// The number of item rows shown.
pub open spec fn shown_items(area: Area, o: OverlayState) -> int {
    let n = filtered_indices(o).len() as int;
    if n < visible_max(area) { n } else { visible_max(area) }
}

pub open spec fn has_tabs(o: OverlayState) -> bool {
    o.tabs@.len() > 1
}

/// The frame of a list panel: room for the tab bar, search bar, lines and
/// the shown items, the border and the footer; 30 to 80 cells wide.
pub open spec fn list_frame(area: Area, o: OverlayState) -> Area {
    let rows = (o.lines@.len() + shown_items(area, o) + b2i(o.search is Some) + b2i(has_tabs(o))) as u16;
    centered(area, clamp16(area.width, 30, 80), min16(sat_add16(rows as int, 3), sat_sub16(area.height as int, 2)))
}

/// The tab bar: the names two cells apart, the active one accented, the
/// others faint.
pub open spec fn tab_spans(tabs: Seq<String>, active: usize, n: int) -> Seq<(Seq<char>, Look)>
    decreases n,
{
    if n <= 0 {
        Seq::empty()
    } else {
        let gap = if n - 1 > 0 { seq![("  "@, plain())] } else { Seq::empty() };
        tab_spans(tabs, active, n - 1) + gap + seq![(tabs[n - 1]@, if n - 1 == active { accent() } else { faint() })]
    }
}

/// The search bar: `label: ` and the filter, or the faint placeholder
/// while the filter is empty.
pub open spec fn search_spans(s: OverlaySearchState) -> Seq<(Seq<char>, Look)> {
    let shown = if s.value@.len() == 0 {
        (match s.placeholder { Some(p) => p@, None => "type to filter\u{2026}"@ }, faint())
    } else {
        (s.value@, look(Tone::Foreground, false, false))
    };
    seq![(s.label@ + ": "@, muted()), shown]
}

/// The character count of the longest of the first `n` section names.
pub open spec fn longest_name(sections: Seq<String>, n: int) -> int
    decreases n,
{
    if n <= 0 {
        0
    } else {
        let l = sections[n - 1]@.len() as int;
        if l > longest_name(sections, n - 1) { l } else { longest_name(sections, n - 1) }
    }
}

/// The filter of `o` is non-empty.
pub open spec fn searching(o: OverlayState) -> bool {
    o.search matches Some(s) && s.value@.len() > 0
}

/// The section sidebar shows with two or more sections, room for it, and
/// no filter (results then cross sections).
pub open spec fn sidebar_shown(o: OverlayState, inner: Area) -> bool {
    o.sections@.len() >= 2 && inner.width >= 60 && !searching(o)
}

/// The sidebar width: the longest name (at most 22) and four cells.
pub open spec fn sidebar_width(o: OverlayState, inner: Area) -> u16 {
    if sidebar_shown(o, inner) {
        let l = longest_name(o.sections@, o.sections@.len() as int);
        ((if l < 22 { l } else { 22 }) + 4) as u16
    } else {
        0
    }
}

/// The highlighted section: with the sidebar, the one the selected row
/// belongs to (the stored one when the row has none); else the stored one.
pub open spec fn active_section(o: OverlayState, inner: Area) -> int {
    if sidebar_shown(o, inner) {
        match section_of(o, o.selected as int) {
            Some(k) => k,
            None => o.active_section as int,
        }
    } else {
        o.active_section as int
    }
}

/// The sidebar rows from row `y0` down: a `> ` marker and accent on the
/// active section.
pub open spec fn sidebar_rows(o: OverlayState, inner: Area, y0: u16) -> Seq<(Area, Seq<(Seq<char>, Look)>)> {
    let act = active_section(o, inner);
    Seq::new(o.sections@.len(), |i: int| {
        let st = if i == act { accent() } else { muted() };
        (line_area(inner.x, sat_add16(y0 as int, i), sidebar_width(o, inner)),
            seq![(if i == act { "> "@ } else { "  "@ }, st), (o.sections@[i]@, st)])
    })
}

/// The first filtered position shown: the window keeps the selected row
/// in its middle where it can, and stays within the list.
pub open spec fn first_visible(pos: int, len: int, vm: int) -> int {
    let a = if pos - vm / 2 > 0 { pos - vm / 2 } else { 0 };
    let b = if len - vm > 0 { len - vm } else { 0 };
    if a < b { a } else { b }
}

/// `n` spaces.
pub open spec fn spaces(n: int) -> Seq<char> {
    Seq::new(if n < 0 { 0 } else { n as nat }, |i: int| ' ')
}

/// The spans of item `idx`: a `> ` marker and accent when selected (else
/// the foreground color), the indent, the title, then the faint badge and
/// the muted subtitle, each two cells apart; `dim` dims the first three.
pub open spec fn item_spans(o: OverlayState, idx: int, dim: bool) -> Seq<(Seq<char>, Look)> {
    let item = o.items@[idx];
    let sel = idx == o.selected;
    let st = Look { tone: if sel { Tone::Primary } else { Tone::Foreground }, bold: sel, dim };
    let badge = match item.badge { Some(b) => seq![("  "@, plain()), (b@, faint())], None => Seq::empty() };
    let sub = match item.subtitle { Some(t) => seq![("  "@, plain()), (t@, muted())], None => Seq::empty() };
    seq![(if sel { "> "@ } else { "  "@ }, st), (spaces(2 * item.indent), st), (item.title@, st)] + badge + sub
}

/// Item `idx` is dimmed: the sidebar is up and the row lies in another
/// section than the active one.
pub open spec fn item_dimmed(o: OverlayState, inner: Area, idx: int) -> bool {
    sidebar_shown(o, inner) && (section_of(o, idx) matches Some(k) && k != active_section(o, inner))
}

/// The item rows from row `y0` down, right of the sidebar.
pub open spec fn item_rows(area: Area, o: OverlayState, inner: Area, y0: u16) -> Seq<(Area, Seq<(Seq<char>, Look)>)> {
    let f = filtered_indices(o);
    let fv = first_visible(position_or_zero(f, o.selected), f.len() as int, visible_max(area));
    let x = sat_add16(inner.x as int, sidebar_width(o, inner) as int);
    let w = sat_sub16(inner.width as int, sidebar_width(o, inner) as int);
    Seq::new(shown_items(area, o) as nat, |k: int| {
        let idx = f[fv + k] as int;
        (line_area(x, sat_add16(y0 as int, k), w), item_spans(o, idx, item_dimmed(o, inner, idx)))
    })
}

/// The footer's key help: how to commit a choice when a row can be
/// chosen (and switch tabs with a tab bar), and always how to leave.
pub open spec fn hint_text(o: OverlayState) -> Seq<char> {
    if exists|i: int| 0 <= i < o.items@.len() && (#[trigger] o.items@[i]).selection is Some {
        if has_tabs(o) {
            "Enter select | Up/Down move | \u{2190}/\u{2192} tabs | Esc close"@
        } else {
            "Enter select | Up/Down move | Esc close"@
        }
    } else {
        "Esc close"@
    }
}

/// The footer on the last inner row, when the content ended above it.
pub open spec fn hint_rows(o: OverlayState, inner: Area, y: u16) -> Seq<(Area, Seq<(Seq<char>, Look)>)> {
    let bottom = sat_add16(inner.y as int, inner.height as int);
    if y < bottom {
        seq![(line_area(inner.x, sat_sub16(bottom as int, 1), inner.width), seq![(hint_text(o), faint())])]
    } else {
        Seq::empty()
    }
}

/// The rows of a list panel, top down: tab bar (more than one tab), search
/// bar, lines, sidebar; then the shown items, or `(no matches)` /
/// `(no items)`, and the footer. A key-capture prompt without items shows
/// neither placeholder nor footer.
pub open spec fn list_rows(area: Area, o: OverlayState) -> Seq<(Area, Seq<(Seq<char>, Look)>)> {
    let inner = inner_of(list_frame(area, o));
    let y3 = list_body_top(area, o);
    let side = if sidebar_shown(o, inner) { sidebar_rows(o, inner, y3) } else { Seq::empty() };
    let head = list_head(area, o) + side;
    if filtered_indices(o).len() == 0 {
        if o.key_capture is Some {
            head
        } else {
            let empty = if o.search is Some { "  (no matches)"@ } else { "  (no items)"@ };
            head + seq![(line_area(inner.x, y3, inner.width), seq![(empty, faint())])] + hint_rows(o, inner, y3)
        }
    } else {
        head + item_rows(area, o, inner, y3) + hint_rows(o, inner, sat_add16(y3 as int, shown_items(area, o)))
    }
}

/// The first row below the tab bar, the search bar and the lines.
pub open spec fn list_body_top(area: Area, o: OverlayState) -> u16 {
    let inner = inner_of(list_frame(area, o));
    let y1 = if has_tabs(o) { sat_add16(inner.y as int, 1) } else { inner.y };
    let y2 = if o.search is Some { sat_add16(y1 as int, 1) } else { y1 };
    sat_add16(y2 as int, o.lines@.len() as int)
}

/// The tab bar (more than one tab), the search bar and the lines.
pub open spec fn list_head(area: Area, o: OverlayState) -> Seq<(Area, Seq<(Seq<char>, Look)>)> {
    let inner = inner_of(list_frame(area, o));
    let tabs = if has_tabs(o) {
        seq![(line_area(inner.x, inner.y, inner.width), tab_spans(o.tabs@, o.active_tab, o.tabs@.len() as int))]
    } else {
        Seq::empty()
    };
    let y1 = if has_tabs(o) { sat_add16(inner.y as int, 1) } else { inner.y };
    let search = match o.search {
        Some(s) => seq![(line_area(inner.x, y1, inner.width), search_spans(s))],
        None => Seq::empty(),
    };
    let y2 = if o.search is Some { sat_add16(y1 as int, 1) } else { y1 };
    tabs + search + line_rows(o.lines@, inner.x, y2, inner.width)
}

/// The view of an overlay panel in `area`: the prompt panel when the
/// overlay carries a single-line prompt, else the list panel (no caret).
pub open spec fn panel_ok(area: Area, o: OverlayState, v: PanelView) -> bool {
    &&& v.title@ == panel_title(o)
    &&& v.title_look == accent() && v.border == muted() && !v.rounded
    &&& match o.secure_input {
        Some(si) => {
            &&& v.frame == prompt_frame(area, o.lines@.len())
            &&& rows_view(v.rows@) == prompt_rows(area, o, si)
            &&& v.cursor == prompt_cursor(area, o, si)
        },
        None => {
            &&& v.frame == list_frame(area, o)
            &&& rows_view(v.rows@) == list_rows(area, o)
            &&& v.cursor is None
        },
    }
}

fn push_span(spans: &mut Vec<PanelSpan>, text: String, l: Look)
    ensures
        spans_view(final(spans)@) == spans_view(old(spans)@).push((text@, l)),
{
    let ghost before = spans@;
    spans.push(PanelSpan { text, look: l });
    assert(spans_view(spans@) =~= spans_view(before).push((text@, l)));
}

fn push_row(rows: &mut Vec<PanelRow>, r: PanelRow)
    ensures
        rows_view(final(rows)@) == rows_view(old(rows)@).push(r@),
{
    let ghost before = rows@;
    let ghost rv = r@;
    rows.push(r);
    assert(rows_view(rows@) =~= rows_view(before).push(rv));
}

fn tab_bar(tabs: &Vec<String>, active: usize) -> (spans: Vec<PanelSpan>)
    ensures
        spans_view(spans@) == tab_spans(tabs@, active, tabs@.len() as int),
{
    let mut spans: Vec<PanelSpan> = Vec::new();
    let mut i: usize = 0;
    while i < tabs.len()
        invariant
            i <= tabs@.len(),
            spans_view(spans@) == tab_spans(tabs@, active, i as int),
        decreases tabs@.len() - i,
    {
        if i > 0 {
            push_span(&mut spans, String::from_str("  "), Look { tone: Tone::Plain, bold: false, dim: false });
        }
        let l = if i == active {
            Look { tone: Tone::Primary, bold: true, dim: false }
        } else {
            Look { tone: Tone::Secondary, bold: false, dim: true }
        };
        push_span(&mut spans, tabs[i].clone(), l);
        proof {
            assert(tab_spans(tabs@, active, i + 1) =~= tab_spans(tabs@, active, i as int)
                + (if i > 0 { seq![("  "@, plain())] } else { Seq::empty() }) + seq![(tabs@[i as int]@, l)]);
        }
        i += 1;
    }
    spans
}

fn search_bar(s: &OverlaySearchState) -> (spans: Vec<PanelSpan>)
    ensures
        spans_view(spans@) == search_spans(*s),
{
    let mut spans: Vec<PanelSpan> = Vec::new();
    let mut label = s.label.clone();
    push_str(&mut label, ": ");
    push_span(&mut spans, label, Look { tone: Tone::Secondary, bold: false, dim: false });
    if s.value.as_str().is_empty() {
        let p = match &s.placeholder {
            Some(p) => p.clone(),
            None => String::from_str("type to filter\u{2026}"),
        };
        push_span(&mut spans, p, Look { tone: Tone::Secondary, bold: false, dim: true });
    } else {
        push_span(&mut spans, s.value.clone(), Look { tone: Tone::Foreground, bold: false, dim: false });
    }
    proof {
        assert(spans_view(spans@) =~= search_spans(*s));
    }
    spans
}

fn spaces_string(n: usize) -> (out: String)
    ensures
        out@ == spaces(n as int),
{
    let mut out = String::new();
    let mut i: usize = 0;
    while i < n
        invariant
            i <= n,
            out@ == spaces(i as int),
        decreases n - i,
    {
        push_char(&mut out, ' ');
        proof {
            assert(out@ =~= spaces(i + 1));
        }
        i += 1;
    }
    out
}

fn item_row_spans(o: &OverlayState, idx: usize, dim: bool) -> (spans: Vec<PanelSpan>)
    requires
        idx < o.items@.len(),
    ensures
        spans_view(spans@) == item_spans(*o, idx as int, dim),
{
    let item = &o.items[idx];
    let sel = idx == o.selected;
    let st = Look { tone: if sel { Tone::Primary } else { Tone::Foreground }, bold: sel, dim };
    let mut spans: Vec<PanelSpan> = Vec::new();
    push_span(&mut spans, String::from_str(if sel { "> " } else { "  " }), st);
    push_span(&mut spans, spaces_string(2 * (item.indent as usize)), st);
    push_span(&mut spans, item.title.clone(), st);
    match &item.badge {
        Some(b) => {
            push_span(&mut spans, String::from_str("  "), Look { tone: Tone::Plain, bold: false, dim: false });
            push_span(&mut spans, b.clone(), Look { tone: Tone::Secondary, bold: false, dim: true });
        },
        None => {},
    }
    match &item.subtitle {
        Some(t) => {
            push_span(&mut spans, String::from_str("  "), Look { tone: Tone::Plain, bold: false, dim: false });
            push_span(&mut spans, t.clone(), Look { tone: Tone::Secondary, bold: false, dim: false });
        },
        None => {},
    }
    proof {
        assert(spans_view(spans@) =~= item_spans(*o, idx as int, dim));
    }
    spans
}

fn longest_section(sections: &Vec<String>) -> (l: usize)
    ensures
        l as int == longest_name(sections@, sections@.len() as int),
{
    let mut l: usize = 0;
    let mut i: usize = 0;
    while i < sections.len()
        invariant
            i <= sections@.len(),
            l as int == longest_name(sections@, i as int),
        decreases sections@.len() - i,
    {
        let n = chars_of(sections[i].as_str()).len();
        if n > l {
            l = n;
        }
        i += 1;
    }
    l
}

fn push_sidebar(rows: &mut Vec<PanelRow>, o: &OverlayState, inner: Area, y0: u16, width: u16, act: usize)
    requires
        sidebar_shown(*o, inner),
        width == sidebar_width(*o, inner),
        act as int == active_section(*o, inner),
    ensures
        rows_view(final(rows)@) == rows_view(old(rows)@) + sidebar_rows(*o, inner, y0),
{
    let ghost start = rows_view(rows@);
    let ghost want = sidebar_rows(*o, inner, y0);
    let mut y = y0;
    let mut i: usize = 0;
    while i < o.sections.len()
        invariant
            i <= o.sections@.len(),
            y == sat_add16(y0 as int, i as int),
            want == sidebar_rows(*o, inner, y0),
            sidebar_shown(*o, inner),
            width == sidebar_width(*o, inner),
            act as int == active_section(*o, inner),
            rows_view(rows@) == start + want.take(i as int),
        decreases o.sections@.len() - i,
    {
        let st = if i == act {
            Look { tone: Tone::Primary, bold: true, dim: false }
        } else {
            Look { tone: Tone::Secondary, bold: false, dim: false }
        };
        let mut spans: Vec<PanelSpan> = Vec::new();
        push_span(&mut spans, String::from_str(if i == act { "> " } else { "  " }), st);
        push_span(&mut spans, o.sections[i].clone(), st);
        let r = PanelRow { area: Area { x: inner.x, y, width, height: 1 }, spans };
        assert(r@ =~= want[i as int]);
        push_row(rows, r);
        proof {
            assert(want.take(i + 1) =~= want.take(i as int).push(want[i as int]));
        }
        y = sat_add(y, 1);
        i += 1;
    }
    assert(want.take(o.sections@.len() as int) =~= want);
}

fn push_items(
    rows: &mut Vec<PanelRow>,
    area: Area,
    o: &OverlayState,
    inner: Area,
    y0: u16,
    filtered: &Vec<usize>,
    vm: usize,
    sidebar: bool,
    width: u16,
    act: usize,
) -> (y: u16)
    requires
        filtered@ == filtered_indices(*o),
        vm as int == visible_max(area),
        sidebar == sidebar_shown(*o, inner),
        width == sidebar_width(*o, inner),
        act as int == active_section(*o, inner),
        forall|k: int| 0 <= k < filtered@.len() ==> (filtered@[k] as int) < o.items@.len(),
    ensures
        rows_view(final(rows)@) == rows_view(old(rows)@) + item_rows(area, *o, inner, y0),
        y == sat_add16(y0 as int, shown_items(area, *o)),
{
    let ghost start = rows_view(rows@);
    let ghost want = item_rows(area, *o, inner, y0);
    let len = filtered.len();
    let pos = position_of(filtered, o.selected);
    let a = if pos > vm / 2 { pos - vm / 2 } else { 0 };
    let b = if len > vm { len - vm } else { 0 };
    let fv = if a < b { a } else { b };
    let count = if len < vm { len } else { vm };
    let x = sat_add(inner.x, width);
    let w = sat_sub(inner.width, width);
    assert(fv as int == first_visible(position_or_zero(filtered@, o.selected), len as int, vm as int));
    assert(count as int == shown_items(area, *o));
    let mut y = y0;
    let mut k: usize = 0;
    while k < count
        invariant
            k <= count,
            count as int == shown_items(area, *o),
            fv + count <= len == filtered@.len(),
            fv as int == first_visible(position_or_zero(filtered@, o.selected), len as int, vm as int),
            filtered@ == filtered_indices(*o),
            vm as int == visible_max(area),
            x == sat_add16(inner.x as int, sidebar_width(*o, inner) as int),
            w == sat_sub16(inner.width as int, sidebar_width(*o, inner) as int),
            sidebar == sidebar_shown(*o, inner),
            act as int == active_section(*o, inner),
            forall|j: int| 0 <= j < filtered@.len() ==> (filtered@[j] as int) < o.items@.len(),
            y == sat_add16(y0 as int, k as int),
            want == item_rows(area, *o, inner, y0),
            rows_view(rows@) == start + want.take(k as int),
        decreases count - k,
    {
        let idx = filtered[fv + k];
        let dim = sidebar && match item_section_idx(o, idx) {
            Some(sec) => sec != act,
            None => false,
        };
        assert(dim == item_dimmed(*o, inner, idx as int));
        let spans = item_row_spans(o, idx, dim);
        let r = PanelRow { area: Area { x, y, width: w, height: 1 }, spans };
        assert(r@ =~= want[k as int]);
        push_row(rows, r);
        proof {
            assert(want.take(k + 1) =~= want.take(k as int).push(want[k as int]));
        }
        y = sat_add(y, 1);
        k += 1;
    }
    assert(want.take(count as int) =~= want);
    y
}

fn footer(o: &OverlayState) -> (t: String)
    ensures
        t@ == hint_text(*o),
{
    let mut any = false;
    let mut i: usize = 0;
    while i < o.items.len()
        invariant
            i <= o.items@.len(),
            any <==> exists|j: int| 0 <= j < i && (#[trigger] o.items@[j]).selection is Some,
        decreases o.items@.len() - i,
    {
        if o.items[i].selection.is_some() {
            any = true;
        }
        i += 1;
    }
    if any {
        if o.tabs.len() > 1 {
            String::from_str("Enter select | Up/Down move | \u{2190}/\u{2192} tabs | Esc close")
        } else {
            String::from_str("Enter select | Up/Down move | Esc close")
        }
    } else {
        String::from_str("Esc close")
    }
}

fn push_hint(rows: &mut Vec<PanelRow>, o: &OverlayState, inner: Area, y: u16)
    ensures
        rows_view(final(rows)@) == rows_view(old(rows)@) + hint_rows(*o, inner, y),
{
    let bottom = sat_add(inner.y, inner.height);
    if y < bottom {
        push_row(rows, single_row(
            Area { x: inner.x, y: sat_sub(bottom, 1), width: inner.width, height: 1 },
            footer(o),
            Look { tone: Tone::Secondary, bold: false, dim: true },
        ));
    }
    assert(rows_view(rows@) =~= rows_view(old(rows)@) + hint_rows(*o, inner, y));
}

fn list_frame_of(area: Area, o: &OverlayState, filtered: &Vec<usize>) -> (r: (Area, usize))
    requires
        area_ok(area),
        filtered@ == filtered_indices(*o),
        filtered@.len() <= o.items@.len(),
        o.lines@.len() + o.items@.len() + 2 <= usize::MAX,
    ensures
        r.0 == list_frame(area, *o),
        r.1 as int == visible_max(area),
{
    let h = area.height as usize;
    let vm: usize = if h > 10 { h - 7 } else { 3 };
    let shown = if filtered.len() < vm { filtered.len() } else { vm };
    let content = o.lines.len() + shown + (if o.search.is_some() { 1usize } else { 0 }) + (if o.tabs.len() > 1 { 1usize } else { 0 });
    (centered_in(area, panel_width(area), min_u16(sat_add(content as u16, 3), sat_sub(area.height, 2))), vm)
}

fn push_list_head(rows: &mut Vec<PanelRow>, area: Area, o: &OverlayState, inner: Area) -> (y: u16)
    requires
        inner == inner_of(list_frame(area, *o)),
        old(rows)@.len() == 0,
    ensures
        rows_view(final(rows)@) == list_head(area, *o),
        y == list_body_top(area, *o),
{
    let mut y = inner.y;
    if o.tabs.len() > 1 {
        let spans = tab_bar(&o.tabs, o.active_tab);
        push_row(rows, PanelRow { area: Area { x: inner.x, y, width: inner.width, height: 1 }, spans });
        y = sat_add(y, 1);
    }
    match &o.search {
        Some(s) => {
            let spans = search_bar(s);
            push_row(rows, PanelRow { area: Area { x: inner.x, y, width: inner.width, height: 1 }, spans });
            y = sat_add(y, 1);
        },
        None => {},
    }
    let y3 = push_line_rows(rows, &o.lines, inner.x, y, inner.width);
    assert(rows_view(rows@) =~= list_head(area, *o));
    y3
}

fn sidebar_layout(o: &OverlayState, inner: Area) -> (r: (bool, u16, usize))
    ensures
        r.0 == sidebar_shown(*o, inner),
        r.1 == sidebar_width(*o, inner),
        r.2 as int == active_section(*o, inner),
{
    let searching = match &o.search {
        Some(s) => !s.value.as_str().is_empty(),
        None => false,
    };
    let sidebar = o.sections.len() >= 2 && inner.width >= 60 && !searching;
    let width: u16 = if sidebar {
        let l = longest_section(&o.sections);
        ((if l < 22 { l } else { 22 }) + 4) as u16
    } else {
        0
    };
    let act: usize = if sidebar {
        match item_section_idx(o, o.selected) {
            Some(k) => k,
            None => o.active_section,
        }
    } else {
        o.active_section
    };
    (sidebar, width, act)
}

#[verifier::spinoff_prover]
fn list_panel(area: Area, o: &OverlayState) -> (v: PanelView)
    requires
        area_ok(area),
        o.secure_input is None,
        o.lines@.len() + o.items@.len() + 2 <= usize::MAX,
    ensures
        panel_ok(area, *o, v),
{
    let filtered = overlay_filtered_indices(o);
    proof {
        crate::overlay::lemma_filtered_from_bounds(o.items@, crate::overlay::overlay_needle(*o), o.items@.len() as int);
    }
    let (frame, vm) = list_frame_of(area, o, &filtered);
    let inner = inner_area(frame);
    let mut rows: Vec<PanelRow> = Vec::new();
    let y3 = push_list_head(&mut rows, area, o, inner);
    let (sidebar, width, act) = sidebar_layout(o, inner);
    if sidebar {
        push_sidebar(&mut rows, o, inner, y3, width, act);
    }
    if filtered.len() == 0 {
        if o.key_capture.is_none() {
            let empty = if o.search.is_some() { "  (no matches)" } else { "  (no items)" };
            push_row(&mut rows, single_row(
                Area { x: inner.x, y: y3, width: inner.width, height: 1 },
                String::from_str(empty),
                Look { tone: Tone::Secondary, bold: false, dim: true },
            ));
            push_hint(&mut rows, o, inner, y3);
        }
    } else {
        let y4 = push_items(&mut rows, area, o, inner, y3, &filtered, vm, sidebar, width, act);
        push_hint(&mut rows, o, inner, y4);
    }
    proof {
        assert(rows_view(rows@) =~= list_rows(area, *o));
    }
    let mut title = String::from_str(" ");
    push_str(&mut title, o.title.as_str());
    push_str(&mut title, " ");
    PanelView {
        frame,
        title,
        title_look: Look { tone: Tone::Primary, bold: true, dim: false },
        border: Look { tone: Tone::Secondary, bold: false, dim: false },
        rounded: false,
        rows,
        cursor: None,
    }
}

/// What an open overlay shows in `area`: a prompt panel for a
/// single-line prompt, else a list panel (see `panel_ok`).
pub fn render_overlay(area: Area, overlay: &OverlayState) -> (v: PanelView)
    requires
        area_ok(area),
        overlay.lines@.len() + overlay.items@.len() + 2 <= usize::MAX,
        overlay.secure_input matches Some(si) ==> si.cursor <= si.chars@.len(),
    ensures
        panel_ok(area, *overlay, v),
{
    match &overlay.secure_input {
        Some(si) => prompt_panel(area, overlay, si),
        None => list_panel(area, overlay),
    }
}

// ---------------------------------------------------------------------------
// The quit / removal confirmation
// ---------------------------------------------------------------------------

/// The confirmation box: wide enough for its title and message (at least
/// 36 cells) plus four, five rows high, centered; rounded, in the error
/// color, the message on the second inner row.
pub open spec fn confirmation_ok(area: Area, c: ModalConfirmation, v: PanelView) -> bool {
    let inner_w = confirmation_inner_width(c);
    let frame = centered(area, (inner_w + 4) as u16, 5);
    let inner = inner_of(frame);
    &&& v.frame == frame
    &&& v.title@ == " "@ + c.title@ + " "@
    &&& v.title_look == look(Tone::Error, true, false)
    &&& v.border == look(Tone::Error, false, false)
    &&& v.rounded
    &&& rows_view(v.rows@) == seq![(line_area(inner.x, sat_add16(inner.y as int, 1), inner.width),
            seq![(c.message@, look(Tone::Foreground, false, false))])]
    &&& v.cursor is None
}

/// The inner width of the confirmation box: the longer of its title and
/// message in characters, at least 36, taken as a `u16` (the count
/// truncated to its low 16 bits).
pub open spec fn confirmation_inner_width(c: ModalConfirmation) -> u16 {
    let l = if c.title@.len() > c.message@.len() { c.title@.len() as int } else { c.message@.len() as int };
    (if l > 36 { l } else { 36 }) as u16
}

/// The view of a pending confirmation in `area`.
pub fn render_confirmation(area: Area, confirm: &ModalConfirmation) -> (v: PanelView)
    requires
        area_ok(area),
        confirmation_inner_width(*confirm) + 4 <= u16::MAX,
    ensures
        confirmation_ok(area, *confirm, v),
{
    let t = chars_of(confirm.title.as_str()).len();
    let m = chars_of(confirm.message.as_str()).len();
    let l = if t > m { t } else { m };
    let inner_w = (if l > 36 { l } else { 36 }) as u16;
    let frame = centered_in(area, inner_w + 4, 5);
    let inner = inner_area(frame);
    let mut rows: Vec<PanelRow> = Vec::new();
    push_row(&mut rows, single_row(
        Area { x: inner.x, y: sat_add(inner.y, 1), width: inner.width, height: 1 },
        confirm.message.clone(),
        Look { tone: Tone::Foreground, bold: false, dim: false },
    ));
    assert(rows_view(rows@) =~= seq![(line_area(inner.x, sat_add16(inner.y as int, 1), inner.width),
            seq![(confirm.message@, look(Tone::Foreground, false, false))])]);
    let mut title = String::from_str(" ");
    push_str(&mut title, confirm.title.as_str());
    push_str(&mut title, " ");
    PanelView {
        frame,
        title,
        title_look: Look { tone: Tone::Error, bold: true, dim: false },
        border: Look { tone: Tone::Error, bold: false, dim: false },
        rounded: true,
        rows,
        cursor: None,
    }
}

// ---------------------------------------------------------------------------
// The slash-command popup
// ---------------------------------------------------------------------------

/// The popup shows at most seven commands.
pub open spec fn popup_visible(p: SlashPopup) -> int {
    if p.items@.len() < 7 { p.items@.len() as int } else { 7 }
}

/// The character count of the longest of the first `n` labels.
pub open spec fn longest_label(p: SlashPopup, n: int) -> int
    decreases n,
{
    if n <= 0 {
        0
    } else {
        let l = p.items@[n - 1].label@.len() as int;
        if l > longest_label(p, n - 1) { l } else { longest_label(p, n - 1) }
    }
}

proof fn lemma_longest_label(p: SlashPopup, n: int, k: int)
    requires
        0 <= k < n <= p.items@.len(),
    ensures
        p.items@[k].label@.len() <= longest_label(p, n),
    decreases n,
{
    if k < n - 1 {
        lemma_longest_label(p, n - 1, k);
    }
}

/// `s` padded with spaces to `w` characters.
pub open spec fn padded(s: Seq<char>, w: int) -> Seq<char> {
    s + spaces(w - s.len())
}

/// The popup frame: above the composer, growing upward, as high as the
/// shown commands, the border and the footer, at most 64 cells wide.
pub open spec fn popup_frame(composer: Area, p: SlashPopup) -> Area {
    let h = (popup_visible(p) + 3) as u16;
    Area { x: composer.x, y: sat_sub16(composer.y as int, h as int), width: min16(composer.width, 64), height: h }
}

/// One command row: marker and label (padded to the longest shown label)
/// accented when selected, then the muted description.
pub open spec fn popup_row(composer: Area, p: SlashPopup, i: int) -> (Area, Seq<(Seq<char>, Look)>) {
    let inner = inner_of(popup_frame(composer, p));
    let sel = i == p.selected;
    let st = if sel { accent() } else { look(Tone::Foreground, false, false) };
    (line_area(inner.x, sat_add16(inner.y as int, i), inner.width),
        seq![(if sel { "> "@ } else { "  "@ }, st), (padded(p.items@[i].label@, longest_label(p, popup_visible(p))), st),
            ("  "@, plain()), (p.items@[i].description@, muted())])
}

/// The popup rows: the shown commands, then the key help on the last
/// inner row.
pub open spec fn popup_rows(composer: Area, p: SlashPopup) -> Seq<(Area, Seq<(Seq<char>, Look)>)> {
    let inner = inner_of(popup_frame(composer, p));
    Seq::new(popup_visible(p) as nat, |i: int| popup_row(composer, p, i))
        + seq![(line_area(inner.x, sat_sub16(sat_add16(inner.y as int, inner.height as int) as int, 1), inner.width),
            seq![("Enter insert | Up/Down move | Esc close"@, faint())])]
}

/// The view of the slash-command popup above `composer`; `None` without
/// commands to show.
pub fn render_slash_popup(composer: Area, popup: &SlashPopup) -> (v: Option<PanelView>)
    ensures
        popup.items@.len() == 0 <==> v is None,
        v matches Some(v) ==> {
            &&& v.frame == popup_frame(composer, *popup)
            &&& v.title@ == " COMMANDS "@
            &&& v.title_look == accent() && v.border == muted() && !v.rounded
            &&& rows_view(v.rows@) == popup_rows(composer, *popup)
            &&& v.cursor is None
        },
{
    if popup.items.len() == 0 {
        return None;
    }
    let visible = if popup.items.len() < 7 { popup.items.len() } else { 7 };
    let h = visible as u16 + 3;
    let frame = Area { x: composer.x, y: sat_sub(composer.y, h), width: min_u16(composer.width, 64), height: h };
    let inner = inner_area(frame);
    let mut widest: usize = 0;
    let mut i: usize = 0;
    while i < visible
        invariant
            i <= visible == popup_visible(*popup),
            widest as int == longest_label(*popup, i as int),
        decreases visible - i,
    {
        let n = chars_of(popup.items[i].label.as_str()).len();
        if n > widest {
            widest = n;
        }
        i += 1;
    }
    let mut rows: Vec<PanelRow> = Vec::new();
    let mut k: usize = 0;
    while k < visible
        invariant
            k <= visible == popup_visible(*popup),
            widest as int == longest_label(*popup, visible as int),
            frame == popup_frame(composer, *popup),
            inner == inner_of(frame),
            rows_view(rows@) == Seq::new(k as nat, |j: int| popup_row(composer, *popup, j)),
        decreases visible - k,
    {
        let item = &popup.items[k];
        let sel = k == popup.selected;
        let st = if sel {
            Look { tone: Tone::Primary, bold: true, dim: false }
        } else {
            Look { tone: Tone::Foreground, bold: false, dim: false }
        };
        proof {
            lemma_longest_label(*popup, visible as int, k as int);
        }
        let mut label = item.label.clone();
        let pad = spaces_string(widest - chars_of(item.label.as_str()).len());
        push_str(&mut label, pad.as_str());
        let mut spans: Vec<PanelSpan> = Vec::new();
        push_span(&mut spans, String::from_str(if sel { "> " } else { "  " }), st);
        push_span(&mut spans, label, st);
        push_span(&mut spans, String::from_str("  "), Look { tone: Tone::Plain, bold: false, dim: false });
        push_span(&mut spans, item.description.clone(), Look { tone: Tone::Secondary, bold: false, dim: false });
        let r = PanelRow { area: Area { x: inner.x, y: sat_add(inner.y, k as u16), width: inner.width, height: 1 }, spans };
        assert(r@ =~= popup_row(composer, *popup, k as int));
        push_row(&mut rows, r);
        proof {
            assert(Seq::new((k + 1) as nat, |j: int| popup_row(composer, *popup, j))
                =~= Seq::new(k as nat, |j: int| popup_row(composer, *popup, j)).push(popup_row(composer, *popup, k as int)));
        }
        k += 1;
    }
    let bottom = sat_add(inner.y, inner.height);
    push_row(&mut rows, single_row(
        Area { x: inner.x, y: sat_sub(bottom, 1), width: inner.width, height: 1 },
        String::from_str("Enter insert | Up/Down move | Esc close"),
        Look { tone: Tone::Secondary, bold: false, dim: true },
    ));
    assert(rows_view(rows@) =~= popup_rows(composer, *popup));
    Some(PanelView {
        frame,
        title: String::from_str(" COMMANDS "),
        title_look: Look { tone: Tone::Primary, bold: true, dim: false },
        border: Look { tone: Tone::Secondary, bold: false, dim: false },
        rounded: false,
        rows,
        cursor: None,
    })
}

} // verus!
