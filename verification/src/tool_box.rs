//! The bordered box a tool call is drawn in: display-width arithmetic,
//! hard wrapping, tab expansion, and the border rows.
use vstd::prelude::*;

use unicode_width::UnicodeWidthChar;
use unicode_width::UnicodeWidthStr;

use crate::text::{chars_of, push_char, push_str, string_of};
use crate::transcript::{
    rows_view, segs_view, split_at_newlines, split_lines, Color, InlineSegment, InlineTextStyle,
    SegmentView,
};

verus! {

/// The display width the `unicode-width` tables give one character (`None`
/// for control characters).
pub uninterp spec fn char_cells(c: char) -> Option<usize>;

/// The display width the `unicode-width` tables give a whole string. It is
/// not the sum of the character widths: some sequences combine.
pub uninterp spec fn str_cells(s: Seq<char>) -> usize;

/// `UnicodeWidthChar::width`: `None` exactly for the C0 and C1 control
/// characters (below U+0020, and U+007F up to U+00A0), 1 for the other
/// ASCII characters, and never more than 3 columns; otherwise the value of
/// the crate's width tables, which is not written out here.
#[verifier::external_body]
fn char_width(c: char) -> (r: Option<usize>)
    ensures
        r == char_cells(c),
        r is None <==> ((c as u32) < 0x20 || (0x7F <= (c as u32) && (c as u32) < 0xA0)),
        (0x20 <= (c as u32) && (c as u32) < 0x7F) ==> r == Some(1usize),
        r matches Some(w) ==> w <= 3,
{
    c.width()
}

/// `UnicodeWidthStr::width`: the display width of `s` as the crate
/// computes it; nothing more is stated of it.
#[verifier::external_body]
pub fn str_width(s: &str) -> (r: usize)
    ensures
        r == str_cells(s@),
{
    s.width()
}

/// Width of a character inside a wrapped row: control characters take no
/// cell.
pub open spec fn cells_or_zero(c: char) -> int {
    match char_cells(c) {
        Some(w) => w as int,
        None => 0,
    }
}

/// The display width of `c`, counting control characters as zero.
pub fn char_width_or_zero(c: char) -> (w: usize)
    ensures
        w as int == cells_or_zero(c),
        w <= 3,
{
    match char_width(c) {
        Some(w) => w,
        None => 0,
    }
}

/// Greedy wrapping state after the characters `cs`: finished chunks, the
/// chunk being filled, and its width. A character that would push a
/// non-empty chunk past `inner` starts a new chunk.
pub open spec fn wrap_state(cs: Seq<char>, inner: int) -> (Seq<Seq<char>>, Seq<char>, int)
    decreases cs.len(),
{
    if cs.len() == 0 {
        (Seq::empty(), Seq::empty(), 0)
    } else {
        let (out, cur, cur_w) = wrap_state(cs.drop_last(), inner);
        let c = cs.last();
        let w = cells_or_zero(c);
        if cur_w + w > inner && cur.len() > 0 {
            (out.push(cur), seq![c], w)
        } else {
            (out, cur.push(c), cur_w + w)
        }
    }
}

/// `line` hard-wrapped into chunks of at most `inner` display cells (a
/// chunk holds at least one character); a line that fits stays whole.
pub open spec fn wrapped(line: Seq<char>, inner: int) -> Seq<Seq<char>> {
    if str_cells(line) <= inner {
        seq![line]
    } else {
        let (out, cur, _w) = wrap_state(line, inner);
        if cur.len() > 0 {
            out.push(cur)
        } else {
            out
        }
    }
}

/// The views of a list of strings.
pub open spec fn strings_view(v: Seq<String>) -> Seq<Seq<char>> {
    v.map_values(|s: String| s@)
}

/// Hard-wraps `line` into chunks of at most `inner` display cells; wide
/// characters count double and zero-width ones never break a chunk.
pub fn wrap_by_display_width(line: &str, inner: usize) -> (out: Vec<String>)
    ensures
        strings_view(out@) == wrapped(line@, inner as int),
{
    if str_width(line) <= inner {
        let mut v: Vec<String> = Vec::new();
        v.push(String::from_str(line));
        assert(strings_view(v@) =~= seq![line@]);
        return v;
    }
    let cs = chars_of(line);
    let mut out: Vec<String> = Vec::new();
    let mut cur: Vec<char> = Vec::new();
    let mut cur_w: usize = 0;
    let mut i: usize = 0;
    while i < cs.len()
        invariant
            i <= cs.len(),
            cs@ == line@,
            (strings_view(out@), cur@, cur_w as int) == wrap_state(cs@.take(i as int), inner as int),
            cur_w <= (if inner > 3 { inner } else { 3 }),
        decreases cs.len() - i,
    {
        let c = cs[i];
        let w = match char_width(c) {
            Some(w) => w,
            None => 0,
        };
        assert(cs@.take(i + 1).drop_last() =~= cs@.take(i as int));
        if (cur_w > inner || w > inner - cur_w) && cur.len() > 0 {
            let chunk = string_of(cur.as_slice());
            let ghost before = out@;
            out.push(chunk);
            assert(strings_view(out@) =~= strings_view(before).push(cur@));
            cur = Vec::new();
            cur.push(c);
            assert(cur@ =~= seq![c]);
            cur_w = w;
        } else {
            cur.push(c);
            cur_w = cur_w + w;
        }
        i += 1;
    }
    assert(cs@.take(cs.len() as int) =~= cs@);
    if cur.len() > 0 {
        let chunk = string_of(cur.as_slice());
        let ghost before = out@;
        out.push(chunk);
        assert(strings_view(out@) =~= strings_view(before).push(cur@));
    }
    out
}

/// Tab stop for box content: tool output carries literal tabs, which the
/// terminal would otherwise draw with a width the layout did not count.
pub const TAB_WIDTH: usize = 4;

/// Width a character advances the column by when tabs are expanded: its
/// display width, at least 1.
pub open spec fn advance_cells(c: char) -> int {
    match char_cells(c) {
        Some(w) => if w >= 1 { w as int } else { 1 },
        None => 1,
    }
}

/// Expanding tabs over `cs` from column 0: the text so far and the column
/// reached. A tab becomes the spaces up to the next multiple of `tab`.
pub open spec fn expand_state(cs: Seq<char>, tab: int) -> (Seq<char>, int)
    decreases cs.len(),
{
    if cs.len() == 0 {
        (Seq::empty(), 0)
    } else {
        let (out, col) = expand_state(cs.drop_last(), tab);
        let c = cs.last();
        if c == '\t' {
            let spaces = tab - col % tab;
            (out + Seq::new(spaces as nat, |_i: int| ' '), col + spaces)
        } else {
            (out.push(c), col + advance_cells(c))
        }
    }
}

/// `line` with every tab replaced by spaces up to the next `tab` stop.
pub open spec fn tabs_expanded(line: Seq<char>, tab: int) -> Seq<char> {
    if !line.contains('\t') {
        line
    } else {
        expand_state(line, tab).0
    }
}

proof fn lemma_col_mod(col: int, step: int, tab: int)
    requires
        tab > 0,
        col >= 0,
        step >= 0,
    ensures
        (col + step) % tab == ((col % tab) + step) % tab,
{
    vstd::arithmetic::div_mod::lemma_add_mod_noop_right(step, col, tab);
}

/// Expands tabs to spaces at `tab_width`-column stops.
pub fn expand_tabs(line: &str, tab_width: usize) -> (out: String)
    requires
        tab_width > 0,
    ensures
        out@ == tabs_expanded(line@, tab_width as int),
{
    let cs = chars_of(line);
    let mut has_tab = false;
    let mut k: usize = 0;
    while k < cs.len()
        invariant
            k <= cs.len(),
            has_tab <==> exists|j: int| 0 <= j < k && cs@[j] == '\t',
        decreases cs.len() - k,
    {
        if cs[k] == '\t' {
            has_tab = true;
        }
        k += 1;
    }
    if !has_tab {
        assert(!line@.contains('\t'));
        return String::from_str(line);
    }
    let mut out = String::new();
    let mut colm: usize = 0;
    let mut i: usize = 0;
    while i < cs.len()
        invariant
            i <= cs.len(),
            tab_width > 0,
            cs@ == line@,
            out@ == expand_state(cs@.take(i as int), tab_width as int).0,
            expand_state(cs@.take(i as int), tab_width as int).1 >= 0,
            colm as int == expand_state(cs@.take(i as int), tab_width as int).1 % (tab_width as int),
        decreases cs.len() - i,
    {
        let c = cs[i];
        let ghost col = expand_state(cs@.take(i as int), tab_width as int).1;
        assert(cs@.take(i + 1).drop_last() =~= cs@.take(i as int));
        if c == '\t' {
            let spaces = tab_width - colm;
            let ghost before = out@;
            let mut s: usize = 0;
            while s < spaces
                invariant
                    s <= spaces,
                    out@ == before + Seq::new(s as nat, |_i: int| ' '),
                decreases spaces - s,
            {
                push_char(&mut out, ' ');
                s += 1;
                assert(out@ =~= before + Seq::new(s as nat, |_i: int| ' '));
            }
            proof {
                lemma_col_mod(col, spaces as int, tab_width as int);
                vstd::arithmetic::div_mod::lemma_mod_self_0(tab_width as int);
            }
            colm = 0;
        } else {
            push_char(&mut out, c);
            let w = match char_width(c) {
                Some(w) => if w >= 1 { w } else { 1 },
                None => 1,
            };
            proof {
                lemma_col_mod(col, w as int, tab_width as int);
            }
            let room = tab_width - colm;
            if w < room {
                proof {
                    vstd::arithmetic::div_mod::lemma_small_mod((colm + w) as nat, tab_width as nat);
                }
                colm = colm + w;
            } else {
                proof {
                    vstd::arithmetic::div_mod::lemma_mod_add_multiples_vanish((w - room) as int, tab_width as int);
                }
                colm = (w - room) % tab_width;
            }
        }
        i += 1;
    }
    assert(cs@.take(cs.len() as int) =~= cs@);
    out
}

/// The style of the box border: the border color, nothing else.
pub open spec fn border_style(color: Color) -> InlineTextStyle {
    InlineTextStyle { color: Some(color), ..InlineTextStyle::plain_spec() }
}

/// `n` copies of `c`.
pub open spec fn repeat(c: char, n: int) -> Seq<char> {
    Seq::new(n as nat, |_i: int| c)
}

/// `a - b`, or 0 when `b` is larger.
pub open spec fn sat_sub(a: int, b: int) -> int {
    if a > b { a - b } else { 0 }
}

/// A segment of border text in `color`.
pub fn border_segment(text: String, color: Color) -> (s: InlineSegment)
    ensures
        s@ == (SegmentView { text: text@, style: border_style(color) }),
{
    InlineSegment {
        text,
        style: InlineTextStyle { color: Some(color), bold: false, italic: false, dimmed: false, strikethrough: false },
    }
}

/// Appends `n` copies of `c` to `s`.
fn push_repeat(s: &mut String, c: char, n: usize)
    ensures
        final(s)@ == old(s)@ + repeat(c, n as int),
{
    let mut k: usize = 0;
    while k < n
        invariant
            k <= n,
            s@ == old(s)@ + repeat(c, k as int),
        decreases n - k,
    {
        push_char(s, c);
        k += 1;
        assert(s@ =~= old(s)@ + repeat(c, k as int));
    }
}

/// A one-segment border row: `left`, `w - 2` horizontal rules, `right`.
fn rule_row(left: char, right: char, w: usize, color: Color) -> (row: Vec<InlineSegment>)
    ensures
        segs_view(row@) == seq![SegmentView {
            text: seq![left] + repeat('\u{2500}', sat_sub(w as int, 2)) + seq![right],
            style: border_style(color),
        }],
{
    let mut t = String::new();
    push_char(&mut t, left);
    push_repeat(&mut t, '\u{2500}', if w > 2 { w - 2 } else { 0 });
    push_char(&mut t, right);
    assert(t@ =~= seq![left] + repeat('\u{2500}', sat_sub(w as int, 2)) + seq![right]);
    let mut row: Vec<InlineSegment> = Vec::new();
    row.push(border_segment(t, color));
    assert(segs_view(row@) =~= seq![row@[0]@]);
    row
}

/// `╭────╮`: the rounded top border of a box `w` cells wide.
pub fn tool_box_top(w: usize, color: Color) -> (row: Vec<InlineSegment>)
    ensures
        segs_view(row@) == seq![SegmentView {
            text: seq!['\u{256D}'] + repeat('\u{2500}', sat_sub(w as int, 2)) + seq!['\u{256E}'],
            style: border_style(color),
        }],
{
    rule_row('\u{256D}', '\u{256E}', w, color)
}

/// `╰────╯`: the rounded bottom border of a box `w` cells wide.
pub fn tool_box_bottom(w: usize, color: Color) -> (row: Vec<InlineSegment>)
    ensures
        segs_view(row@) == seq![SegmentView {
            text: seq!['\u{2570}'] + repeat('\u{2500}', sat_sub(w as int, 2)) + seq!['\u{256F}'],
            style: border_style(color),
        }],
{
    rule_row('\u{2570}', '\u{256F}', w, color)
}

/// The divider row `├─ label ───┤` of a box `w` cells wide.
pub open spec fn divider_text(label: Seq<char>, w: int) -> Seq<char> {
    let text = seq![' '] + label + seq![' '];
    let dashes = sat_sub(sat_sub(sat_sub(w, 2), text.len() as int), 2);
    seq!['\u{251C}', '\u{2500}'] + text + repeat('\u{2500}', dashes) + seq!['\u{2500}', '\u{2524}']
}

/// `├─ Output ───┤`: a labelled section divider.
pub fn tool_box_divider(label: &str, w: usize, color: Color) -> (row: Vec<InlineSegment>)
    ensures
        segs_view(row@) == seq![SegmentView { text: divider_text(label@, w as int), style: border_style(color) }],
{
    let lc = chars_of(label);
    let a = if w > 2 { w - 2 } else { 0 };
    let b = if a >= lc.len() && a - lc.len() > 2 { a - lc.len() - 2 } else { 0 };
    let dashes = if b > 2 { b - 2 } else { 0 };
    let mut t = String::new();
    push_char(&mut t, '\u{251C}');
    push_char(&mut t, '\u{2500}');
    push_char(&mut t, ' ');
    push_str(&mut t, label);
    push_char(&mut t, ' ');
    push_repeat(&mut t, '\u{2500}', dashes);
    push_char(&mut t, '\u{2500}');
    push_char(&mut t, '\u{2524}');
    assert(t@ =~= divider_text(label@, w as int));
    let mut row: Vec<InlineSegment> = Vec::new();
    row.push(border_segment(t, color));
    assert(segs_view(row@) =~= seq![row@[0]@]);
    row
}

/// The inner width of a box `w` cells wide: two border cells and two
/// padding cells come off, and at least one cell remains.
pub open spec fn inner_width(w: int) -> int {
    let i = sat_sub(w, 4);
    if i >= 1 { i } else { 1 }
}

/// One content row `│ chunk<pad> │`, padded by display width so the right
/// border lines up.
pub open spec fn content_row(chunk: Seq<char>, inner: int, style: InlineTextStyle, color: Color) -> Seq<SegmentView> {
    seq![
        SegmentView { text: "\u{2502} "@, style: border_style(color) },
        SegmentView { text: chunk, style },
        SegmentView { text: repeat(' ', sat_sub(inner, str_cells(chunk) as int)) + " \u{2502}"@, style: border_style(color) },
    ]
}

/// The chunks of box content: every explicit line, tabs expanded, wrapped
/// at the inner width.
pub open spec fn box_chunks(text: Seq<char>, inner: int) -> Seq<Seq<char>> {
    split_lines(text).map_values(|l: Seq<char>| wrapped(tabs_expanded(l, TAB_WIDTH as int), inner)).flatten()
}

/// The content rows of `text` in a box `w` cells wide.
pub open spec fn box_rows(text: Seq<char>, w: int, style: InlineTextStyle, color: Color) -> Seq<Seq<SegmentView>> {
    box_chunks(text, inner_width(w)).map_values(|c: Seq<char>| content_row(c, inner_width(w), style, color))
}

/// `│ text │` rows with the right border at `w`: long text hard-wraps at
/// the inner width and explicit newlines open new rows.
pub fn tool_box_rows(text: &str, w: usize, style: InlineTextStyle, color: Color) -> (rows: Vec<Vec<InlineSegment>>)
    ensures
        rows_view(rows@) == box_rows(text@, w as int, style, color),
{
    let inner: usize = if w > 4 && w - 4 >= 1 { w - 4 } else { 1 };
    assert(inner as int == inner_width(w as int));
    let parts = split_at_newlines(text);
    let ghost pv = parts@.map_values(|p: Vec<char>| p@);
    let ghost per_line = pv.map_values(|l: Seq<char>| wrapped(tabs_expanded(l, TAB_WIDTH as int), inner as int));
    let mut rows: Vec<Vec<InlineSegment>> = Vec::new();
    let mut i: usize = 0;
    while i < parts.len()
        invariant
            i <= parts.len(),
            inner as int == inner_width(w as int),
            pv == parts@.map_values(|p: Vec<char>| p@),
            per_line == pv.map_values(|l: Seq<char>| wrapped(tabs_expanded(l, TAB_WIDTH as int), inner as int)),
            rows_view(rows@) == per_line.take(i as int).flatten().map_values(
                |c: Seq<char>| content_row(c, inner as int, style, color),
            ),
        decreases parts.len() - i,
    {
        let line = string_of(parts[i].as_slice());
        let expanded = expand_tabs(line.as_str(), TAB_WIDTH);
        let chunks = wrap_by_display_width(expanded.as_str(), inner);
        let ghost before = rows_view(rows@);
        let mut k: usize = 0;
        while k < chunks.len()
            invariant
                k <= chunks.len(),
                rows_view(rows@) == before + strings_view(chunks@).take(k as int).map_values(
                    |c: Seq<char>| content_row(c, inner as int, style, color),
                ),
            decreases chunks.len() - k,
        {
            let chunk: &String = &chunks[k];
            let cw = str_width(chunk.as_str());
            let pad = if inner > cw { inner - cw } else { 0 };
            let mut tail = String::new();
            push_repeat(&mut tail, ' ', pad);
            push_str(&mut tail, " \u{2502}");
            let mut row: Vec<InlineSegment> = Vec::new();
            row.push(border_segment(String::from_str("\u{2502} "), color));
            row.push(InlineSegment { text: chunk.clone(), style });
            row.push(border_segment(tail, color));
            assert(segs_view(row@) =~= content_row(chunk@, inner as int, style, color));
            let ghost prev = rows@;
            rows.push(row);
            assert(rows_view(rows@) =~= rows_view(prev).push(segs_view(row@)));
            k += 1;
            assert(strings_view(chunks@).take(k as int) =~= strings_view(chunks@).take(k - 1).push(chunk@));
            assert(rows_view(rows@) =~= before + strings_view(chunks@).take(k as int).map_values(
                |c: Seq<char>| content_row(c, inner as int, style, color),
            ));
        }
        proof {
            assert(strings_view(chunks@).take(chunks@.len() as int) =~= strings_view(chunks@));
            assert(per_line.take(i + 1) =~= per_line.take(i as int).push(per_line[i as int]));
            per_line.take(i as int).lemma_flatten_push(per_line[i as int]);
            assert(per_line[i as int] == strings_view(chunks@));
        }
        i += 1;
        assert(rows_view(rows@) =~= per_line.take(i as int).flatten().map_values(
            |c: Seq<char>| content_row(c, inner as int, style, color),
        ));
    }
    proof {
        assert(per_line.take(parts.len() as int) =~= per_line);
    }
    rows
}

} // verus!
