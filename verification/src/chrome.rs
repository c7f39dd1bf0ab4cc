//! What a frame draws besides the transcript: which pieces show, who owns
//! the row above the composer, the tip banner and the welcome card.
use vstd::prelude::*;

use crate::panel::{accent, faint, line_area, muted, plain, sat_add16, sat_sub16, Area, Look, PanelRow, PanelSpan, Tone, spans_view};
use crate::render_state::{EphemeralTip, RenderState, tip_is_visible, tip_shown};
use crate::fold::{clamp_fold_text, clamped};
use crate::numfmt::{decimal, push_decimal};
use crate::text::push_str;
use crate::tool_box::{str_cells, str_width};

verus! {

/// Below this many terminal rows the todo list collapses to one line.
pub const TODO_COMPACT_ROWS_THRESHOLD: u16 = 18;

/// Who owns the row right above the composer in a frame.
#[derive(Debug, Clone, Copy, PartialEq, Eq, Structural)]
pub enum AboveComposer {
    /// The run indicator, for as long as a run or a reasoning stage lasts.
    RunIndicator,
    /// The "press Ctrl+C again to quit" hint.
    QuitHint,
    /// The follow-up suggestion chips.
    FollowUps,
    /// The ephemeral tip banner.
    Tip,
    /// Nothing.
    Empty,
}

/// How the todo list shows.
#[derive(Debug, Clone, Copy, PartialEq, Eq, Structural)]
pub enum TodoPlacement {
    Hidden,
    /// One counter line (short terminals).
    Compact,
    /// The phase tree.
    Pane,
}

/// The pieces of a frame, drawn in this order over the transcript.
#[derive(Debug, Clone, Copy, PartialEq, Eq, Structural)]
pub struct FramePlan {
    pub queue_pane: bool,
    pub todo: TodoPlacement,
    pub above_composer: AboveComposer,
    pub slash_popup: bool,
    pub agent_hub: bool,
    pub overlay: bool,
    pub confirmation: bool,
}

/// The tip shows: within its lifetime, and an ambient tip not while an
/// overlay or a confirmation covers the screen.
pub open spec fn tip_shows(s: RenderState, tick: u64) -> bool {
    s.tip matches Some(t) && {
        &&& (if tick >= t.born_tick { tick - t.born_tick } else { 0 }) < t.ttl_ticks
        &&& !(t.ambient && (s.overlay is Some || s.confirmation is Some))
    }
}

/// The owner of the row above the composer: a live run first, then the
/// pending quit, the follow-ups, a showing tip.
pub open spec fn above_composer_of(s: RenderState, tick: u64) -> AboveComposer {
    if s.active_run is Some || s.reasoning_stage is Some {
        AboveComposer::RunIndicator
    } else if s.pending_quit {
        AboveComposer::QuitHint
    } else if s.follow_ups@.len() > 0 {
        AboveComposer::FollowUps
    } else if tip_shows(s, tick) {
        AboveComposer::Tip
    } else {
        AboveComposer::Empty
    }
}

/// The frame plan of `s` at render tick `tick` on a terminal `rows` high.
pub open spec fn frame_plan_of(s: RenderState, tick: u64, rows: u16) -> FramePlan {
    FramePlan {
        queue_pane: s.queued_inputs@.len() > 0,
        todo: if s.todo_phases@.len() == 0 {
            TodoPlacement::Hidden
        } else if rows < TODO_COMPACT_ROWS_THRESHOLD {
            TodoPlacement::Compact
        } else {
            TodoPlacement::Pane
        },
        above_composer: above_composer_of(s, tick),
        slash_popup: s.slash_popup.open,
        agent_hub: s.agent_hub_open,
        overlay: s.overlay is Some,
        confirmation: s.confirmation is Some,
    }
}

impl RenderState {
    /// Which pieces a frame draws at render tick `tick` on a terminal
    /// `rows` high (see `frame_plan_of`).
    pub fn frame_plan(&self, tick: u64, rows: u16) -> (p: FramePlan)
        ensures
            p == frame_plan_of(*self, tick, rows),
    {
        let above = if self.active_run.is_some() || self.reasoning_stage.is_some() {
            AboveComposer::RunIndicator
        } else if self.pending_quit {
            AboveComposer::QuitHint
        } else if self.follow_ups.len() > 0 {
            AboveComposer::FollowUps
        } else {
            let occluded = self.overlay.is_some() || self.confirmation.is_some();
            let shows = match &self.tip {
                Some(t) => tip_is_visible(t, tick) && !(t.ambient && occluded),
                None => false,
            };
            if shows { AboveComposer::Tip } else { AboveComposer::Empty }
        };
        let todo = if self.todo_phases.len() == 0 {
            TodoPlacement::Hidden
        } else if rows < TODO_COMPACT_ROWS_THRESHOLD {
            TodoPlacement::Compact
        } else {
            TodoPlacement::Pane
        };
        FramePlan {
            queue_pane: self.queued_inputs.len() > 0,
            todo,
            above_composer: above,
            slash_popup: self.slash_popup.open,
            agent_hub: self.agent_hub_open,
            overlay: self.overlay.is_some(),
            confirmation: self.confirmation.is_some(),
        }
    }
}

/// The tip banner: ` note: <text>`, faint in the info color, on the row
/// above the composer.
pub open spec fn tip_row(composer: Area, text: Seq<char>) -> (Area, Seq<(Seq<char>, Look)>) {
    (line_area(composer.x, sat_sub16(composer.y as int, 1), composer.width), seq![(" note: "@ + text, look_of(Tone::Info, false, true))])
}

pub open spec fn look_of(tone: Tone, bold: bool, dim: bool) -> Look {
    Look { tone, bold, dim }
}

/// The tip banner above `composer`.
pub fn render_tip(composer: Area, text: &str) -> (r: PanelRow)
    ensures
        r@ == tip_row(composer, text@),
{
    let mut t = String::from_str(" note: ");
    push_str(&mut t, text);
    let mut spans: Vec<PanelSpan> = Vec::new();
    spans.push(PanelSpan { text: t, look: Look { tone: Tone::Info, bold: false, dim: true } });
    let r = PanelRow {
        area: Area { x: composer.x, y: composer.y.saturating_sub(1), width: composer.width, height: 1 },
        spans,
    };
    assert(spans_view(r.spans@) =~= seq![(" note: "@ + text@, look_of(Tone::Info, false, true))]);
    r
}

// ---------------------------------------------------------------------------
// The welcome card
// ---------------------------------------------------------------------------

/// The workspace name shown: the directory's name, `workspace` when it
/// has none.
pub open spec fn workspace_name(dir: Option<Seq<char>>) -> Seq<char> {
    match dir {
        Some(d) => if d.len() > 0 { d } else { "workspace"@ },
        None => "workspace"@,
    }
}

/// The lines of the welcome card.
pub open spec fn welcome_lines(dir: Option<Seq<char>>, provider: Seq<char>, model: Seq<char>) -> Seq<Seq<(Seq<char>, Look)>> {
    let fg = look_of(Tone::Foreground, false, false);
    seq![
        seq![("OXICODE"@, accent())],
        seq![("Terminal coding assistant"@, faint())],
        seq![(""@, plain())],
        seq![("WORKSPACE  "@, muted()), (workspace_name(dir), look_of(Tone::Foreground, true, false))],
        seq![("MODEL      "@, muted()), (provider + " / "@ + model, fg)],
        seq![(""@, plain())],
        seq![("Enter  send     /  commands     @  attach a file"@, fg)],
        seq![("?  shortcuts     /model  change model     /help  all commands"@, muted())],
    ]
}

/// The cells a line takes: the sum of its spans' widths.
pub open spec fn line_cells(l: Seq<(Seq<char>, Look)>) -> int
    decreases l.len(),
{
    if l.len() == 0 { 0 } else { line_cells(l.drop_last()) + str_cells(l.last().0) }
}

/// How far a line of `cells` cells is indented to center it in `width`.
pub open spec fn center_offset(width: u16, cells: int) -> int {
    if cells < width { (width - cells) / 2 } else { 0 }
}

/// The welcome card rows: the lines centered one below the other, the
/// card itself centered vertically in `area` (cut to its height).
pub open spec fn welcome_rows(area: Area, dir: Option<Seq<char>>, provider: Seq<char>, model: Seq<char>) -> Seq<(Area, Seq<(Seq<char>, Look)>)> {
    let lines = welcome_lines(dir, provider, model);
    let height = if area.height < 8 { area.height as int } else { 8 };
    let top = area.y + sat_sub16(area.height as int, height) / 2;
    Seq::new(height as nat, |i: int| {
        let off = center_offset(area.width, line_cells(lines[i]));
        (line_area((area.x + off) as u16, sat_add16(top, i), (area.width - off) as u16), lines[i])
    })
}

fn center_in(width: u16, a: usize, b: usize) -> (off: u16)
    ensures
        off as int == center_offset(width, a + b),
        off <= width,
{
    let w = width as usize;
    if a >= w || b >= w || a + b >= w { 0 } else { ((w - (a + b)) / 2) as u16 }
}

fn one_span(text: String, l: Look) -> (v: Vec<PanelSpan>)
    ensures
        spans_view(v@) == seq![(text@, l)],
        v@.len() == 1,
{
    let mut v: Vec<PanelSpan> = Vec::new();
    v.push(PanelSpan { text, look: l });
    assert(spans_view(v@) =~= seq![(v@[0].text@, l)]);
    v
}

fn two_spans(a: String, la: Look, b: String, lb: Look) -> (v: Vec<PanelSpan>)
    ensures
        spans_view(v@) == seq![(a@, la), (b@, lb)],
        v@.len() == 2,
{
    let mut v: Vec<PanelSpan> = Vec::new();
    v.push(PanelSpan { text: a, look: la });
    v.push(PanelSpan { text: b, look: lb });
    assert(spans_view(v@) =~= seq![(v@[0].text@, la), (v@[1].text@, lb)]);
    v
}

#[verifier::spinoff_prover]
fn welcome_spans(i: usize, ws: &String, model: &String, ghost_lines: Ghost<Seq<Seq<(Seq<char>, Look)>>>) -> (v: Vec<PanelSpan>)
    requires
        i < 8,
        ghost_lines@.len() == 8,
        ghost_lines@[0] == seq![("OXICODE"@, accent())],
        ghost_lines@[1] == seq![("Terminal coding assistant"@, faint())],
        ghost_lines@[2] == seq![(""@, plain())],
        ghost_lines@[3] == seq![("WORKSPACE  "@, muted()), (ws@, look_of(Tone::Foreground, true, false))],
        ghost_lines@[4] == seq![("MODEL      "@, muted()), (model@, look_of(Tone::Foreground, false, false))],
        ghost_lines@[5] == seq![(""@, plain())],
        ghost_lines@[6] == seq![("Enter  send     /  commands     @  attach a file"@, look_of(Tone::Foreground, false, false))],
        ghost_lines@[7] == seq![("?  shortcuts     /model  change model     /help  all commands"@, muted())],
    ensures
        spans_view(v@) == ghost_lines@[i as int],
        1 <= v@.len() <= 2,
{
    let fg = Look { tone: Tone::Foreground, bold: false, dim: false };
    let plain_look = Look { tone: Tone::Plain, bold: false, dim: false };
    let muted_look = Look { tone: Tone::Secondary, bold: false, dim: false };
    let v = if i == 0 {
        one_span(String::from_str("OXICODE"), Look { tone: Tone::Primary, bold: true, dim: false })
    } else if i == 1 {
        one_span(String::from_str("Terminal coding assistant"), Look { tone: Tone::Secondary, bold: false, dim: true })
    } else if i == 2 || i == 5 {
        one_span(String::from_str(""), plain_look)
    } else if i == 3 {
        two_spans(String::from_str("WORKSPACE  "), muted_look, ws.clone(), Look { tone: Tone::Foreground, bold: true, dim: false })
    } else if i == 4 {
        two_spans(String::from_str("MODEL      "), muted_look, model.clone(), fg)
    } else if i == 6 {
        one_span(String::from_str("Enter  send     /  commands     @  attach a file"), fg)
    } else {
        one_span(String::from_str("?  shortcuts     /model  change model     /help  all commands"), muted_look)
    };
    assert(spans_view(v@) =~= ghost_lines@[i as int]);
    v
}

impl RenderState {
    /// The welcome card shown in `area` while the transcript is empty;
    /// `dir` is the name of the working directory, when it has one.
    pub fn render_welcome(&self, area: Area, dir: Option<&str>) -> (rows: Vec<PanelRow>)
        requires
            area.x + area.width <= u16::MAX,
            area.y + area.height <= u16::MAX,
        ensures
            crate::panel::rows_view(rows@) == welcome_rows(area, match dir { Some(d) => Some(d@), None => None },
                self.header_provider@, self.header_model@),
    {
        let ghost d = match dir { Some(d) => Some(d@), None => None };
        let ghost lines = welcome_lines(d, self.header_provider@, self.header_model@);
        let ws = match dir {
            Some(n) => if n.is_empty() { String::from_str("workspace") } else { String::from_str(n) },
            None => String::from_str("workspace"),
        };
        let mut model = self.header_provider.clone();
        push_str(&mut model, " / ");
        push_str(&mut model, self.header_model.as_str());
        let height: u16 = if area.height < 8 { area.height } else { 8 };
        let top = area.y + area.height.saturating_sub(height) / 2;
        let ghost want = welcome_rows(area, d, self.header_provider@, self.header_model@);
        let mut rows: Vec<PanelRow> = Vec::new();
        let mut i: usize = 0;
        while i < height as usize
            invariant
                i <= height as usize <= 8,
                height as int == (if area.height < 8 { area.height as int } else { 8 }),
                top as int == area.y + sat_sub16(area.height as int, height as int) / 2,
                area.x + area.width <= u16::MAX,
                ws@ == workspace_name(d),
                model@ == self.header_provider@ + " / "@ + self.header_model@,
                lines == welcome_lines(d, self.header_provider@, self.header_model@),
                want == welcome_rows(area, d, self.header_provider@, self.header_model@),
                crate::panel::rows_view(rows@) == want.take(i as int),
            decreases height as usize - i,
        {
            let spans = welcome_spans(i, &ws, &model, Ghost(lines));
            let a = str_width(spans[0].text.as_str());
            let b = if spans.len() > 1 { str_width(spans[1].text.as_str()) } else { 0 };
            proof {
                let l = lines[i as int];
                assert(l == spans_view(spans@));
                assert(l[0].0 == spans@[0].text@);
                if l.len() == 2 {
                    assert(l[1].0 == spans@[1].text@);
                    assert(l.drop_last().drop_last() =~= Seq::<(Seq<char>, Look)>::empty());
                    assert(l.drop_last().last() == l[0]);
                    reveal_with_fuel(line_cells, 3);
                    assert(line_cells(l) == str_cells(l[0].0) + str_cells(l[1].0));
                } else {
                    assert(l.drop_last() =~= Seq::<(Seq<char>, Look)>::empty());
                    reveal_with_fuel(line_cells, 2);
                    assert(line_cells(l) == str_cells(l[0].0));
                }
            }
            let off = center_in(area.width, a, b);
            let r = PanelRow {
                area: Area { x: area.x + off, y: top.saturating_add(i as u16), width: area.width - off, height: 1 },
                spans,
            };
            assert(r@ =~= want[i as int]);
            let ghost before = rows@;
            rows.push(r);
            proof {
                assert(crate::panel::rows_view(rows@) =~= crate::panel::rows_view(before).push(r@));
                assert(want.take(i + 1) =~= want.take(i as int).push(want[i as int]));
            }
            i += 1;
        }
        assert(want.take(height as int) =~= want);
        rows
    }
}

// ---------------------------------------------------------------------------
// Rows of the fold ladder
// ---------------------------------------------------------------------------

/// The trailing pulse mark of a live row.
pub open spec fn pulse_mark(pulse: bool) -> Seq<char> {
    if pulse { " \u{2022}"@ } else { ""@ }
}

/// The cells taken in front of the activity: the head and the pulse mark
/// (saturating).
pub open spec fn lead_cells(head: Seq<char>, pulse: bool) -> int {
    let w = str_cells(head) + str_cells(pulse_mark(pulse));
    if w > usize::MAX { usize::MAX as int } else { w }
}

/// One row at `y` when it lies inside `area`, nothing below it.
pub open spec fn row_if_inside(area: Area, y: u16, text: Seq<char>, l: Look) -> Seq<(Area, Seq<(Seq<char>, Look)>)> {
    if y < sat_add16(area.y as int, area.height as int) {
        seq![(line_area(area.x, y, area.width), seq![(text, l)])]
    } else {
        Seq::empty()
    }
}

/// A block folded to a glyph row: `▸ ` and its activity, cut with `…` to
/// the row, then the pulse mark; in the tool color.
pub open spec fn glyph_row_text(width: u16, activity: Seq<char>, pulse: bool) -> Seq<char> {
    "\u{25B8} "@ + clamped(activity, lead_cells("\u{25B8} "@, pulse), width as int, "\u{2026}"@) + pulse_mark(pulse)
}

/// A block folded to a card: the head `╭─ ` with the activity cut to the
/// row and the pulse mark, then the tail `╰─ …`.
pub open spec fn card_head_text(width: u16, activity: Seq<char>, pulse: bool) -> Seq<char> {
    "\u{256D}\u{2500} "@ + clamped(activity, lead_cells("\u{256D}\u{2500} "@, pulse), width as int, "\u{2026}"@) + pulse_mark(pulse)
}

/// `… N earlier block(s) hidden`, cut with `…` to the row.
pub open spec fn hidden_banner_text(width: u16, hidden: u64) -> Seq<char> {
    let t = if hidden == 1 {
        "\u{2026} 1 earlier block hidden"@
    } else {
        "\u{2026} "@ + decimal(hidden as nat) + " earlier blocks hidden"@
    };
    clamped(t, 0, width as int, "\u{2026}"@)
}

fn lead_width(head: &str, pulse: bool) -> (w: usize)
    ensures
        w as int == lead_cells(head@, pulse),
{
    let a = str_width(head);
    let b = str_width(if pulse { " \u{2022}" } else { "" });
    a.saturating_add(b)
}

fn row_if_inside_exec(rows: &mut Vec<PanelRow>, area: Area, y: u16, text: String, l: Look)
    ensures
        crate::panel::rows_view(final(rows)@) == crate::panel::rows_view(old(rows)@) + row_if_inside(area, y, text@, l),
{
    let ghost before = rows@;
    if y < area.y.saturating_add(area.height) {
        let r = PanelRow { area: Area { x: area.x, y, width: area.width, height: 1 }, spans: one_span(text, l) };
        rows.push(r);
        assert(crate::panel::rows_view(rows@) =~= crate::panel::rows_view(before).push(r@));
    }
    assert(crate::panel::rows_view(rows@) =~= crate::panel::rows_view(before) + row_if_inside(area, y, text@, l));
}

/// The glyph row of a folded block at row `y` of the live region `area`
/// (nothing when `y` is below it); it takes one row.
pub fn render_glyph_row(area: Area, y: u16, activity: &str, pulse: bool) -> (rows: Vec<PanelRow>)
    ensures
        crate::panel::rows_view(rows@) == row_if_inside(area, y, glyph_row_text(area.width, activity@, pulse), look_of(Tone::Tool, false, false)),
{
    let mut t = String::from_str("\u{25B8} ");
    let body = clamp_fold_text(activity, lead_width("\u{25B8} ", pulse), area.width as usize, "\u{2026}");
    push_str(&mut t, body.as_str());
    push_str(&mut t, if pulse { " \u{2022}" } else { "" });
    let mut rows: Vec<PanelRow> = Vec::new();
    row_if_inside_exec(&mut rows, area, y, t, Look { tone: Tone::Tool, bold: false, dim: false });
    rows
}

/// The two-row card of a folded block from row `y` of the live region
/// `area`; rows below it are left out.
pub fn render_folded_card(area: Area, y: u16, activity: &str, pulse: bool) -> (rows: Vec<PanelRow>)
    ensures
        crate::panel::rows_view(rows@) == row_if_inside(area, y, card_head_text(area.width, activity@, pulse), look_of(Tone::Tool, false, false))
            + row_if_inside(area, sat_add16(y as int, 1), "\u{2570}\u{2500} \u{2026}"@, look_of(Tone::Tool, false, false)),
{
    let l = Look { tone: Tone::Tool, bold: false, dim: false };
    let mut head = String::from_str("\u{256D}\u{2500} ");
    let body = clamp_fold_text(activity, lead_width("\u{256D}\u{2500} ", pulse), area.width as usize, "\u{2026}");
    push_str(&mut head, body.as_str());
    push_str(&mut head, if pulse { " \u{2022}" } else { "" });
    let mut rows: Vec<PanelRow> = Vec::new();
    row_if_inside_exec(&mut rows, area, y, head, l);
    row_if_inside_exec(&mut rows, area, y.saturating_add(1), String::from_str("\u{2570}\u{2500} \u{2026}"), l);
    rows
}

/// The banner counting the blocks hidden above the live region, at row
/// `y` of `area`, muted.
pub fn render_hidden_banner(area: Area, y: u16, hidden: u64) -> (rows: Vec<PanelRow>)
    ensures
        crate::panel::rows_view(rows@) == row_if_inside(area, y, hidden_banner_text(area.width, hidden), muted()),
{
    let t = if hidden == 1 {
        String::from_str("\u{2026} 1 earlier block hidden")
    } else {
        let mut t = String::from_str("\u{2026} ");
        push_decimal(&mut t, hidden);
        push_str(&mut t, " earlier blocks hidden");
        t
    };
    let clamped_text = clamp_fold_text(t.as_str(), 0, area.width as usize, "\u{2026}");
    let mut rows: Vec<PanelRow> = Vec::new();
    row_if_inside_exec(&mut rows, area, y, clamped_text, Look { tone: Tone::Secondary, bold: false, dim: false });
    rows
}

/// Below this many columns the full interface does not fit.
pub const SMALL_SCREEN_COLUMNS: u16 = 40;

/// What a frame on a terminal `width` columns wide does to the tips: on a
/// terminal narrower than 40 columns with no tip showing, the ambient
/// `small_screen` tip asking to resize is shown (for 300 ticks, within its
/// per-session cap); otherwise nothing changes.
pub open spec fn small_screen_ok(old: RenderState, new: RenderState, width: u16, now_tick: u64) -> bool {
    if width < SMALL_SCREEN_COLUMNS && old.tip is None {
        &&& new == (RenderState { seen_tips: new.seen_tips, tip: new.tip, ..old })
        &&& tip_shown(old, new, "small_screen", "Terminal too narrow \u{2014} resize for full UI"@, 300, true, now_tick)
    } else {
        new == old
    }
}

impl RenderState {
    /// Warns on a terminal too narrow for the full interface (see
    /// `small_screen_ok`); `now_tick` is the render tick.
    pub fn small_screen_tip(&mut self, width: u16, now_tick: u64)
        ensures
            small_screen_ok(*old(self), *final(self), width, now_tick),
    {
        if width < SMALL_SCREEN_COLUMNS && self.tip.is_none() {
            self.show_tip("small_screen", "Terminal too narrow \u{2014} resize for full UI", 300, true, now_tick);
        }
    }
}

} // verus!
