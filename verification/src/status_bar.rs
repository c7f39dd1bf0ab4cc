//! The facts on the composer's border: model, thinking level, directory,
//! branch, context use and the running stage, dropped right to left as
//! the terminal narrows; and the memory health chip.
use vstd::prelude::*;

use crate::numfmt::{compact_token_count, compact_tokens, decimal, elapsed_text, format_elapsed_secs, push_decimal};
use crate::loop_policy::animation_frame;
use crate::provider::chip_of;
use crate::render_state::RenderState;
use crate::text::{chars_of, push_str, seq_starts_with, string_of};
use crate::tool_box::{str_cells, str_width};

verus! {

/// How a piece of the status line is colored.
#[derive(Debug, Clone, Copy, PartialEq, Eq, Structural)]
pub enum FieldStyle {
    /// Labels and separators.
    Muted,
    /// The model name: foreground, bold.
    Strong,
    /// Thinking level and context use.
    Info,
    /// Directory and branch.
    Plain,
    /// The running stage: primary color, bold.
    Run,
}

/// One fact of the status line.
pub struct FieldView {
    pub label: Seq<char>,
    pub value: Seq<char>,
    pub style: FieldStyle,
    /// The field shows only from this terminal width on.
    pub min_width: int,
}

/// The model name without its `provider/` prefix.
pub open spec fn model_shown(model: Seq<char>, provider: Seq<char>) -> Seq<char> {
    let prefix = provider + "/"@;
    if seq_starts_with(model, prefix) { model.subrange(prefix.len() as int, model.len() as int) } else { model }
}

/// Context use: `used/window pct%`, or `0/window` before the first report.
pub open spec fn context_text(tokens: Option<usize>, window: usize) -> Seq<char> {
    match tokens {
        Some(used) => {
            let scaled = if used * 100 <= usize::MAX { used * 100 } else { usize::MAX as int };
            let denom = if window >= 1 { window as int } else { 1 };
            compact_tokens(used as nat) + "/"@ + compact_tokens(window as nat) + " "@ + decimal((scaled / denom) as nat) + "%"@
        },
        None => "0/"@ + compact_tokens(window as nat),
    }
}

/// The facts in display order with the widths they need.
pub open spec fn status_fields(s: RenderState, workspace: Option<Seq<char>>, branch: Option<Seq<char>>) -> Seq<FieldView> {
    let dir = match workspace { Some(w) => if w.len() > 0 { w } else { "workspace"@ }, None => "workspace"@ };
    let git = match branch { Some(b) => if b.len() > 0 { b } else { "\u{2014}"@ }, None => "\u{2014}"@ };
    let base = seq![
        FieldView { label: "MODEL "@, value: model_shown(s.header_model@, s.header_provider@), style: FieldStyle::Strong, min_width: 0 },
        FieldView { label: "THINK "@, value: s.thinking_level@, style: FieldStyle::Info, min_width: 58 },
        FieldView { label: "DIR "@, value: dir, style: FieldStyle::Plain, min_width: 82 },
        FieldView { label: "GIT "@, value: git, style: FieldStyle::Plain, min_width: 104 },
        FieldView { label: "CTX "@, value: context_text(s.context_tokens, s.context_window), style: FieldStyle::Info, min_width: 124 },
    ];
    if s.active_run is Some || s.reasoning_stage is Some {
        let run = match s.reasoning_stage { Some(t) => t@, None => "working\u{2026}"@ };
        base.push(FieldView { label: "RUN "@, value: run, style: FieldStyle::Run, min_width: 148 })
    } else {
        base
    }
}

/// The spans of the first `k` fields: a ` | ` separator before all but the
/// first, then the label and the value.
pub open spec fn field_spans(f: Seq<FieldView>, k: int) -> Seq<(Seq<char>, FieldStyle)>
    decreases k,
{
    if k <= 0 {
        Seq::empty()
    } else {
        let prev = field_spans(f, k - 1);
        let sep = if k - 1 > 0 { seq![(" | "@, FieldStyle::Muted)] } else { Seq::empty() };
        prev + sep + seq![(f[k - 1].label, FieldStyle::Muted), (f[k - 1].value, f[k - 1].style)]
    }
}

/// How many leading fields fit a terminal `width` cells wide.
pub open spec fn fields_fitting(f: Seq<FieldView>, width: int, k: int) -> int
    decreases f.len() - k,
{
    if k < 0 || k >= f.len() || f[k].min_width > width { k } else { fields_fitting(f, width, k + 1) }
}

/// The views of styled spans.
pub open spec fn spans_view(v: Seq<(String, FieldStyle)>) -> Seq<(Seq<char>, FieldStyle)> {
    v.map_values(|p: (String, FieldStyle)| (p.0@, p.1))
}

fn push_span(out: &mut Vec<(String, FieldStyle)>, text: String, style: FieldStyle)
    ensures
        spans_view(final(out)@) == spans_view(old(out)@).push((text@, style)),
{
    out.push((text, style));
    assert(spans_view(out@) =~= spans_view(old(out)@).push((text@, style)));
}

/// `used/window pct%` or `0/window`.
pub fn context_usage(tokens: Option<usize>, window: usize) -> (t: String)
    ensures
        t@ == context_text(tokens, window),
{
    match tokens {
        Some(used) => {
            let scaled: usize = if used <= usize::MAX / 100 {
                proof {
                    assert(used * 100 <= usize::MAX) by (nonlinear_arith)
                        requires used <= usize::MAX / 100;
                }
                used * 100
            } else {
                proof {
                    assert(used * 100 > usize::MAX) by (nonlinear_arith)
                        requires used > usize::MAX / 100;
                }
                usize::MAX
            };
            let denom = if window >= 1 { window } else { 1 };
            let mut t = compact_token_count(used);
            push_str(&mut t, "/");
            push_str(&mut t, compact_token_count(window).as_str());
            push_str(&mut t, " ");
            push_decimal(&mut t, (scaled / denom) as u64);
            push_str(&mut t, "%");
            t
        },
        None => {
            let mut t = String::from_str("0/");
            push_str(&mut t, compact_token_count(window).as_str());
            t
        },
    }
}

fn shown_model(model: &str, provider: &str) -> (m: String)
    ensures
        m@ == model_shown(model@, provider@),
{
    let mut prefix = String::from_str(provider);
    push_str(&mut prefix, "/");
    let mc = chars_of(model);
    let pc = chars_of(prefix.as_str());
    if crate::text::starts_with(mc.as_slice(), pc.as_slice()) {
        string_of(&mc.as_slice()[pc.len()..mc.len()])
    } else {
        String::from_str(model)
    }
}

impl RenderState {
    /// The composer border's status line for a terminal `width` cells
    /// wide: the facts that fit, in order, as styled spans. `workspace` is
    /// the working directory's name and `branch` the repository badge.
    pub fn composer_context_line(&self, workspace: Option<&str>, branch: Option<&str>, width: u16) -> (spans: Vec<(String, FieldStyle)>)
        ensures
            ({
                let f = status_fields(*self, match workspace { Some(w) => Some(w@), None => None }, match branch { Some(b) => Some(b@), None => None });
                spans_view(spans@) == field_spans(f, fields_fitting(f, width as int, 0))
            }),
    {
        let ghost f = status_fields(*self, match workspace { Some(w) => Some(w@), None => None }, match branch { Some(b) => Some(b@), None => None });
        let dir = match workspace {
            Some(w) => if w.is_empty() { String::from_str("workspace") } else { String::from_str(w) },
            None => String::from_str("workspace"),
        };
        let git = match branch {
            Some(b) => if b.is_empty() { String::from_str("\u{2014}") } else { String::from_str(b) },
            None => String::from_str("\u{2014}"),
        };
        let mut labels: Vec<String> = Vec::new();
        let mut values: Vec<String> = Vec::new();
        let mut styles: Vec<FieldStyle> = Vec::new();
        let mut mins: Vec<u16> = Vec::new();
        labels.push(String::from_str("MODEL "));
        values.push(shown_model(self.header_model.as_str(), self.header_provider.as_str()));
        styles.push(FieldStyle::Strong);
        mins.push(0);
        labels.push(String::from_str("THINK "));
        values.push(self.thinking_level.clone());
        styles.push(FieldStyle::Info);
        mins.push(58);
        labels.push(String::from_str("DIR "));
        values.push(dir);
        styles.push(FieldStyle::Plain);
        mins.push(82);
        labels.push(String::from_str("GIT "));
        values.push(git);
        styles.push(FieldStyle::Plain);
        mins.push(104);
        labels.push(String::from_str("CTX "));
        values.push(context_usage(self.context_tokens, self.context_window));
        styles.push(FieldStyle::Info);
        mins.push(124);
        if self.active_run.is_some() || self.reasoning_stage.is_some() {
            labels.push(String::from_str("RUN "));
            values.push(match &self.reasoning_stage {
                Some(t) => t.clone(),
                None => String::from_str("working\u{2026}"),
            });
            styles.push(FieldStyle::Run);
            mins.push(148);
        }
        let n = labels.len();
        assert(n == f.len());
        assert forall|i: int| 0 <= i < n implies labels@[i]@ == f[i].label && values@[i]@ == f[i].value
            && styles@[i] == f[i].style && mins@[i] as int == f[i].min_width by {}
        let mut spans: Vec<(String, FieldStyle)> = Vec::new();
        let mut k: usize = 0;
        assert(spans_view(spans@) =~= field_spans(f, 0));
        while k < n && mins[k] <= width
            invariant
                k <= n == f.len() == labels@.len() == values@.len() == styles@.len() == mins@.len(),
                forall|i: int| 0 <= i < n ==> labels@[i]@ == f[i].label && values@[i]@ == f[i].value
                    && styles@[i] == f[i].style && mins@[i] as int == f[i].min_width,
                fields_fitting(f, width as int, 0) == fields_fitting(f, width as int, k as int),
                spans_view(spans@) == field_spans(f, k as int),
            decreases n - k,
        {
            if k > 0 {
                push_span(&mut spans, String::from_str(" | "), FieldStyle::Muted);
            }
            push_span(&mut spans, labels[k].clone(), FieldStyle::Muted);
            push_span(&mut spans, values[k].clone(), styles[k]);
            k += 1;
            assert(spans_view(spans@) =~= field_spans(f, k as int));
        }
        spans
    }
}

/// The memory health chip ` brain·ok ` / ` brain·down `, when memory is
/// on and the chip fits beside the `used` cells of the status line on a
/// border `width` cells wide (two of them are the corners).
pub open spec fn brain_chip_text(label: Seq<char>) -> Seq<char> {
    " "@ + label + " "@
}

impl RenderState {
    /// The brain chip and whether it reads healthy, when it is shown.
    pub fn composer_brain_chip(&self, width: u16, used: usize) -> (r: Option<(String, bool)>)
        ensures
            match chip_of(self.brain) {
                None => r is None,
                Some((label, healthy)) => {
                    let chip = brain_chip_text(label);
                    let usable = if width >= 2 { width - 2 } else { 0 };
                    if used + str_cells(chip) < usable {
                        r matches Some((t, h)) && t@ == chip && h == healthy
                    } else {
                        r is None
                    }
                },
            },
    {
        let (label, healthy) = match self.brain.chip_label() {
            None => return None,
            Some(p) => p,
        };
        let mut chip = String::from_str(" ");
        push_str(&mut chip, label);
        push_str(&mut chip, " ");
        let usable: usize = if width >= 2 { (width - 2) as usize } else { 0 };
        let cw = str_width(chip.as_str());
        if used < usable && cw < usable - used {
            Some((chip, healthy))
        } else {
            None
        }
    }
}

/// Frame `i` of the braille spinner of the run indicator (ten frames).
pub open spec fn spinner_glyph(i: u64) -> Seq<char> {
    match i % 10 {
        0 => "\u{280B}"@,
        1 => "\u{2819}"@,
        2 => "\u{2839}"@,
        3 => "\u{2838}"@,
        4 => "\u{283C}"@,
        5 => "\u{2834}"@,
        6 => "\u{2826}"@,
        7 => "\u{2827}"@,
        8 => "\u{2807}"@,
        _ => "\u{280F}"@,
    }
}

fn spinner_frame(i: u64) -> (g: &'static str)
    ensures
        g@ == spinner_glyph(i),
{
    match i % 10 {
        0 => "\u{280B}",
        1 => "\u{2819}",
        2 => "\u{2839}",
        3 => "\u{2838}",
        4 => "\u{283C}",
        5 => "\u{2834}",
        6 => "\u{2826}",
        7 => "\u{2827}",
        8 => "\u{2807}",
        _ => "\u{280F}",
    }
}

/// How a piece of the run indicator is colored.
#[derive(Debug, Clone, Copy, PartialEq, Eq, Structural)]
pub enum IndicatorStyle {
    /// The spinner, in the primary color.
    Primary,
    /// The ` RUNNING` label, primary and bold.
    PrimaryBold,
    /// Separators.
    Muted,
    /// Stage, run facts and the abort hint: muted and dimmed.
    Dim,
}

/// The run facts after the stage: turn and tool-call counts once a request
/// started, and the elapsed time.
pub open spec fn run_facts(turn: u32, tool_calls: u32, elapsed_secs: u64) -> Seq<char> {
    if turn > 0 {
        " \u{b7} turn "@ + decimal(turn as nat) + " \u{b7} "@ + decimal(tool_calls as nat) + " tool call"@
            + (if tool_calls == 1 { ""@ } else { "s"@ }) + " \u{b7} "@ + elapsed_text(elapsed_secs as nat)
    } else {
        " \u{b7} "@ + elapsed_text(elapsed_secs as nat)
    }
}

/// The run indicator above the composer: spinner (by wall-clock time,
/// one frame per 80 ms), `RUNNING`, the stage, the run facts while a run
/// is tracked, and the abort hint.
pub open spec fn indicator_spans(s: RenderState, elapsed_ms: u64, run_elapsed_secs: u64) -> Seq<(Seq<char>, IndicatorStyle)> {
    let stage = match s.reasoning_stage { Some(t) => t@, None => "working\u{2026}"@ };
    let head = seq![
        (spinner_glyph(elapsed_ms / 80), IndicatorStyle::Primary),
        (" RUNNING"@, IndicatorStyle::PrimaryBold),
        (" | "@, IndicatorStyle::Muted),
        (stage, IndicatorStyle::Dim),
    ];
    let facts = match s.active_run {
        Some(r) => seq![(run_facts(r.turn, r.tool_calls, run_elapsed_secs), IndicatorStyle::Dim)],
        None => Seq::empty(),
    };
    head + facts + seq![("  Esc abort \u{b7} Ctrl+C quit"@, IndicatorStyle::Dim)]
}

/// The views of indicator spans.
pub open spec fn indicator_view(v: Seq<(String, IndicatorStyle)>) -> Seq<(Seq<char>, IndicatorStyle)> {
    v.map_values(|p: (String, IndicatorStyle)| (p.0@, p.1))
}

impl RenderState {
    /// The run indicator's spans; `elapsed_ms` is the animation clock and
    /// `run_elapsed_secs` the time since the tracked run started.
    pub fn reasoning_indicator(&self, elapsed_ms: u64, run_elapsed_secs: u64) -> (spans: Vec<(String, IndicatorStyle)>)
        ensures
            indicator_view(spans@) == indicator_spans(*self, elapsed_ms, run_elapsed_secs),
    {
        let mut spans: Vec<(String, IndicatorStyle)> = Vec::new();
        let frame = animation_frame(elapsed_ms, 80);
        spans.push((String::from_str(spinner_frame(frame)), IndicatorStyle::Primary));
        spans.push((String::from_str(" RUNNING"), IndicatorStyle::PrimaryBold));
        spans.push((String::from_str(" | "), IndicatorStyle::Muted));
        let stage = match &self.reasoning_stage {
            Some(t) => t.clone(),
            None => String::from_str("working\u{2026}"),
        };
        spans.push((stage, IndicatorStyle::Dim));
        match &self.active_run {
            Some(run) => {
                let elapsed = format_elapsed_secs(run_elapsed_secs);
                let mut facts = String::new();
                if run.turn > 0 {
                    push_str(&mut facts, " \u{b7} turn ");
                    push_decimal(&mut facts, run.turn as u64);
                    push_str(&mut facts, " \u{b7} ");
                    push_decimal(&mut facts, run.tool_calls as u64);
                    push_str(&mut facts, " tool call");
                    push_str(&mut facts, if run.tool_calls == 1 { "" } else { "s" });
                    push_str(&mut facts, " \u{b7} ");
                    push_str(&mut facts, elapsed.as_str());
                } else {
                    push_str(&mut facts, " \u{b7} ");
                    push_str(&mut facts, elapsed.as_str());
                }
                spans.push((facts, IndicatorStyle::Dim));
            },
            None => {},
        }
        spans.push((String::from_str("  Esc abort \u{b7} Ctrl+C quit"), IndicatorStyle::Dim));
        proof {
            reveal_strlit("");
        }
        assert(indicator_view(spans@) =~= indicator_spans(*self, elapsed_ms, run_elapsed_secs));
        spans
    }
}

/// The hint shown above the composer after a first Ctrl+C aborted a run.
pub fn pending_quit_hint() -> (t: &'static str)
    ensures
        t@ == "press Ctrl+C again to quit"@,
{
    "press Ctrl+C again to quit"
}

/// How a piece of the follow-up row is colored.
#[derive(Debug, Clone, Copy, PartialEq, Eq, Structural)]
pub enum ChipStyle {
    /// The `Suggestions:` label: muted and dimmed.
    Label,
    /// The gap between chips.
    Plain,
    /// A suggestion, in the primary color.
    Chip,
}

/// The follow-up row after the first `n` suggestions.
pub open spec fn follow_up_spans(chips: Seq<String>, n: int) -> Seq<(Seq<char>, ChipStyle)>
    decreases n,
{
    if n <= 0 {
        seq![("Suggestions: "@, ChipStyle::Label)]
    } else {
        let prev = follow_up_spans(chips, n - 1);
        let gap = if n - 1 > 0 { seq![("  "@, ChipStyle::Plain)] } else { Seq::empty() };
        prev + gap + seq![("["@ + chips[n - 1]@ + "]"@, ChipStyle::Chip)]
    }
}

/// The follow-up suggestions row: `Suggestions: [a]  [b]`.
pub fn follow_up_row(chips: &[String]) -> (spans: Vec<(String, ChipStyle)>)
    ensures
        spans@.map_values(|p: (String, ChipStyle)| (p.0@, p.1)) == follow_up_spans(chips@, chips@.len() as int),
{
    let mut spans: Vec<(String, ChipStyle)> = Vec::new();
    spans.push((String::from_str("Suggestions: "), ChipStyle::Label));
    let mut i: usize = 0;
    assert(spans@.map_values(|p: (String, ChipStyle)| (p.0@, p.1)) =~= follow_up_spans(chips@, 0));
    while i < chips.len()
        invariant
            i <= chips@.len(),
            spans@.map_values(|p: (String, ChipStyle)| (p.0@, p.1)) == follow_up_spans(chips@, i as int),
        decreases chips@.len() - i,
    {
        let ghost before = spans@;
        if i > 0 {
            spans.push((String::from_str("  "), ChipStyle::Plain));
        }
        let mut chip = String::from_str("[");
        push_str(&mut chip, chips[i].as_str());
        push_str(&mut chip, "]");
        spans.push((chip, ChipStyle::Chip));
        i += 1;
        assert(spans@.map_values(|p: (String, ChipStyle)| (p.0@, p.1)) =~= follow_up_spans(chips@, i as int));
    }
    spans
}

/// How a piece of the queue pane is colored.
#[derive(Debug, Clone, Copy, PartialEq, Eq, Structural)]
pub enum QueueStyle {
    /// The selected entry and the collapsed counter: primary, bold.
    Selected,
    /// Entry numbers.
    Number,
    /// Entry texts and the hint: secondary (the hint dimmed).
    Secondary,
}

/// The rows of the queue pane: one counter row while collapsed, one row
/// per queued prompt (`#n`, a `>` marker on the selection) when open.
pub open spec fn queue_rows(s: RenderState) -> Seq<Seq<(Seq<char>, QueueStyle)>> {
    let entries = s.queued_inputs@;
    let n = entries.len() as int;
    let selected = if s.queue_selected < n - 1 { s.queue_selected as int } else if n > 0 { n - 1 } else { 0 };
    if !s.queue_panel_open {
        seq![seq![("QUEUED "@ + decimal(n as nat), QueueStyle::Selected), (" | Ctrl+; manage"@, QueueStyle::Secondary)]]
    } else {
        Seq::new(n as nat, |i: int| {
            let sel = i == selected;
            let pre = if sel { QueueStyle::Selected } else { QueueStyle::Number };
            seq![
                ("#"@ + decimal((i + 1) as nat) + " "@, pre),
                (if sel { "> "@ } else { "  "@ }, pre),
                (entries[i]@, if sel { QueueStyle::Selected } else { QueueStyle::Secondary }),
            ]
        })
    }
}

/// The queue pane's height in rows and its rows.
pub fn queue_pane(s: &RenderState) -> (r: (u16, Vec<Vec<(String, QueueStyle)>>))
    requires
        s.queue_panel_open ==> (s.queued_inputs@.len() as u16) < 0xFFFF,
    ensures
        r.0 == (if s.queue_panel_open { (s.queued_inputs@.len() as u16) + 1 } else { 1 }),
        r.1@.map_values(|row: Vec<(String, QueueStyle)>| row@.map_values(|p: (String, QueueStyle)| (p.0@, p.1))) == queue_rows(*s),
{
    let n = s.queued_inputs.len();
    let mut rows: Vec<Vec<(String, QueueStyle)>> = Vec::new();
    let ghost want = queue_rows(*s);
    if !s.queue_panel_open {
        let mut row: Vec<(String, QueueStyle)> = Vec::new();
        let mut c = String::from_str("QUEUED ");
        push_decimal(&mut c, n as u64);
        row.push((c, QueueStyle::Selected));
        row.push((String::from_str(" | Ctrl+; manage"), QueueStyle::Secondary));
        assert(row@.map_values(|p: (String, QueueStyle)| (p.0@, p.1)) =~= want[0]);
        rows.push(row);
        assert(rows@.map_values(|row: Vec<(String, QueueStyle)>| row@.map_values(|p: (String, QueueStyle)| (p.0@, p.1))) =~= want);
        return (1, rows);
    }
    let selected = if n > 0 && s.queue_selected < n - 1 { s.queue_selected } else if n > 0 { n - 1 } else { 0 };
    let mut i: usize = 0;
    while i < n
        invariant
            i <= n == s.queued_inputs@.len(),
            s.queue_panel_open,
            want == queue_rows(*s),
            selected as int == (if s.queue_selected < n - 1 { s.queue_selected as int } else if n > 0 { n - 1 } else { 0 }),
            rows@.len() == i,
            forall|k: int| 0 <= k < i ==> (#[trigger] rows@[k])@.map_values(|p: (String, QueueStyle)| (p.0@, p.1)) == want[k],
        decreases n - i,
    {
        let sel = i == selected;
        let pre = if sel { QueueStyle::Selected } else { QueueStyle::Number };
        let mut num = String::from_str("#");
        push_decimal(&mut num, (i + 1) as u64);
        push_str(&mut num, " ");
        let mut row: Vec<(String, QueueStyle)> = Vec::new();
        row.push((num, pre));
        row.push((String::from_str(if sel { "> " } else { "  " }), pre));
        row.push((s.queued_inputs[i].clone(), if sel { QueueStyle::Selected } else { QueueStyle::Secondary }));
        assert(row@.map_values(|p: (String, QueueStyle)| (p.0@, p.1)) =~= want[i as int]);
        rows.push(row);
        i += 1;
    }
    let ghost got = rows@.map_values(|row: Vec<(String, QueueStyle)>| row@.map_values(|p: (String, QueueStyle)| (p.0@, p.1)));
    assert(want.len() == n);
    assert forall|k: int| 0 <= k < n implies got[k] == want[k] by {
        assert((rows@[k])@.map_values(|p: (String, QueueStyle)| (p.0@, p.1)) == want[k]);
    }
    assert(got =~= want);
    ((n as u16) + 1, rows)
}

} // verus!
