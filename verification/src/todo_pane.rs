//! The sticky todo pane: the phase tree under a `TODO` title, with a
//! progress spine down its left edge.
use vstd::prelude::*;

use crate::numfmt::{decimal, push_decimal};
use crate::panel::Tone;
use crate::text::push_str;
use crate::todo::{
    closed_count, closed_in, closed_tasks_in, is_closed, lemma_closed_in_bound, lemma_closed_tasks_bound,
    lemma_tasks_mono, marker_of, phase_active, spine_fill, spine_filled, tasks_in, todo_text, format_todo_line,
    TodoItem, TodoPhase, TodoStatus,
};

verus! {

/// Phases shown after the active one in the collapsed pane.
pub const SUBSEQUENT_STAGE_CAP: usize = 4;

/// Color, weight and strike-through of a piece of the pane.
#[derive(Debug, Clone, Copy, PartialEq, Eq, Structural)]
pub struct TodoLook {
    pub tone: Tone,
    pub bold: bool,
    pub strike: bool,
}

/// A piece of a pane line.
#[derive(Debug, Clone)]
pub struct TodoSpan {
    pub text: String,
    pub look: TodoLook,
}

impl View for TodoSpan {
    type V = (Seq<char>, TodoLook);

    open spec fn view(&self) -> (Seq<char>, TodoLook) {
        (self.text@, self.look)
    }
}

pub open spec fn line_view(l: Seq<TodoSpan>) -> Seq<(Seq<char>, TodoLook)> {
    l.map_values(|s: TodoSpan| s@)
}

pub open spec fn pane_view(v: Seq<Vec<TodoSpan>>) -> Seq<Seq<(Seq<char>, TodoLook)>> {
    v.map_values(|l: Vec<TodoSpan>| line_view(l@))
}

pub open spec fn tlook(tone: Tone, bold: bool, strike: bool) -> TodoLook {
    TodoLook { tone, bold, strike }
}

/// `n` in Roman numerals (subtractive form; nothing for 0).
pub open spec fn roman(n: nat) -> Seq<char>
    decreases n,
{
    if n >= 1000 { "M"@ + roman((n - 1000) as nat) }
    else if n >= 900 { "CM"@ + roman((n - 900) as nat) }
    else if n >= 500 { "D"@ + roman((n - 500) as nat) }
    else if n >= 400 { "CD"@ + roman((n - 400) as nat) }
    else if n >= 100 { "C"@ + roman((n - 100) as nat) }
    else if n >= 90 { "XC"@ + roman((n - 90) as nat) }
    else if n >= 50 { "L"@ + roman((n - 50) as nat) }
    else if n >= 40 { "XL"@ + roman((n - 40) as nat) }
    else if n >= 10 { "X"@ + roman((n - 10) as nat) }
    else if n >= 9 { "IX"@ + roman((n - 9) as nat) }
    else if n >= 5 { "V"@ + roman((n - 5) as nat) }
    else if n >= 4 { "IV"@ + roman((n - 4) as nat) }
    else if n >= 1 { "I"@ + roman((n - 1) as nat) }
    else { Seq::empty() }
}

/// `n` in Roman numerals (see `roman`).
pub fn roman_numeral(n: usize) -> (out: String)
    ensures
        out@ == roman(n as nat),
{
    let mut out = String::new();
    let mut m = n;
    while m > 0
        invariant
            out@ + roman(m as nat) == roman(n as nat),
        decreases m,
    {
        let ghost before = out@;
        let (step, text): (usize, &str) = if m >= 1000 { (1000, "M") }
            else if m >= 900 { (900, "CM") }
            else if m >= 500 { (500, "D") }
            else if m >= 400 { (400, "CD") }
            else if m >= 100 { (100, "C") }
            else if m >= 90 { (90, "XC") }
            else if m >= 50 { (50, "L") }
            else if m >= 40 { (40, "XL") }
            else if m >= 10 { (10, "X") }
            else if m >= 9 { (9, "IX") }
            else if m >= 5 { (5, "V") }
            else if m >= 4 { (4, "IV") }
            else { (1, "I") };
        assert(roman(m as nat) == text@ + roman((m - step) as nat));
        push_str(&mut out, text);
        assert(out@ + roman((m - step) as nat) =~= before + roman(m as nat));
        m = m - step;
    }
    assert(out@ + roman(0) =~= out@);
    out
}

/// The indices of the phases with tasks, among the first `n`.
pub open spec fn kept_from(phases: Seq<TodoPhase>, n: int) -> Seq<int>
    decreases n,
{
    if n <= 0 {
        Seq::empty()
    } else if phases[n - 1].tasks@.len() > 0 {
        kept_from(phases, n - 1).push(n - 1)
    } else {
        kept_from(phases, n - 1)
    }
}

/// The phases with tasks, in order.
pub open spec fn kept(phases: Seq<TodoPhase>) -> Seq<int> {
    kept_from(phases, phases.len() as int)
}

/// The active position among the kept phases from `j` on: the first with
/// open work, else the last.
pub open spec fn first_active(phases: Seq<TodoPhase>, ks: Seq<int>, j: int) -> int
    decreases ks.len() - j,
{
    if j >= ks.len() {
        if ks.len() == 0 { 0 } else { ks.len() - 1 }
    } else if phase_active(phases[ks[j]]) {
        j
    } else {
        first_active(phases, ks, j + 1)
    }
}

/// The look of a task's text: completed in the foreground and struck,
/// in progress in the primary color, abandoned in the error color and
/// struck, blocked in the info color, pending in the primary color when a
/// running agent matches it, else muted.
pub open spec fn task_look(t: TodoItem, matched: bool) -> TodoLook {
    match t.status {
        TodoStatus::Completed => tlook(Tone::Foreground, false, true),
        TodoStatus::InProgress => tlook(Tone::Primary, false, false),
        TodoStatus::Abandoned => tlook(Tone::Error, false, true),
        TodoStatus::Blocked => tlook(Tone::Info, false, false),
        TodoStatus::Pending => if matched { tlook(Tone::Primary, false, false) } else { tlook(Tone::Secondary, false, false) },
    }
}

/// A task line: its marker in the task's color, then its text.
pub open spec fn task_line(t: TodoItem, matched: bool) -> Seq<(Seq<char>, TodoLook)> {
    let l = task_look(t, matched);
    seq![(marker_of(t.status) + " "@, tlook(l.tone, false, false)), (todo_text(t), l)]
}

/// The header of a phase at position `j` of the kept phases: with several
/// phases `<roman>. <name> · <closed>/<total>`, else the name; accented
/// when active, muted otherwise.
pub open spec fn header_line(p: TodoPhase, j: int, multi: bool, active: bool) -> Seq<(Seq<char>, TodoLook)> {
    let text = if multi {
        roman((j + 1) as nat) + ". "@ + p.name@ + " \u{b7} "@ + decimal(closed_in(p.tasks@, p.tasks@.len() as int)) + "/"@ + decimal(p.tasks@.len())
    } else {
        p.name@
    };
    seq![(text, if active { tlook(Tone::Primary, true, false) } else { tlook(Tone::Secondary, false, false) })]
}

/// The task lines of a phase: all of them when expanded; for the active
/// phase of the collapsed pane the selected ones and the summary line.
pub open spec fn phase_tasks(p: TodoPhase, matched: Seq<bool>, expanded: bool, active: bool, sel: Seq<usize>, summary: Option<Seq<char>>) -> Seq<Seq<(Seq<char>, TodoLook)>> {
    if expanded {
        Seq::new(p.tasks@.len(), |k: int| task_line(p.tasks@[k], matched[k]))
    } else if active {
        Seq::new(sel.len(), |k: int| task_line(p.tasks@[sel[k] as int], matched[sel[k] as int]))
            + match summary { Some(s) => seq![seq![(s, tlook(Tone::Secondary, false, false))]], None => Seq::empty() }
    } else {
        Seq::empty()
    }
}

/// The lines of the kept phases at positions `from..to`.
pub open spec fn blocks(phases: Seq<TodoPhase>, matched: Seq<Seq<bool>>, ks: Seq<int>, act: int, expanded: bool, sel: Seq<usize>, summary: Option<Seq<char>>, from: int, to: int) -> Seq<Seq<(Seq<char>, TodoLook)>>
    decreases to - from,
{
    if to <= from {
        Seq::empty()
    } else {
        let j = to - 1;
        let p = phases[ks[j]];
        blocks(phases, matched, ks, act, expanded, sel, summary, from, j)
            + seq![header_line(p, j, ks.len() > 1, j == act)]
            + phase_tasks(p, matched[ks[j]], expanded, j == act, sel, summary)
    }
}

/// Where the pane's phase window ends: every phase when expanded, else the
/// active one and up to four after it.
pub open spec fn window_end(k: int, act: int, expanded: bool) -> int {
    if expanded { k } else if act + 1 + SUBSEQUENT_STAGE_CAP < k { act + 1 + SUBSEQUENT_STAGE_CAP } else { k }
}

/// The pane's content rows: the phase window, then `… N more stage(s)`
/// for the phases after it.
pub open spec fn pane_content(phases: Seq<TodoPhase>, matched: Seq<Seq<bool>>, expanded: bool, sel: Seq<usize>, summary: Option<Seq<char>>) -> Seq<Seq<(Seq<char>, TodoLook)>> {
    let ks = kept(phases);
    let act = first_active(phases, ks, 0);
    let base = if expanded { 0 } else { act };
    let end = window_end(ks.len() as int, act, expanded);
    let hidden = ks.len() - end;
    blocks(phases, matched, ks, act, expanded, sel, summary, base, end)
        + if hidden > 0 {
            seq![seq![("\u{2026} "@ + decimal(hidden as nat) + " more stage"@ + (if hidden == 1 { ""@ } else { "s"@ }), tlook(Tone::Secondary, false, false))]]
        } else {
            Seq::empty()
        }
}

/// The pane: nothing without a phase that has tasks; else the `TODO`
/// title, each content row behind its tree glyph (`├─` first, `│ ` after),
/// and the closing hook `└`. The first `spine_fill` cells of the tree
/// path (content rows, then the hook) are lit in the primary color.
pub open spec fn pane_lines(phases: Seq<TodoPhase>, matched: Seq<Seq<bool>>, expanded: bool, sel: Seq<usize>, summary: Option<Seq<char>>) -> Seq<Seq<(Seq<char>, TodoLook)>> {
    if kept(phases).len() == 0 {
        Seq::empty()
    } else {
        let content = pane_content(phases, matched, expanded, sel, summary);
        let path_len = content.len() + 1;
        let filled = spine_fill(closed_tasks_in(phases, phases.len() as int), tasks_in(phases, phases.len() as int), path_len);
        let lit = |i: int| if i < filled { tlook(Tone::Primary, false, false) } else { tlook(Tone::Secondary, false, false) };
        seq![seq![("TODO"@, tlook(Tone::Primary, true, false))]]
            + Seq::new(content.len(), |i: int| seq![(if i == 0 { " \u{251c}\u{2500}"@ } else { " \u{2502} "@ }, lit(i))] + content[i])
            + seq![seq![(" \u{2514}"@, lit(content.len() as int))]]
    }
}

proof fn lemma_kept_len(phases: Seq<TodoPhase>, n: int)
    requires
        0 <= n,
    ensures
        kept_from(phases, n).len() <= n,
    decreases n,
{
    if n > 0 {
        lemma_kept_len(phases, n - 1);
    }
}

fn kept_indices(phases: &[TodoPhase]) -> (v: Vec<usize>)
    ensures
        v@.len() == kept(phases@).len(),
        forall|i: int| 0 <= i < v@.len() ==> v@[i] as int == #[trigger] kept(phases@)[i],
        forall|i: int| 0 <= i < v@.len() ==> (#[trigger] v@[i]) < phases@.len(),
{
    let mut v: Vec<usize> = Vec::new();
    let mut n: usize = 0;
    while n < phases.len()
        invariant
            n <= phases@.len(),
            v@.len() == kept_from(phases@, n as int).len(),
            forall|i: int| 0 <= i < v@.len() ==> v@[i] as int == #[trigger] kept_from(phases@, n as int)[i],
            forall|i: int| 0 <= i < v@.len() ==> (#[trigger] v@[i]) < n,
        decreases phases@.len() - n,
    {
        if phases[n].tasks.len() > 0 {
            v.push(n);
        }
        n += 1;
    }
    v
}

fn has_open_work(p: &TodoPhase) -> (r: bool)
    ensures
        r == phase_active(*p),
{
    let mut k: usize = 0;
    while k < p.tasks.len()
        invariant
            k <= p.tasks.len(),
            forall|j: int| 0 <= j < k ==> !crate::todo::is_open_work((#[trigger] p.tasks@[j]).status),
        decreases p.tasks.len() - k,
    {
        if matches!(p.tasks[k].status, TodoStatus::Pending | TodoStatus::InProgress) {
            return true;
        }
        k += 1;
    }
    false
}

fn active_position(phases: &[TodoPhase], ks: &Vec<usize>) -> (a: usize)
    requires
        ks@.len() == kept(phases@).len(),
        forall|i: int| 0 <= i < ks@.len() ==> ks@[i] as int == #[trigger] kept(phases@)[i],
        forall|i: int| 0 <= i < ks@.len() ==> (#[trigger] ks@[i]) < phases@.len(),
    ensures
        a as int == first_active(phases@, kept(phases@), 0),
        ks@.len() > 0 ==> a < ks@.len(),
{
    let ghost kk = kept(phases@);
    let mut j: usize = 0;
    while j < ks.len()
        invariant
            j <= ks@.len() == kk.len(),
            kk == kept(phases@),
            forall|i: int| 0 <= i < ks@.len() ==> ks@[i] as int == #[trigger] kk[i],
            forall|i: int| 0 <= i < ks@.len() ==> (#[trigger] ks@[i]) < phases@.len(),
            first_active(phases@, kk, 0) == first_active(phases@, kk, j as int),
        decreases ks@.len() - j,
    {
        assert(ks@[j as int] as int == kk[j as int]);
        if has_open_work(&phases[ks[j]]) {
            return j;
        }
        j += 1;
    }
    if ks.len() == 0 { 0 } else { ks.len() - 1 }
}

fn span(text: String, look: TodoLook) -> (s: TodoSpan)
    ensures
        s@ == (text@, look),
{
    TodoSpan { text, look }
}

fn task_row(t: &TodoItem, matched: bool) -> (l: Vec<TodoSpan>)
    ensures
        line_view(l@) == task_line(*t, matched),
{
    let look = match t.status {
        TodoStatus::Completed => TodoLook { tone: Tone::Foreground, bold: false, strike: true },
        TodoStatus::InProgress => TodoLook { tone: Tone::Primary, bold: false, strike: false },
        TodoStatus::Abandoned => TodoLook { tone: Tone::Error, bold: false, strike: true },
        TodoStatus::Blocked => TodoLook { tone: Tone::Info, bold: false, strike: false },
        TodoStatus::Pending => if matched {
            TodoLook { tone: Tone::Primary, bold: false, strike: false }
        } else {
            TodoLook { tone: Tone::Secondary, bold: false, strike: false }
        },
    };
    let (marker, text, _) = format_todo_line(t);
    let mut l: Vec<TodoSpan> = Vec::new();
    l.push(span(marker, TodoLook { tone: look.tone, bold: false, strike: false }));
    l.push(span(text, look));
    assert(line_view(l@) =~= task_line(*t, matched));
    l
}

fn header_row(p: &TodoPhase, j: usize, multi: bool, active: bool) -> (l: Vec<TodoSpan>)
    requires
        j < usize::MAX,
    ensures
        line_view(l@) == header_line(*p, j as int, multi, active),
{
    let text = if multi {
        let mut t = roman_numeral(j + 1);
        push_str(&mut t, ". ");
        push_str(&mut t, p.name.as_str());
        push_str(&mut t, " \u{b7} ");
        push_decimal(&mut t, closed_count(p.tasks.as_slice()) as u64);
        push_str(&mut t, "/");
        push_decimal(&mut t, p.tasks.len() as u64);
        t
    } else {
        p.name.clone()
    };
    let look = if active {
        TodoLook { tone: Tone::Primary, bold: true, strike: false }
    } else {
        TodoLook { tone: Tone::Secondary, bold: false, strike: false }
    };
    let mut l: Vec<TodoSpan> = Vec::new();
    l.push(span(text, look));
    assert(line_view(l@) =~= header_line(*p, j as int, multi, active));
    l
}

fn push_line(lines: &mut Vec<Vec<TodoSpan>>, l: Vec<TodoSpan>)
    ensures
        pane_view(final(lines)@) == pane_view(old(lines)@).push(line_view(l@)),
{
    let ghost before = lines@;
    let ghost lv = line_view(l@);
    lines.push(l);
    assert(pane_view(lines@) =~= pane_view(before).push(lv));
}

/// The well-formed inputs of a pane: a match flag per task, and (for the
/// collapsed pane) selected rows of the active phase.
pub open spec fn pane_inputs_ok(phases: Seq<TodoPhase>, matched: Seq<Seq<bool>>, expanded: bool, sel: Seq<usize>) -> bool {
    &&& matched.len() == phases.len()
    &&& forall|i: int| 0 <= i < phases.len() ==> (#[trigger] matched[i]).len() == phases[i].tasks@.len()
    &&& !expanded && kept(phases).len() > 0 ==> {
        let p = phases[kept(phases)[first_active(phases, kept(phases), 0)]];
        forall|k: int| 0 <= k < sel.len() ==> (#[trigger] sel[k] as int) < p.tasks@.len()
    }
}

pub open spec fn bools_view(v: Seq<Vec<bool>>) -> Seq<Seq<bool>> {
    v.map_values(|b: Vec<bool>| b@)
}

fn push_tasks(
    lines: &mut Vec<Vec<TodoSpan>>,
    p: &TodoPhase,
    matched: &Vec<bool>,
    expanded: bool,
    active: bool,
    sel: &Vec<usize>,
    summary: &Option<String>,
)
    requires
        matched@.len() == p.tasks@.len(),
        !expanded && active ==> forall|k: int| 0 <= k < sel@.len() ==> (#[trigger] sel@[k] as int) < p.tasks@.len(),
    ensures
        pane_view(final(lines)@) == pane_view(old(lines)@) + phase_tasks(*p, matched@, expanded, active, sel@,
            match summary { Some(s) => Some(s@), None => None }),
{
    let ghost start = pane_view(lines@);
    if expanded {
        let ghost want = Seq::new(p.tasks@.len(), |k: int| task_line(p.tasks@[k], matched@[k]));
        let mut k: usize = 0;
        while k < p.tasks.len()
            invariant
                k <= p.tasks@.len() == matched@.len(),
                want == Seq::new(p.tasks@.len(), |k: int| task_line(p.tasks@[k], matched@[k])),
                pane_view(lines@) == start + want.take(k as int),
            decreases p.tasks@.len() - k,
        {
            push_line(lines, task_row(&p.tasks[k], matched[k]));
            assert(want.take(k + 1) =~= want.take(k as int).push(want[k as int]));
            k += 1;
        }
        assert(want.take(k as int) =~= want);
    } else if active {
        let ghost want = Seq::new(sel@.len(), |k: int| task_line(p.tasks@[sel@[k] as int], matched@[sel@[k] as int]));
        let mut k: usize = 0;
        while k < sel.len()
            invariant
                k <= sel@.len(),
                matched@.len() == p.tasks@.len(),
                forall|k: int| 0 <= k < sel@.len() ==> (#[trigger] sel@[k] as int) < p.tasks@.len(),
                want == Seq::new(sel@.len(), |k: int| task_line(p.tasks@[sel@[k] as int], matched@[sel@[k] as int])),
                pane_view(lines@) == start + want.take(k as int),
            decreases sel@.len() - k,
        {
            let i = sel[k];
            push_line(lines, task_row(&p.tasks[i], matched[i]));
            assert(want.take(k + 1) =~= want.take(k as int).push(want[k as int]));
            k += 1;
        }
        assert(want.take(k as int) =~= want);
        match summary {
            Some(s) => {
                let mut l: Vec<TodoSpan> = Vec::new();
                l.push(span(s.clone(), TodoLook { tone: Tone::Secondary, bold: false, strike: false }));
                assert(line_view(l@) =~= seq![(s@, tlook(Tone::Secondary, false, false))]);
                push_line(lines, l);
            },
            None => {},
        }
    }
    assert(pane_view(lines@) =~= start + phase_tasks(*p, matched@, expanded, active, sel@,
        match summary { Some(s) => Some(s@), None => None }));
}

fn task_totals(phases: &[TodoPhase]) -> (r: (usize, usize))
    requires
        tasks_in(phases@, phases@.len() as int) <= usize::MAX,
    ensures
        r.0 as int == closed_tasks_in(phases@, phases@.len() as int),
        r.1 as int == tasks_in(phases@, phases@.len() as int),
        r.0 <= r.1,
{
    let mut closed: usize = 0;
    let mut total: usize = 0;
    let mut i: usize = 0;
    while i < phases.len()
        invariant
            i <= phases@.len(),
            tasks_in(phases@, phases@.len() as int) <= usize::MAX,
            closed as int == closed_tasks_in(phases@, i as int),
            total as int == tasks_in(phases@, i as int),
        decreases phases@.len() - i,
    {
        proof {
            lemma_tasks_mono(phases@, i + 1, phases@.len() as int);
            lemma_closed_tasks_bound(phases@, i + 1);
        }
        total = total + phases[i].tasks.len();
        closed = closed + closed_count(phases[i].tasks.as_slice());
        i += 1;
    }
    proof {
        lemma_closed_tasks_bound(phases@, phases@.len() as int);
    }
    (closed, total)
}

/// Lit cells of the spine (see `spine_fill`), computed without overflow.
fn spine(closed: usize, total: usize, path_len: u128) -> (f: u128)
    requires
        closed <= total,
        1 <= path_len <= usize::MAX as u128 + 1,
    ensures
        f as nat == spine_fill(closed as nat, total as nat, path_len as nat),
{
    let raw: u128 = if total == 0 {
        0
    } else {
        let c = closed as u128;
        assert(c * path_len <= (usize::MAX as u128) * (usize::MAX as u128 + 1)) by (nonlinear_arith)
            requires c <= usize::MAX as u128, path_len <= usize::MAX as u128 + 1;
        assert((usize::MAX as u128) * (usize::MAX as u128 + 1) <= u128::MAX) by (nonlinear_arith)
            requires usize::MAX as u128 <= 0xffff_ffff_ffff_ffffu128;
        c * path_len / (total as u128)
    };
    let lo: u128 = if closed > 0 && raw < 1 { 1 } else { raw };
    if closed < total && lo > path_len - 1 { path_len - 1 } else { lo }
}

/// The todo pane's lines (see `pane_lines`): `matched` flags every task a
/// running agent works on; for the collapsed pane, `selection` picks the
/// rows of the active phase and `summary` is the line that stands for the
/// rest.
pub fn render_todo_pane(
    phases: &[TodoPhase],
    expanded: bool,
    matched: &Vec<Vec<bool>>,
    selection: &Vec<usize>,
    summary: &Option<String>,
) -> (lines: Vec<Vec<TodoSpan>>)
    requires
        pane_inputs_ok(phases@, bools_view(matched@), expanded, selection@),
        tasks_in(phases@, phases@.len() as int) <= usize::MAX,
    ensures
        pane_view(lines@) == pane_lines(phases@, bools_view(matched@), expanded, selection@,
            match summary { Some(s) => Some(s@), None => None }),
{
    let ghost mv = bools_view(matched@);
    let ghost sv = match summary { Some(s) => Some(s@), None => None };
    let ks = kept_indices(phases);
    let ghost kk = kept(phases@);
    proof {
        lemma_kept_len(phases@, phases@.len() as int);
    }
    let mut lines: Vec<Vec<TodoSpan>> = Vec::new();
    if ks.len() == 0 {
        assert(pane_view(lines@) =~= Seq::<Seq<(Seq<char>, TodoLook)>>::empty());
        return lines;
    }
    let act = active_position(phases, &ks);
    let k = ks.len();
    let base = if expanded { 0 } else { act };
    let end = if expanded { k } else if k > 1 + SUBSEQUENT_STAGE_CAP && act < k - 1 - SUBSEQUENT_STAGE_CAP { act + 1 + SUBSEQUENT_STAGE_CAP } else { k };
    let multi = k > 1;
    let mut content: Vec<Vec<TodoSpan>> = Vec::new();
    let mut j = base;
    while j < end
        invariant
            base <= j <= end <= k == ks@.len() == kk.len(),
            k <= phases@.len(),
            kk == kept(phases@),
            mv == bools_view(matched@),
            sv == (match summary { Some(s) => Some(s@), None => None }),
            act as int == first_active(phases@, kk, 0),
            act < k,
            multi == (k > 1),
            pane_inputs_ok(phases@, mv, expanded, selection@),
            forall|i: int| 0 <= i < ks@.len() ==> ks@[i] as int == #[trigger] kk[i],
            forall|i: int| 0 <= i < ks@.len() ==> (#[trigger] ks@[i]) < phases@.len(),
            pane_view(content@) == blocks(phases@, mv, kk, act as int, expanded, selection@, sv, base as int, j as int),
        decreases end - j,
    {
        let pi = ks[j];
        assert(pi as int == kk[j as int]);
        assert(mv[pi as int] == matched@[pi as int]@);
        push_line(&mut content, header_row(&phases[pi], j, multi, j == act));
        push_tasks(&mut content, &phases[pi], &matched[pi], expanded, j == act, selection, summary);
        j += 1;
    }
    assert(end as int == window_end(k as int, act as int, expanded));
    let ghost blocks_v = pane_view(content@);
    let hidden = k - end;
    if hidden > 0 {
        let mut t = String::from_str("\u{2026} ");
        push_decimal(&mut t, hidden as u64);
        push_str(&mut t, " more stage");
        push_str(&mut t, if hidden == 1 { "" } else { "s" });
        let ghost tv = "\u{2026} "@ + decimal(hidden as nat) + " more stage"@ + (if hidden == 1 { ""@ } else { "s"@ });
        assert(t@ =~= tv);
        let mut l: Vec<TodoSpan> = Vec::new();
        l.push(span(t, TodoLook { tone: Tone::Secondary, bold: false, strike: false }));
        assert(line_view(l@) =~= seq![(tv, tlook(Tone::Secondary, false, false))]);
        push_line(&mut content, l);
    }
    let ghost cv = pane_view(content@);
    assert(cv =~= pane_content(phases@, mv, expanded, selection@, sv));
    let (closed, total) = task_totals(phases);
    let n = content.len();
    let filled = spine(closed, total, n as u128 + 1);
    let ghost want = pane_lines(phases@, mv, expanded, selection@, sv);
    let mut title: Vec<TodoSpan> = Vec::new();
    title.push(span(String::from_str("TODO"), TodoLook { tone: Tone::Primary, bold: true, strike: false }));
    assert(line_view(title@) =~= seq![("TODO"@, tlook(Tone::Primary, true, false))]);
    push_line(&mut lines, title);
    assert(want[0] == seq![("TODO"@, tlook(Tone::Primary, true, false))]);
    assert(pane_view(lines@) =~= want.take(1));
    let mut i: usize = 0;
    let ghost orig = content@;
    while i < n
        invariant
            i <= n == orig.len(),
            content@ == orig.skip(i as int),
            cv == pane_view(orig),
            filled as nat == spine_fill(closed_tasks_in(phases@, phases@.len() as int), tasks_in(phases@, phases@.len() as int), (n + 1) as nat),
            cv == pane_content(phases@, mv, expanded, selection@, sv),
            kept(phases@).len() > 0,
            want == pane_lines(phases@, mv, expanded, selection@, sv),
            pane_view(lines@) == want.take(i + 1),
        decreases n - i,
    {
        let mut l = content.remove(0);
        assert(l == orig[i as int]);
        let look = if (i as u128) < filled {
            TodoLook { tone: Tone::Primary, bold: false, strike: false }
        } else {
            TodoLook { tone: Tone::Secondary, bold: false, strike: false }
        };
        let mut row: Vec<TodoSpan> = Vec::new();
        row.push(span(String::from_str(if i == 0 { " \u{251c}\u{2500}" } else { " \u{2502} " }), look));
        let ghost lv = line_view(l@);
        row.append(&mut l);
        proof {
            assert(lv == cv[i as int]);
            assert(line_view(row@) =~= want[i + 1]);
            assert(content@ =~= orig.skip(i + 1));
        }
        push_line(&mut lines, row);
        assert(want.take(i + 2) =~= want.take(i + 1).push(want[i + 1]));
        i += 1;
    }
    let hook = if (n as u128) < filled {
        TodoLook { tone: Tone::Primary, bold: false, strike: false }
    } else {
        TodoLook { tone: Tone::Secondary, bold: false, strike: false }
    };
    let mut last: Vec<TodoSpan> = Vec::new();
    last.push(span(String::from_str(" \u{2514}"), hook));
    assert(line_view(last@) =~= want[n + 1]);
    push_line(&mut lines, last);
    assert(want.len() == n + 2);
    assert(pane_view(lines@) =~= want);
    lines
}

} // verus!
