//! The todo HUD: task status model, progress counting, the next actionable
//! task, row texts, the progress spine, and the auto-clear policy.
use vstd::prelude::*;

use crate::numfmt::{decimal, push_decimal};
use crate::text::push_str;

verus! {

/// Status of one todo task.
#[derive(Debug, Clone, Copy, PartialEq, Eq, Structural)]
pub enum TodoStatus {
    Pending,
    InProgress,
    Completed,
    Abandoned,
    Blocked,
}

/// One todo task.
#[derive(Debug)]
pub struct TodoItem {
    pub content: String,
    pub status: TodoStatus,
    pub notes: Option<Vec<String>>,
    pub block_reason: Option<String>,
}

/// A named phase of tasks.
#[derive(Debug)]
pub struct TodoPhase {
    pub name: String,
    pub tasks: Vec<TodoItem>,
}

/// Closed means completed or abandoned.
pub open spec fn is_closed(s: TodoStatus) -> bool {
    s == TodoStatus::Completed || s == TodoStatus::Abandoned
}

/// Open work: pending or in progress.
pub open spec fn is_open_work(s: TodoStatus) -> bool {
    s == TodoStatus::Pending || s == TodoStatus::InProgress
}

/// The number of closed tasks among `tasks[..n]`.
pub open spec fn closed_in(tasks: Seq<TodoItem>, n: int) -> nat
    decreases n,
{
    if n <= 0 {
        0
    } else {
        closed_in(tasks, n - 1) + if is_closed(tasks[n - 1].status) { 1nat } else { 0nat }
    }
}

pub proof fn lemma_closed_in_bound(tasks: Seq<TodoItem>, n: int)
    ensures
        closed_in(tasks, n) <= if n < 0 { 0 } else { n },
    decreases n,
{
    if n > 0 {
        lemma_closed_in_bound(tasks, n - 1);
    }
}

/// Closed = completed or abandoned (the collapsed window hides both).
pub fn closed_count(tasks: &[TodoItem]) -> (c: usize)
    ensures
        c == closed_in(tasks@, tasks@.len() as int),
{
    let mut c: usize = 0;
    let mut i: usize = 0;
    while i < tasks.len()
        invariant
            i <= tasks.len(),
            c == closed_in(tasks@, i as int),
        decreases tasks.len() - i,
    {
        proof {
            lemma_closed_in_bound(tasks@, i as int);
        }
        if matches!(tasks[i].status, TodoStatus::Completed | TodoStatus::Abandoned) {
            c += 1;
        }
        i += 1;
    }
    c
}

/// A phase has open work.
pub open spec fn phase_active(p: TodoPhase) -> bool {
    exists|k: int| 0 <= k < p.tasks@.len() && is_open_work((#[trigger] p.tasks@[k]).status)
}

fn phase_has_open_work(p: &TodoPhase) -> (r: bool)
    ensures
        r == phase_active(*p),
{
    let mut k: usize = 0;
    while k < p.tasks.len()
        invariant
            k <= p.tasks.len(),
            forall|j: int| 0 <= j < k ==> !is_open_work((#[trigger] p.tasks@[j]).status),
        decreases p.tasks.len() - k,
    {
        if matches!(p.tasks[k].status, TodoStatus::Pending | TodoStatus::InProgress) {
            return true;
        }
        k += 1;
    }
    false
}

/// Index of the first phase with pending/in-progress work; falls back to
/// the last phase (index 0 when there is none).
pub fn active_phase_index(phases: &[TodoPhase]) -> (i: usize)
    ensures
        (exists|k: int| 0 <= k < phases@.len() && phase_active(#[trigger] phases@[k])) ==> {
            &&& i < phases@.len()
            &&& phase_active(phases@[i as int])
            &&& forall|k: int| 0 <= k < i ==> !phase_active(#[trigger] phases@[k])
        },
        !(exists|k: int| 0 <= k < phases@.len() && phase_active(#[trigger] phases@[k])) ==> i == (if phases@.len() == 0 { 0 } else { phases@.len() - 1 }),
{
    let mut k: usize = 0;
    while k < phases.len()
        invariant
            k <= phases.len(),
            forall|j: int| 0 <= j < k ==> !phase_active(#[trigger] phases@[j]),
        decreases phases.len() - k,
    {
        if phase_has_open_work(&phases[k]) {
            return k;
        }
        k += 1;
    }
    if phases.len() == 0 { 0 } else { phases.len() - 1 }
}

/// Whether every task is closed and at least one task exists.
pub open spec fn settled(phases: Seq<TodoPhase>) -> bool {
    &&& exists|p: int| 0 <= p < phases.len() && (#[trigger] phases[p]).tasks@.len() > 0
    &&& forall|p: int, t: int| 0 <= p < phases.len() && 0 <= t < phases[p].tasks@.len() ==> is_closed(#[trigger] phases[p].tasks@[t].status)
}

/// Whether every task in the list is closed (`Completed`/`Abandoned`) and at
/// least one task exists.
pub fn is_todo_list_settled(phases: &[TodoPhase]) -> (r: bool)
    ensures
        r == settled(phases@),
{
    let mut seen = false;
    let mut p: usize = 0;
    while p < phases.len()
        invariant
            p <= phases.len(),
            forall|a: int, t: int| 0 <= a < p && 0 <= t < phases@[a].tasks@.len() ==> is_closed(#[trigger] phases@[a].tasks@[t].status),
            seen == exists|a: int| 0 <= a < p && (#[trigger] phases@[a]).tasks@.len() > 0,
        decreases phases.len() - p,
    {
        let tasks = &phases[p].tasks;
        let mut t: usize = 0;
        while t < tasks.len()
            invariant
                p < phases.len(),
                tasks@ == phases@[p as int].tasks@,
                t <= tasks.len(),
                forall|a: int, u: int| 0 <= a < p && 0 <= u < phases@[a].tasks@.len() ==> is_closed(#[trigger] phases@[a].tasks@[u].status),
                forall|u: int| 0 <= u < t ==> is_closed(#[trigger] tasks@[u].status),
            decreases tasks.len() - t,
        {
            if !matches!(tasks[t].status, TodoStatus::Completed | TodoStatus::Abandoned) {
                assert(!is_closed(phases@[p as int].tasks@[t as int].status));
                return false;
            }
            t += 1;
        }
        if tasks.len() > 0 {
            seen = true;
        }
        p += 1;
    }
    seen
}

/// The first in-progress task, else the first pending task, by
/// (phase, task) position.
pub open spec fn first_with(phases: Seq<TodoPhase>, s: TodoStatus, p: int, t: int) -> bool {
    &&& 0 <= p < phases.len() && 0 <= t < phases[p].tasks@.len()
    &&& phases[p].tasks@[t].status == s
    &&& forall|q: int, u: int| 0 <= q < phases.len() && 0 <= u < phases[q].tasks@.len() && (q < p || (q == p && u < t))
        ==> (#[trigger] phases[q].tasks@[u]).status != s
}

/// Some task of the list has status `s`.
pub open spec fn any_with(phases: Seq<TodoPhase>, s: TodoStatus) -> bool {
    exists|p: int, t: int| 0 <= p < phases.len() && 0 <= t < phases[p].tasks@.len() && (#[trigger] phases[p].tasks@[t]).status == s
}

/// First in-progress task, else the first pending task, else `None`, as a
/// `(phase, task)` position.
pub fn next_actionable_task(phases: &[TodoPhase]) -> (r: Option<(usize, usize)>)
    ensures
        any_with(phases@, TodoStatus::InProgress) ==> (r matches Some((p, t)) && first_with(phases@, TodoStatus::InProgress, p as int, t as int)),
        !any_with(phases@, TodoStatus::InProgress) && any_with(phases@, TodoStatus::Pending) ==> (r matches Some((p, t)) && first_with(phases@, TodoStatus::Pending, p as int, t as int)),
        !any_with(phases@, TodoStatus::InProgress) && !any_with(phases@, TodoStatus::Pending) ==> r is None,
{
    let mut first_pending: Option<(usize, usize)> = None;
    let mut p: usize = 0;
    while p < phases.len()
        invariant
            p <= phases.len(),
            forall|q: int, u: int| 0 <= q < p && 0 <= u < phases@[q].tasks@.len() ==> (#[trigger] phases@[q].tasks@[u]).status != TodoStatus::InProgress,
            first_pending is None ==> forall|q: int, u: int| 0 <= q < p && 0 <= u < phases@[q].tasks@.len() ==> (#[trigger] phases@[q].tasks@[u]).status != TodoStatus::Pending,
            first_pending matches Some((a, b)) ==> a < p && first_with(phases@, TodoStatus::Pending, a as int, b as int),
        decreases phases.len() - p,
    {
        let tasks = &phases[p].tasks;
        let mut t: usize = 0;
        while t < tasks.len()
            invariant
                p < phases.len(),
                tasks@ == phases@[p as int].tasks@,
                t <= tasks.len(),
                forall|q: int, u: int| 0 <= q < phases@.len() && 0 <= u < phases@[q].tasks@.len() && (q < p || (q == p && u < t))
                    ==> (#[trigger] phases@[q].tasks@[u]).status != TodoStatus::InProgress,
                first_pending is None ==> forall|q: int, u: int| 0 <= q < phases@.len() && 0 <= u < phases@[q].tasks@.len() && (q < p || (q == p && u < t))
                    ==> (#[trigger] phases@[q].tasks@[u]).status != TodoStatus::Pending,
                first_pending matches Some((a, b)) ==> (a < p || (a == p && b < t)) && first_with(phases@, TodoStatus::Pending, a as int, b as int),
            decreases tasks.len() - t,
        {
            if tasks[t].status == TodoStatus::InProgress {
                return Some((p, t));
            }
            if first_pending.is_none() && tasks[t].status == TodoStatus::Pending {
                first_pending = Some((p, t));
            }
            t += 1;
        }
        p += 1;
    }
    first_pending
}

/// The marker glyph of a todo row.
pub open spec fn marker_of(s: TodoStatus) -> Seq<char> {
    match s {
        TodoStatus::Completed => "\u{2713}"@,
        TodoStatus::InProgress => "\u{25b8}"@,
        _ => "\u{2610}"@,
    }
}

/// The text of a todo row after its marker: content, the block reason of a
/// blocked task, and ` ·N` when the task carries `N > 0` notes.
pub open spec fn todo_text(t: TodoItem) -> Seq<char> {
    let suffix = if t.status == TodoStatus::Blocked {
        match t.block_reason {
            Some(r) => " (blocked: "@ + r@ + ")"@,
            None => " (blocked)"@,
        }
    } else {
        Seq::empty()
    };
    let n: nat = match t.notes {
        Some(v) => v@.len(),
        None => 0,
    };
    let notes = if n == 0 { Seq::empty() } else { " \u{b7}"@ + decimal(n) };
    t.content@ + suffix + notes
}

/// A todo row as text: `(marker + " ", text)`. The row is struck through
/// when the task is completed or abandoned.
pub fn format_todo_line(todo: &TodoItem) -> (r: (String, String, bool))
    ensures
        r.0@ == marker_of(todo.status) + " "@,
        r.1@ == todo_text(*todo),
        r.2 == is_closed(todo.status),
{
    let mut marker = match todo.status {
        TodoStatus::Completed => String::from_str("\u{2713}"),
        TodoStatus::InProgress => String::from_str("\u{25b8}"),
        _ => String::from_str("\u{2610}"),
    };
    push_str(&mut marker, " ");
    let mut text = todo.content.clone();
    if todo.status == TodoStatus::Blocked {
        match &todo.block_reason {
            Some(r) => {
                push_str(&mut text, " (blocked: ");
                push_str(&mut text, r.as_str());
                push_str(&mut text, ")");
            },
            None => push_str(&mut text, " (blocked)"),
        }
    }
    let n = match &todo.notes {
        Some(v) => v.len(),
        None => 0,
    };
    if n != 0 {
        push_str(&mut text, " \u{b7}");
        push_decimal(&mut text, n as u64);
    }
    let strike = todo.status == TodoStatus::Completed || todo.status == TodoStatus::Abandoned;
    (marker, text, strike)
}

/// The progress spine: how many of the `path_len` tree cells are lit for
/// `closed` of `total` tasks, clamped so a partial plan lights at least one
/// cell and an open plan never fills the closing hook.
pub open spec fn spine_fill(closed: nat, total: nat, path_len: nat) -> nat {
    let raw: nat = if total == 0 { 0 } else { (closed * path_len) / total };
    let lo: nat = if closed > 0 && raw < 1 { 1 } else { raw };
    if closed < total && lo > path_len - 1 {
        if path_len >= 1 { (path_len - 1) as nat } else { 0 }
    } else {
        lo
    }
}

/// Lit cells of the progress spine.
pub fn spine_filled(closed: usize, total: usize, path_len: usize) -> (f: usize)
    requires
        closed <= total,
        (closed as int) * (path_len as int) <= usize::MAX,
    ensures
        f == spine_fill(closed as nat, total as nat, path_len as nat),
{
    let mut filled: usize = if total == 0 { 0 } else { closed * path_len / total };
    if closed > 0 && filled < 1 {
        filled = 1;
    }
    if closed < total {
        let cap = if path_len >= 1 { path_len - 1 } else { 0 };
        if filled > cap {
            filled = cap;
        }
    }
    filled
}

/// What the HUD auto-clear does on this frame.
#[derive(Debug, Clone, Copy, PartialEq, Eq, Structural)]
pub enum TodoClear {
    /// Drop any pending deadline (clearing disabled or list not settled).
    Disarm,
    /// Clear the HUD now and drop the deadline.
    ClearNow,
    /// Start the countdown: set the deadline `delay` seconds from now.
    Arm,
    /// Keep waiting for the armed deadline.
    Wait,
}

/// HUD-only auto-clear policy: a negative delay disables clearing, an
/// unsettled list disarms, a zero delay clears at once; otherwise the
/// deadline is armed once and the HUD clears when it passes.
pub fn todo_clear_step(delay_secs: i64, settled: bool, armed: bool, deadline_passed: bool) -> (c: TodoClear)
    ensures
        c == (if delay_secs < 0 || !settled {
            TodoClear::Disarm
        } else if delay_secs == 0 {
            TodoClear::ClearNow
        } else if !armed {
            TodoClear::Arm
        } else if deadline_passed {
            TodoClear::ClearNow
        } else {
            TodoClear::Wait
        }),
{
    if delay_secs < 0 || !settled {
        TodoClear::Disarm
    } else if delay_secs == 0 {
        TodoClear::ClearNow
    } else if !armed {
        TodoClear::Arm
    } else if deadline_passed {
        TodoClear::ClearNow
    } else {
        TodoClear::Wait
    }
}

/// Tasks in the first `n` phases.
pub open spec fn tasks_in(phases: Seq<TodoPhase>, n: int) -> nat
    decreases n,
{
    if n <= 0 { 0 } else { tasks_in(phases, n - 1) + phases[n - 1].tasks@.len() }
}

/// Closed tasks in the first `n` phases.
pub open spec fn closed_tasks_in(phases: Seq<TodoPhase>, n: int) -> nat
    decreases n,
{
    if n <= 0 { 0 } else { closed_tasks_in(phases, n - 1) + closed_in(phases[n - 1].tasks@, phases[n - 1].tasks@.len() as int) }
}

pub proof fn lemma_closed_tasks_bound(phases: Seq<TodoPhase>, n: int)
    requires
        0 <= n <= phases.len(),
    ensures
        closed_tasks_in(phases, n) <= tasks_in(phases, n),
    decreases n,
{
    if n > 0 {
        lemma_closed_tasks_bound(phases, n - 1);
        lemma_closed_in_bound(phases[n - 1].tasks@, phases[n - 1].tasks@.len() as int);
    }
}

pub proof fn lemma_tasks_mono(phases: Seq<TodoPhase>, i: int, j: int)
    requires
        0 <= i <= j <= phases.len(),
    ensures
        tasks_in(phases, i) <= tasks_in(phases, j),
    decreases j - i,
{
    if i < j {
        lemma_tasks_mono(phases, i, j - 1);
    }
}

/// The short todo line's counter: `TODO closed/total `.
pub fn todo_counter(phases: &[TodoPhase]) -> (t: String)
    requires
        tasks_in(phases@, phases@.len() as int) <= usize::MAX,
    ensures
        t@ == "TODO "@ + crate::numfmt::decimal(closed_tasks_in(phases@, phases@.len() as int)) + "/"@
            + crate::numfmt::decimal(tasks_in(phases@, phases@.len() as int)) + " "@,
{
    let mut total: usize = 0;
    let mut closed: usize = 0;
    let mut i: usize = 0;
    while i < phases.len()
        invariant
            i <= phases@.len(),
            tasks_in(phases@, phases@.len() as int) <= usize::MAX,
            total == tasks_in(phases@, i as int),
            closed == closed_tasks_in(phases@, i as int),
        decreases phases@.len() - i,
    {
        proof {
            lemma_tasks_mono(phases@, i + 1, phases@.len() as int);
            lemma_closed_tasks_bound(phases@, i + 1);
        }
        total = total + phases[i].tasks.len();
        closed = closed + closed_count(phases[i].tasks.as_slice());
        i += 1;
    }
    let mut t = String::from_str("TODO ");
    crate::numfmt::push_decimal(&mut t, closed as u64);
    crate::text::push_str(&mut t, "/");
    crate::numfmt::push_decimal(&mut t, total as u64);
    crate::text::push_str(&mut t, " ");
    t
}

} // verus!
