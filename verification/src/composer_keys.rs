//! Keys that act on the composer row: popup and queue navigation, history
//! recall, the Esc ladder, completion, the queue pane's editing keys, and
//! shell-mode submission.
use vstd::prelude::*;

use crate::controls::history_with;
use crate::prompt_queue::{move_possible, queue_view, swapped, PromptQueue};
use crate::render_state::{tip_shown, EphemeralTip, RenderState};
use crate::slash::SlashPopup;
use crate::text::{chars_of, contains, lowercase, push_str, unicode_lower};

verus! {

/// Moving a selection up in a list of `len` entries wraps to the bottom.
pub open spec fn wrap_up(sel: usize, len: usize) -> usize {
    if sel == 0 { (len - 1) as usize } else { (sel - 1) as usize }
}

/// Moving a selection down in a list of `len` entries wraps to the top.
pub open spec fn wrap_down(sel: usize, len: usize) -> usize {
    if sel + 1 >= len { 0 } else { (sel + 1) as usize }
}

/// The history entry Up recalls: one further back than the current
/// position (the most recent entry is skipped on the first press), capped
/// at the oldest.
pub open spec fn recall_pos(pos: Option<usize>, len: int) -> int {
    let p = match pos { Some(p) => p as int, None => 0 };
    if p + 1 < len - 1 { p + 1 } else { len - 1 }
}

/// What Up does on the composer row (see `RenderState::composer_up`).
pub open spec fn composer_up_ok(old: RenderState, new: RenderState, scroll: bool) -> bool {
    &&& if old.slash_popup.open && old.slash_popup.items@.len() > 0 {
        !scroll && new == (RenderState {
            slash_popup: SlashPopup { selected: wrap_up(old.slash_popup.selected, old.slash_popup.items@.len() as usize), ..old.slash_popup },
            ..old
        })
    } else if old.queue_panel_open && old.queued_inputs@.len() > 0 && old.composer@.len() == 0 {
        !scroll && new == (RenderState {
            queue_selected: wrap_up(old.queue_selected, old.queued_inputs@.len() as usize),
            ..old
        })
    } else if old.composer@.len() == 0 && old.prompt_history@.len() > 0 {
        let next = recall_pos(old.history_pos, old.prompt_history@.len() as int);
        &&& scroll
        &&& new.composer@ == old.prompt_history@[next]@
        &&& new == (RenderState {
            history_pos: Some(next as usize),
            composer: new.composer,
            ..old
        })
    } else {
        !scroll && new == old
    }
}

/// What Down does on the composer row (see `RenderState::composer_down`).
pub open spec fn composer_down_ok(old: RenderState, new: RenderState, scroll: bool) -> bool {
    &&& if old.slash_popup.open && old.slash_popup.items@.len() > 0 {
        !scroll && new == (RenderState {
            slash_popup: SlashPopup { selected: wrap_down(old.slash_popup.selected, old.slash_popup.items@.len() as usize), ..old.slash_popup },
            ..old
        })
    } else if old.queue_panel_open && old.queued_inputs@.len() > 0 && old.composer@.len() == 0 {
        !scroll && new == (RenderState {
            queue_selected: wrap_down(old.queue_selected, old.queued_inputs@.len() as usize),
            ..old
        })
    } else {
        scroll && new == old
    }
}

impl RenderState {
    /// Up on the composer: moves the slash-popup selection (wrapping), else
    /// the queue-pane selection when the pane is open over an empty
    /// composer, else recalls an older prompt into an empty composer.
    /// Returns whether the transcript should scroll one line up.
    #[verifier::spinoff_prover]
    #[verifier::rlimit(40)]
    pub fn composer_up(&mut self) -> (scroll: bool)
        ensures
            composer_up_ok(*old(self), *final(self), scroll),
    {
        if self.slash_popup.open && self.slash_popup.items.len() > 0 {
            let len = self.slash_popup.items.len();
            self.slash_popup.selected = if self.slash_popup.selected == 0 { len - 1 } else { self.slash_popup.selected - 1 };
            return false;
        }
        let empty = self.composer.as_str().is_empty();
        if self.queue_panel_open && self.queued_inputs.len() > 0 && empty {
            self.queue_selected = if self.queue_selected == 0 { self.queued_inputs.len() - 1 } else { self.queue_selected - 1 };
            return false;
        }
        if empty && self.prompt_history.len() > 0 {
            let pos = match self.history_pos { Some(p) => p, None => 0 };
            let last = self.prompt_history.len() - 1;
            let next = if pos < last && pos + 1 < last { pos + 1 } else { last };
            self.history_pos = Some(next);
            self.composer = self.prompt_history[next].clone();
            return true;
        }
        false
    }

    /// Down on the composer: moves the slash-popup or queue-pane selection
    /// (wrapping), else asks the transcript to scroll one line down.
    pub fn composer_down(&mut self) -> (scroll: bool)
        ensures
            composer_down_ok(*old(self), *final(self), scroll),
    {
        if self.slash_popup.open && self.slash_popup.items.len() > 0 {
            let len = self.slash_popup.items.len();
            self.slash_popup.selected = if self.slash_popup.selected >= len - 1 { 0 } else { self.slash_popup.selected + 1 };
            return false;
        }
        if self.queue_panel_open && self.queued_inputs.len() > 0 && self.composer.as_str().is_empty() {
            let len = self.queued_inputs.len();
            self.queue_selected = if self.queue_selected >= len - 1 { 0 } else { self.queue_selected + 1 };
            return false;
        }
        true
    }
}

/// What Esc did on the composer row.
#[derive(Debug, Clone, Copy, PartialEq, Eq, Structural)]
pub enum EscOutcome {
    /// Shell mode ended and its input was dropped.
    LeftShellMode,
    /// The slash popup closed.
    ClosedPopup,
    /// A second Esc in quick succession cleared the input.
    ClearedInput,
    /// A first Esc on non-empty input armed clearing and showed a hint.
    ArmedClear,
    /// Esc on an empty composer cancels the run.
    Cancel,
    /// Esc during the grace period after a cancel is ignored.
    Swallowed,
}

/// The hint shown when a first Esc arms clearing the input.
pub open spec fn is_esc_hint(t: EphemeralTip, now_tick: u64) -> bool {
    &&& t.text@ == "Press Esc again to clear input"@
    &&& t.born_tick == now_tick && t.ttl_ticks == 120 && t.key@ == "esc_clear"@ && !t.ambient
}

/// The closed, empty slash popup.
pub open spec fn popup_closed(p: SlashPopup) -> bool {
    !p.open && p.items@.len() == 0 && p.selected == 0
}

/// What Esc does on the composer row (see `RenderState::esc_key`).
pub open spec fn esc_ok(old: RenderState, new: RenderState, double_press: bool, in_grace: bool, now_tick: u64, r: EscOutcome) -> bool {
    &&& if old.shell_mode {
        r == EscOutcome::LeftShellMode && new.composer@.len() == 0
            && new == (RenderState { shell_mode: false, composer: new.composer, ..old })
    } else if old.slash_popup.open {
        r == EscOutcome::ClosedPopup && popup_closed(new.slash_popup)
            && new == (RenderState { slash_popup: new.slash_popup, ..old })
    } else if old.composer@.len() > 0 {
        if double_press {
            r == EscOutcome::ClearedInput && new.composer@.len() == 0
                && new == (RenderState { composer: new.composer, ..old })
        } else {
            r == EscOutcome::ArmedClear && (new.tip matches Some(t) && is_esc_hint(t, now_tick))
                && new == (RenderState { tip: new.tip, ..old })
        }
    } else {
        r == (if in_grace { EscOutcome::Swallowed } else { EscOutcome::Cancel }) && new == old
    }
}

/// What Tab does on the composer row (see `RenderState::tab_complete`).
pub open spec fn tab_ok(old: RenderState, new: RenderState, done: bool) -> bool {
    &&& done == (old.slash_popup.open && old.slash_popup.items@.len() > 0)
    &&& done ==> {
        &&& new.composer@ == "/"@ + old.slash_popup.items@[old.slash_popup.selected as int].name@ + " "@
        &&& popup_closed(new.slash_popup)
        &&& new == (RenderState { composer: new.composer, slash_popup: new.slash_popup, ..old })
    }
    &&& !done ==> new == old
}

impl RenderState {
    /// The Esc ladder on the composer: leave shell mode, else close the
    /// slash popup, else clear non-empty input on a second press
    /// (`double_press`: within the time window since the first) or arm it
    /// with a hint, else cancel the run unless a cancel is still in its
    /// grace period (`in_grace`).
    pub fn esc_key(&mut self, double_press: bool, in_grace: bool, now_tick: u64) -> (r: EscOutcome)
        ensures
            esc_ok(*old(self), *final(self), double_press, in_grace, now_tick, r),
    {
        if self.shell_mode {
            self.shell_mode = false;
            self.composer = String::new();
            return EscOutcome::LeftShellMode;
        }
        if self.slash_popup.open {
            self.slash_popup = SlashPopup { open: false, items: Vec::new(), selected: 0 };
            return EscOutcome::ClosedPopup;
        }
        if !self.composer.as_str().is_empty() {
            if double_press {
                self.composer = String::new();
                return EscOutcome::ClearedInput;
            }
            self.tip = Some(EphemeralTip {
                text: String::from_str("Press Esc again to clear input"),
                born_tick: now_tick,
                ttl_ticks: 120,
                key: "esc_clear",
                ambient: false,
            });
            proof {
                reveal_strlit("esc_clear");
            }
            return EscOutcome::ArmedClear;
        }
        if in_grace { EscOutcome::Swallowed } else { EscOutcome::Cancel }
    }

    /// Tab completes the selected slash command into the composer as
    /// `/<name> `, which closes the popup (the command token is complete).
    /// Returns whether it completed anything.
    pub fn tab_complete(&mut self) -> (done: bool)
        requires
            old(self).slash_popup.open && old(self).slash_popup.items@.len() > 0
                ==> old(self).slash_popup.selected < old(self).slash_popup.items@.len(),
        ensures
            tab_ok(*old(self), *final(self), done),
    {
        if !(self.slash_popup.open && self.slash_popup.items.len() > 0) {
            return false;
        }
        let mut t = String::from_str("/");
        push_str(&mut t, self.slash_popup.items[self.slash_popup.selected].name.as_str());
        push_str(&mut t, " ");
        self.composer = t;
        proof {
            reveal_strlit("/");
            reveal_strlit(" ");
            let c = self.composer@;
            assert(c.subrange(1, c.len() as int)[c.len() - 2] == ' ');
            assert(c.subrange(1, c.len() as int).contains(' '));
        }
        self.refresh_slash_popup();
        true
    }
}

/// The visible queue pane shows exactly the prompts waiting to run.
pub open spec fn queue_in_sync(s: RenderState, q: PromptQueue) -> bool {
    queue_view(q.view()) == queue_view(s.queued_inputs@)
}

/// The queue-pane keys apply: the composer is empty with no slash popup,
/// and the pane is open over a non-empty queue.
pub open spec fn queue_keys_active(s: RenderState) -> bool {
    s.composer@.len() == 0 && !s.slash_popup.open && s.queue_panel_open && s.queued_inputs@.len() > 0
}

/// The queue entry the pane acts on: the selection, clamped to the queue.
pub open spec fn queue_target(s: RenderState) -> int {
    if s.queue_selected < s.queued_inputs@.len() { s.queue_selected as int } else { s.queued_inputs@.len() - 1 }
}

fn swap_entries(v: &mut Vec<String>, i: usize, j: usize)
    requires
        i < old(v)@.len(),
        j < old(v)@.len(),
    ensures
        final(v)@ == swapped(old(v)@, i as int, j as int),
{
    let a = v[i].clone();
    let b = v[j].clone();
    v.set(i, b);
    v.set(j, a);
}

/// The effect of the `x`/`X` key: the target leaves both lists.
pub open spec fn queue_deleted(s: RenderState, s2: RenderState, q: Seq<String>, q2: Seq<String>) -> bool {
    let idx = queue_target(s);
    let vis2 = s.queued_inputs@.remove(idx);
    &&& q2 == (if idx < q.len() { q.remove(idx) } else { q })
    &&& s2.queued_inputs@ == vis2
    &&& s2 == (RenderState {
        queued_inputs: s2.queued_inputs,
        queue_selected: if s.queue_selected >= vis2.len() && vis2.len() > 0 { (vis2.len() - 1) as usize } else { s.queue_selected },
        ..s
    })
}

/// The effect of the `e` key when the target is queued: it leaves both
/// lists, fills the composer, and the pane closes.
pub open spec fn queue_edited(s: RenderState, s2: RenderState, q: Seq<String>, q2: Seq<String>) -> bool {
    let idx = queue_target(s);
    &&& q2 == q.remove(idx)
    &&& s2.queued_inputs@ == s.queued_inputs@.remove(idx)
    &&& s2.composer == q[idx]
    &&& s2 == (RenderState { queued_inputs: s2.queued_inputs, composer: s2.composer, queue_panel_open: false, ..s })
}

/// The effect of `J` (`down`) or `K`: the target swaps with its neighbour
/// in the queue when that is possible, and in the pane (which follows the
/// selection) when the pane has that neighbour too.
pub open spec fn queue_moved(s: RenderState, s2: RenderState, q: Seq<String>, q2: Seq<String>, down: bool) -> bool {
    let idx = queue_target(s);
    let vis = s.queued_inputs@;
    let other = if down { idx + 1 } else { idx - 1 };
    let moved = if down { move_possible(q.len() as int, idx, 1) } else { idx > 0 && move_possible(q.len() as int, idx, -1) };
    &&& q2 == (if moved { swapped(q, idx, other) } else { q })
    &&& if moved && 0 <= other < vis.len() {
        &&& s2.queued_inputs@ == swapped(vis, idx, other)
        &&& s2 == (RenderState { queued_inputs: s2.queued_inputs, queue_selected: other as usize, ..s })
    } else {
        s2 == s
    }
}

/// What a key does in the queue pane.
pub open spec fn queue_key_ok(s: RenderState, s2: RenderState, q: Seq<String>, q2: Seq<String>, ch: char, consumed: bool) -> bool {
    if !queue_keys_active(s) {
        !consumed && s2 == s && q2 == q
    } else if ch == 'x' || ch == 'X' {
        consumed && queue_deleted(s, s2, q, q2)
    } else if ch == 'e' {
        if queue_target(s) < q.len() {
            consumed && queue_edited(s, s2, q, q2)
        } else {
            !consumed && s2 == s && q2 == q
        }
    } else if ch == 'J' {
        consumed && queue_moved(s, s2, q, q2, true)
    } else if ch == 'K' {
        consumed && queue_moved(s, s2, q, q2, false)
    } else {
        !consumed && s2 == s && q2 == q
    }
}

impl RenderState {
    fn queue_delete(&mut self, queue: &mut PromptQueue, idx: usize)
        requires
            queue_keys_active(*old(self)),
            idx == queue_target(*old(self)),
        ensures
            queue_deleted(*old(self), *final(self), old(queue).view(), final(queue).view()),
    {
        let _ = queue.remove(idx);
        self.queued_inputs.remove(idx);
        if self.queue_selected >= self.queued_inputs.len() && self.queued_inputs.len() > 0 {
            self.queue_selected = self.queued_inputs.len() - 1;
        }
    }

    fn queue_move(&mut self, queue: &mut PromptQueue, idx: usize, down: bool)
        requires
            queue_keys_active(*old(self)),
            idx == queue_target(*old(self)),
        ensures
            queue_moved(*old(self), *final(self), old(queue).view(), final(queue).view(), down),
    {
        if down {
            if queue.move_by(idx, 1) && idx < self.queued_inputs.len() - 1 {
                swap_entries(&mut self.queued_inputs, idx, idx + 1);
                self.queue_selected = idx + 1;
            }
        } else {
            if idx > 0 && queue.move_by(idx, -1) {
                swap_entries(&mut self.queued_inputs, idx, idx - 1);
                self.queue_selected = idx - 1;
            }
        }
    }

    /// The queue pane's editing keys, acting on both the visible list and
    /// the prompt queue: `x`/`X` deletes the selected prompt, `e` takes it
    /// back into the composer (closing the pane), `J`/`K` move it down or
    /// up. Returns whether the key was consumed; other keys are not.
    pub fn queue_key(&mut self, queue: &mut PromptQueue, ch: char) -> (consumed: bool)
        ensures
            queue_key_ok(*old(self), *final(self), old(queue).view(), final(queue).view(), ch, consumed),
    {
        if !(self.composer.as_str().is_empty() && !self.slash_popup.open && self.queue_panel_open && self.queued_inputs.len() > 0) {
            return false;
        }
        let n = self.queued_inputs.len();
        let idx = if self.queue_selected < n { self.queue_selected } else { n - 1 };
        if ch == 'x' || ch == 'X' {
            self.queue_delete(queue, idx);
            return true;
        }
        if ch == 'e' {
            if idx < queue.len() {
                let entry = queue.remove(idx).unwrap();
                self.queued_inputs.remove(idx);
                self.composer = entry;
                self.queue_panel_open = false;
                return true;
            }
            return false;
        }
        if ch == 'J' || ch == 'K' {
            self.queue_move(queue, idx, ch == 'J');
            return true;
        }
        false
    }
}

/// The queue pane stays a faithful projection of the prompt queue: when
/// both list the same prompts, they still do after any key of the pane.
pub proof fn lemma_queue_key_keeps_sync(s: RenderState, s2: RenderState, q: PromptQueue, q2: PromptQueue, ch: char, consumed: bool)
    requires
        queue_in_sync(s, q),
        queue_key_ok(s, s2, q.view(), q2.view(), ch, consumed),
    ensures
        queue_in_sync(s2, q2),
{
    let a = q.view();
    let b = s.queued_inputs@;
    assert(a.len() == b.len()) by {
        assert(queue_view(a).len() == queue_view(b).len());
    }
    assert forall|i: int| 0 <= i < a.len() implies a[i]@ == b[i]@ by {
        assert(queue_view(a)[i] == queue_view(b)[i]);
    }
    if queue_keys_active(s) {
        let idx = queue_target(s);
        if ch == 'x' || ch == 'X' {
            assert(queue_view(q2.view()) =~= queue_view(s2.queued_inputs@));
        } else if ch == 'e' {
            if idx < a.len() {
                assert(queue_view(q2.view()) =~= queue_view(s2.queued_inputs@));
            }
        } else if ch == 'J' || ch == 'K' {
            assert(queue_view(q2.view()) =~= queue_view(s2.queued_inputs@));
        }
    }
}

/// The prompt a shell-mode line becomes.
pub open spec fn shell_prompt(cmd: Seq<char>) -> Seq<char> {
    "Run this shell command: `"@ + cmd + "`"@
}

/// What submitting in shell mode does (see `RenderState::shell_submit`).
pub open spec fn shell_submit_ok(old: RenderState, new: RenderState, r: Option<String>) -> bool {
    &&& new.composer@.len() == 0
    &&& old.composer@.len() == 0 ==> r is None
    &&& old.composer@.len() > 0 ==> (r matches Some(p) && p@ == shell_prompt(old.composer@))
    &&& new.prompt_history@ == (if old.composer@.len() > 0 {
        history_with(old.prompt_history@, old.composer)
    } else {
        old.prompt_history@
    })
    &&& new == (RenderState {
        composer: new.composer,
        shell_mode: false,
        history_pos: None,
        prompt_history: new.prompt_history,
        ..old
    })
}

/// What the planning nudge does (see `RenderState::plan_nudge`).
pub open spec fn nudge_ok(old: RenderState, new: RenderState, now_tick: u64) -> bool {
    &&& if old.tip is None && crate::text::seq_contains(unicode_lower(old.composer@), "plan"@) {
        &&& tip_shown(old, new, "plan_nudge", "Try /compact to summarize and plan ahead"@, 180, true, now_tick)
        &&& new == (RenderState { seen_tips: new.seen_tips, tip: new.tip, ..old })
    } else {
        new == old
    }
}

impl RenderState {
    /// Submits the composer in shell mode: the composer empties, shell mode
    /// and history browsing end, a non-empty line is recorded in the
    /// history and becomes a prompt asking the agent to run it.
    pub fn shell_submit(&mut self) -> (r: Option<String>)
        ensures
            shell_submit_ok(*old(self), *final(self), r),
    {
        let buf = self.composer.clone();
        self.composer = String::new();
        self.shell_mode = false;
        self.history_pos = None;
        if buf.as_str().is_empty() {
            return None;
        }
        let ghost h = self.prompt_history@;
        self.prompt_history.insert(0, buf.clone());
        self.prompt_history.truncate(100);
        assert(self.prompt_history@ =~= history_with(h, buf));
        let mut p = String::from_str("Run this shell command: `");
        push_str(&mut p, buf.as_str());
        push_str(&mut p, "`");
        Some(p)
    }

    /// Suggests `/compact` once the composer mentions a plan (in any
    /// letter case) while no tip is showing.
    pub fn plan_nudge(&mut self, now_tick: u64)
        ensures
            nudge_ok(*old(self), *final(self), now_tick),
    {
        if self.tip.is_some() {
            return;
        }
        let lower = lowercase(self.composer.as_str());
        let hay = chars_of(lower.as_str());
        let needle = chars_of("plan");
        if contains(hay.as_slice(), needle.as_slice()) {
            self.show_tip("plan_nudge", "Try /compact to summarize and plan ahead", 180, true, now_tick);
        }
    }
}

} // verus!
