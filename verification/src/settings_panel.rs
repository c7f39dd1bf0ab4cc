//! Navigation of the tabbed settings panel and the decisions of its
//! keybinding editor.
use vstd::prelude::*;

use crate::overlay::{OverlayListItem, OverlayState};
use crate::render_state::RenderState;
use crate::text::{push_str, str_eq};
use crate::tool_box::strings_view;

verus! {

/// A heading row: title only (no selection, badge or subtitle).
pub open spec fn is_heading(item: OverlayListItem) -> bool {
    item.selection is None && item.badge is None && item.subtitle is None
}

fn heading(item: &OverlayListItem) -> (r: bool)
    ensures
        r == is_heading(*item),
{
    item.selection.is_none() && item.badge.is_none() && item.subtitle.is_none()
}

/// The title of the last heading among `items[..=idx]`.
pub open spec fn group_of(items: Seq<OverlayListItem>, idx: int) -> Option<Seq<char>>
    decreases idx,
{
    if idx < 0 {
        None
    } else if is_heading(items[idx]) {
        Some(items[idx].title@)
    } else if idx == 0 {
        None
    } else {
        group_of(items, idx - 1)
    }
}

/// Where `name` first occurs in `sections`.
pub open spec fn section_position(sections: Seq<String>, name: Seq<char>, k: int) -> Option<int>
    decreases sections.len() - k,
{
    if k < 0 || k >= sections.len() {
        None
    } else if sections[k]@ == name {
        Some(k)
    } else {
        section_position(sections, name, k + 1)
    }
}

/// The sidebar section of row `idx`: the section named by the last
/// heading at or above it.
pub open spec fn section_of(o: OverlayState, idx: int) -> Option<int> {
    if idx < 0 || idx >= o.items@.len() {
        None
    } else {
        match group_of(o.items@, idx) {
            Some(g) => section_position(o.sections@, g, 0),
            None => None,
        }
    }
}

/// The sidebar section index row `idx` belongs to, if any.
pub fn item_section_idx(overlay: &OverlayState, idx: usize) -> (r: Option<usize>)
    ensures
        match r {
            Some(k) => section_of(*overlay, idx as int) == Some(k as int),
            None => section_of(*overlay, idx as int) is None,
        },
{
    if idx >= overlay.items.len() {
        return None;
    }
    let n = overlay.items.len();
    let mut current: Option<usize> = None;
    let mut i: usize = 0;
    while i <= idx
        invariant
            i <= idx + 1,
            idx < n == overlay.items@.len(),
            match current {
                Some(h) => h < i && group_of(overlay.items@, i - 1) == Some(overlay.items@[h as int].title@),
                None => i == 0 || group_of(overlay.items@, i - 1) is None,
            },
        decreases idx + 1 - i,
    {
        if heading(&overlay.items[i]) {
            current = Some(i);
        }
        i += 1;
    }
    let h = match current {
        Some(h) => h,
        None => return None,
    };
    let g = &overlay.items[h].title;
    assert(group_of(overlay.items@, idx as int) == Some(g@));
    let mut k: usize = 0;
    assert(section_position(overlay.sections@, g@, 0) == section_position(overlay.sections@, g@, 0));
    while k < overlay.sections.len()
        invariant
            k <= overlay.sections@.len(),
            idx < overlay.items@.len(),
            group_of(overlay.items@, idx as int) == Some(g@),
            section_position(overlay.sections@, g@, 0) == section_position(overlay.sections@, g@, k as int),
        decreases overlay.sections@.len() - k,
    {
        if str_eq(overlay.sections[k].as_str(), g.as_str()) {
            return Some(k);
        }
        k += 1;
    }
    None
}

/// The first selectable row of section `target`: the first non-heading
/// row met while the last heading seen is titled `target`.
pub open spec fn anchor_from(items: Seq<OverlayListItem>, target: Seq<char>, in_target: bool, k: int) -> Option<int>
    decreases items.len() - k,
{
    if k < 0 || k >= items.len() {
        None
    } else if is_heading(items[k]) {
        anchor_from(items, target, items[k].title@ == target, k + 1)
    } else if in_target {
        Some(k)
    } else {
        anchor_from(items, target, in_target, k + 1)
    }
}

/// The row a jump to sidebar section `section_idx` selects, if the section
/// exists and has a selectable row.
pub fn section_anchor(overlay: &OverlayState, section_idx: usize) -> (r: Option<usize>)
    ensures
        section_idx >= overlay.sections@.len() ==> r is None,
        section_idx < overlay.sections@.len() ==> match r {
            Some(k) => anchor_from(overlay.items@, overlay.sections@[section_idx as int]@, false, 0) == Some(k as int),
            None => anchor_from(overlay.items@, overlay.sections@[section_idx as int]@, false, 0) is None,
        },
{
    if section_idx >= overlay.sections.len() {
        return None;
    }
    let target = &overlay.sections[section_idx];
    let mut in_target = false;
    let mut k: usize = 0;
    while k < overlay.items.len()
        invariant
            k <= overlay.items@.len(),
            section_idx < overlay.sections@.len(),
            target@ == overlay.sections@[section_idx as int]@,
            anchor_from(overlay.items@, target@, false, 0) == anchor_from(overlay.items@, target@, in_target, k as int),
        decreases overlay.items@.len() - k,
    {
        let item = &overlay.items[k];
        if heading(item) {
            in_target = str_eq(item.title.as_str(), target.as_str());
        } else if in_target {
            return Some(k);
        }
        k += 1;
    }
    None
}

/// Jumps the panel's selection to section `section_idx` when that section
/// has a selectable row; otherwise nothing changes.
pub fn jump_to_section(overlay: &mut OverlayState, section_idx: usize)
    ensures
        match (if section_idx < old(overlay).sections@.len() {
            anchor_from(old(overlay).items@, old(overlay).sections@[section_idx as int]@, false, 0)
        } else {
            None
        }) {
            Some(k) => *final(overlay) == (OverlayState { selected: k as usize, active_section: section_idx, ..*old(overlay) }),
            None => *final(overlay) == *old(overlay),
        },
{
    match section_anchor(overlay, section_idx) {
        Some(k) => {
            overlay.selected = k;
            overlay.active_section = section_idx;
        },
        None => {},
    }
}

/// Puts `status` in the panel's first line (adding one when there is none).
pub fn set_status_line(overlay: &mut OverlayState, status: String)
    ensures
        final(overlay).lines@ == (if old(overlay).lines@.len() == 0 {
            seq![status]
        } else {
            old(overlay).lines@.update(0, status)
        }),
        *final(overlay) == (OverlayState { lines: final(overlay).lines, ..*old(overlay) }),
{
    if overlay.lines.len() == 0 {
        overlay.lines.push(status);
    } else {
        overlay.lines.set(0, status);
    }
}

/// `o` is the "press a key combo" prompt for the action named `action`.
pub open spec fn is_key_capture_overlay(o: OverlayState, action: Seq<char>) -> bool {
    &&& o.title@ == "Keybinding: "@ + action
    &&& strings_view(o.lines@) == seq!["Press a key combo for "@ + action + " (Esc to cancel)\u{2026}"@]
    &&& o.key_capture matches Some(a) && a@ == action
    &&& o.items@.len() == 0 && o.selected == 0 && o.search is None && o.secure_input is None
    &&& o.tabs@.len() == 0 && o.active_tab == 0 && o.sections@.len() == 0 && o.active_section == 0
}

/// The "press a key combo" prompt for `action_name`.
pub fn build_key_capture_overlay(action_name: &str) -> (o: OverlayState)
    ensures
        is_key_capture_overlay(o, action_name@),
{
    let mut title = String::from_str("Keybinding: ");
    push_str(&mut title, action_name);
    let mut line = String::from_str("Press a key combo for ");
    push_str(&mut line, action_name);
    push_str(&mut line, " (Esc to cancel)\u{2026}");
    let mut lines: Vec<String> = Vec::new();
    lines.push(line);
    assert(strings_view(lines@) =~= seq!["Press a key combo for "@ + action_name@ + " (Esc to cancel)\u{2026}"@]);
    OverlayState {
        title,
        lines,
        items: Vec::new(),
        selected: 0,
        search: None,
        secure_input: None,
        tabs: Vec::new(),
        active_tab: 0,
        sections: Vec::new(),
        active_section: 0,
        key_capture: Some(String::from_str(action_name)),
    }
}

/// What replacing the capture prompt's line does (see `RenderState::set_capture_prompt_line`).
pub open spec fn capture_line_ok(old: RenderState, new: RenderState, line: Seq<char>) -> bool {
    &&& match old.overlay {
        Some(o) => new.overlay matches Some(n) && strings_view(n.lines@) == seq![line]
            && n == (OverlayState { lines: n.lines, ..o })
            && new == (RenderState { overlay: new.overlay, ..old }),
        None => new == old,
    }
}

impl RenderState {
    /// Replaces the lines of the open overlay by the single `line`.
    pub fn set_capture_prompt_line(&mut self, line: &str)
        ensures
            capture_line_ok(*old(self), *final(self), line@),
    {
        match self.overlay.take() {
            Some(mut o) => {
                let mut lines: Vec<String> = Vec::new();
                lines.push(String::from_str(line));
                assert(strings_view(lines@) =~= seq![line@]);
                o.lines = lines;
                self.overlay = Some(o);
            },
            None => {},
        }
    }
}

/// What a key pressed in the keybinding capture prompt does.
#[derive(Debug, PartialEq, Eq)]
pub enum CaptureDecision {
    /// Esc: back to the keybindings tab.
    Cancel,
    /// The key is refused; the prompt shows this line.
    Reject(String),
    /// Save this combo list for the action.
    Commit(Vec<String>),
}

/// The combos after capturing `text`: appended unless already bound.
pub open spec fn combos_with(current: Seq<Seq<char>>, text: Seq<char>) -> Seq<Seq<char>> {
    if current.contains(text) { current } else { current.push(text) }
}

/// Decides a captured key: Esc without Ctrl/Alt cancels; a key with no
/// canonical combo text (`combo` is `None`) or without Ctrl/Alt is refused
/// with a reason; otherwise its combo joins the action's `current` combos.
pub fn capture_decision(is_plain_esc: bool, has_ctrl_or_alt: bool, combo: Option<&str>, current: &Vec<String>) -> (d: CaptureDecision)
    ensures
        is_plain_esc ==> d == CaptureDecision::Cancel,
        !is_plain_esc && combo is None ==> (d matches CaptureDecision::Reject(m) && m@ ==
            "That key can't be captured (F-keys and arrows don't round-trip). Try another combo, Esc to cancel\u{2026}"@),
        !is_plain_esc && combo is Some && !has_ctrl_or_alt ==> (d matches CaptureDecision::Reject(m) && m@ ==
            "'"@ + combo.unwrap()@ + "' has no Ctrl or Alt \u{2014} it would hijack typing. Try another combo, Esc to cancel\u{2026}"@),
        !is_plain_esc && combo is Some && has_ctrl_or_alt ==> (d matches CaptureDecision::Commit(v)
            && strings_view(v@) == combos_with(strings_view(current@), combo.unwrap()@)),
{
    if is_plain_esc {
        return CaptureDecision::Cancel;
    }
    let text = match combo {
        None => {
            return CaptureDecision::Reject(String::from_str(
                "That key can't be captured (F-keys and arrows don't round-trip). Try another combo, Esc to cancel\u{2026}",
            ));
        },
        Some(t) => t,
    };
    if !has_ctrl_or_alt {
        let mut m = String::from_str("'");
        push_str(&mut m, text);
        push_str(&mut m, "' has no Ctrl or Alt \u{2014} it would hijack typing. Try another combo, Esc to cancel\u{2026}");
        return CaptureDecision::Reject(m);
    }
    let mut combos: Vec<String> = Vec::new();
    let mut found = false;
    let mut i: usize = 0;
    while i < current.len()
        invariant
            i <= current@.len(),
            strings_view(combos@) == strings_view(current@).take(i as int),
            found <==> strings_view(current@).take(i as int).contains(text@),
        decreases current@.len() - i,
    {
        if str_eq(current[i].as_str(), text) {
            found = true;
        }
        let ghost before = combos@;
        combos.push(current[i].clone());
        proof {
            assert(strings_view(combos@) =~= strings_view(before).push(current@[i as int]@));
            let t0 = strings_view(current@).take(i as int);
            let t1 = strings_view(current@).take(i + 1);
            let x = current@[i as int]@;
            assert(t1 =~= t0.push(x));
            if t0.contains(text@) {
                let j = choose|j: int| 0 <= j < t0.len() && t0[j] == text@;
                assert(t1[j] == text@);
            }
            if x == text@ {
                assert(t1[i as int] == text@);
            }
            if t1.contains(text@) {
                let j = choose|j: int| 0 <= j < t1.len() && t1[j] == text@;
                if j < i {
                    assert(t0[j] == text@);
                }
            }
        }
        i += 1;
    }
    assert(strings_view(current@).take(current@.len() as int) =~= strings_view(current@));
    if !found {
        let ghost before = combos@;
        combos.push(String::from_str(text));
        assert(strings_view(combos@) =~= strings_view(before).push(text@));
    }
    CaptureDecision::Commit(combos)
}

/// What removing a combo from an action does.
#[derive(Debug, PartialEq, Eq)]
pub enum RemoveDecision {
    /// The action's last combo is never removed; the panel shows this line.
    Refuse(String),
    /// The combo was not bound: nothing to do.
    Unbound,
    /// Save this combo list for the action.
    Commit(Vec<String>),
}

/// The combos other than `combo`, in order.
pub open spec fn combos_without(current: Seq<Seq<char>>, combo: Seq<char>) -> Seq<Seq<char>>
    decreases current.len(),
{
    if current.len() == 0 {
        current
    } else {
        let prev = combos_without(current.drop_last(), combo);
        if current.last() != combo { prev.push(current.last()) } else { prev }
    }
}

/// Decides removing `combo` from the action named `action`, whose combos
/// are `current`: the last combo is refused, an unbound one changes
/// nothing, otherwise every copy of it goes.
pub fn remove_combo_decision(action: &str, current: &Vec<String>, combo: &str) -> (d: RemoveDecision)
    ensures
        current@.len() <= 1 ==> (d matches RemoveDecision::Refuse(m) && m@ == "Refusing to remove the last combo for "@
            + action@ + " \u{2014} add another first (Enter on the action row)"@),
        current@.len() > 1 && combos_without(strings_view(current@), combo@).len() == current@.len() ==> d == RemoveDecision::Unbound,
        current@.len() > 1 && combos_without(strings_view(current@), combo@).len() != current@.len() ==> (d matches RemoveDecision::Commit(v)
            && strings_view(v@) == combos_without(strings_view(current@), combo@)),
{
    if current.len() <= 1 {
        let mut m = String::from_str("Refusing to remove the last combo for ");
        push_str(&mut m, action);
        push_str(&mut m, " \u{2014} add another first (Enter on the action row)");
        return RemoveDecision::Refuse(m);
    }
    let mut next: Vec<String> = Vec::new();
    let mut i: usize = 0;
    while i < current.len()
        invariant
            i <= current@.len(),
            strings_view(next@) == combos_without(strings_view(current@).take(i as int), combo@),
        decreases current@.len() - i,
    {
        let ghost before = next@;
        proof {
            let s = strings_view(current@);
            assert(s.take(i + 1).drop_last() =~= s.take(i as int));
            assert(s.take(i + 1).last() == current@[i as int]@);
        }
        if !str_eq(current[i].as_str(), combo) {
            next.push(current[i].clone());
            assert(strings_view(next@) =~= strings_view(before).push(current@[i as int]@));
        }
        i += 1;
    }
    assert(strings_view(current@).take(current@.len() as int) =~= strings_view(current@));
    if next.len() == current.len() {
        RemoveDecision::Unbound
    } else {
        RemoveDecision::Commit(next)
    }
}

} // verus!
