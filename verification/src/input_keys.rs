//! Routing a key press on the input side. The modal layers come first: the
//! keybinding capture prompt, global shortcuts, the confirmation dialog and
//! the overlay; then the composer row: rebindable submit / scroll / help,
//! and the keys that act on the composer, the queue pane and the
//! transcript. The key map, the text editor and the vim engine live with
//! the host: it resolves the key map into a `KeyPress` and carries out the
//! returned `KeyEffect`s.
use vstd::prelude::*;

use crate::composer_keys::{
    composer_down_ok, composer_up_ok, esc_ok, queue_key_ok, shell_submit_ok, tab_ok, EscOutcome,
};
use crate::controls::{
    action_name_spec, confirmation_key_ok, global_action_ok, harvest_ok, overlay_key_ok, overlay_prompt_wf,
    ConfirmedEvent, GlobalAction, InlineEvent,
};
use crate::help::{cheatsheet_overlay, cheatsheet_text};
use crate::overlay::{KeyInput, OverlayKeyOutcome};
use crate::prompt_queue::PromptQueue;
use crate::render_state::{cycle_ok, expand_all_ok, jump_next_ok, jump_prev_ok, search_next_ok, search_prev_ok, RenderState};
use crate::secure::role_key_prompt_ok;
use crate::setting_defs::{SettingsMapRow, SettingsTab};
use crate::settings_panel::{capture_decision, capture_line_ok, combos_with, CaptureDecision};
use crate::text::push_str;
use crate::tool_box::strings_view;

verus! {

/// A key press as the host resolved it against the live key map.
#[derive(Debug)]
pub struct KeyPress {
    pub key: KeyInput,
    /// Shift is held.
    pub shift: bool,
    /// Ctrl or Alt is held.
    pub ctrl_or_alt: bool,
    /// The global shortcut the key map binds to this key, if any.
    pub global: Option<GlobalAction>,
    /// The key map binds this key to submit, page up, page down, help.
    pub binds_submit: bool,
    pub binds_scroll_up: bool,
    pub binds_scroll_down: bool,
    pub binds_help: bool,
    /// The key's canonical combo text (`Ctrl+p`), when it has one.
    pub combo: Option<String>,
}

/// The rebindable composer actions a key press resolves to.
#[derive(Debug, Clone, Copy, PartialEq, Eq, Structural)]
pub enum KeymapDispatch {
    Submit,
    ScrollPageUp,
    ScrollPageDown,
    Help,
    Unbound,
}

/// Submit, page up, page down and help as the key map binds them, with
/// two carve-outs: plain Enter in multiline mode inserts a newline, and a
/// printable help key is left to the composer (typing `?` inserts it).
pub open spec fn pre_match(k: KeyPress, multiline: bool) -> KeymapDispatch {
    let plain_enter_multiline = k.key == KeyInput::Enter && multiline && !k.shift;
    if k.binds_submit && !plain_enter_multiline {
        KeymapDispatch::Submit
    } else if k.binds_scroll_up {
        KeymapDispatch::ScrollPageUp
    } else if k.binds_scroll_down {
        KeymapDispatch::ScrollPageDown
    } else if k.binds_help && !(k.key is Char) {
        KeymapDispatch::Help
    } else {
        KeymapDispatch::Unbound
    }
}

/// The rebindable action of a key press (see `pre_match`).
pub fn keymap_pre_match(k: &KeyPress, multiline: bool) -> (d: KeymapDispatch)
    ensures
        d == pre_match(*k, multiline),
{
    let plain_enter_multiline = k.key == KeyInput::Enter && multiline && !k.shift;
    if k.binds_submit && !plain_enter_multiline {
        KeymapDispatch::Submit
    } else if k.binds_scroll_up {
        KeymapDispatch::ScrollPageUp
    } else if k.binds_scroll_down {
        KeymapDispatch::ScrollPageDown
    } else if k.binds_help && !matches!(k.key, KeyInput::Char(_)) {
        KeymapDispatch::Help
    } else {
        KeymapDispatch::Unbound
    }
}

/// An edit of the composer's text, carried out by the host's editor.
#[derive(Debug, Clone, Copy, PartialEq, Eq, Structural)]
pub enum EditOp {
    Insert(char),
    Newline,
    Backspace,
    Delete,
    Left,
    Right,
}

/// Work a key press leaves to the host.
#[derive(Debug, PartialEq, Eq)]
pub enum KeyEffect {
    /// Rebuild the settings panel on its keybindings tab, with this status.
    ReopenKeybindings(Option<String>),
    /// Save these combos for `action`, then reopen the panel with `status`.
    CommitKeybindings { action: GlobalAction, combos: Vec<String>, status: String },
    /// Rebuild the settings panel for this tab.
    SwitchSettingsTab(usize),
    /// Toggle the agent's autonomy mode.
    ToggleMode,
    /// Apply this edit to the composer.
    Edit(EditOp),
    /// Hand this character to the vim engine.
    Vim(char),
    /// Edit a map entry of the settings panel.
    MapRow(MapRowAction),
}

/// What a settings-panel hotkey asks of the host for the selected map row.
#[derive(Debug, PartialEq, Eq)]
pub enum MapRowAction {
    /// Open the model-pattern prompt of this role.
    EditModelRole(String),
    /// Remove this combo from the action (the last combo is refused).
    RemoveCombo { action: GlobalAction, combo: String },
    /// Delete this model role.
    RemoveModelRole(String),
}

/// The settings panel is open with a fresh map-row table: the hotkeys of
/// its map entries apply.
pub open spec fn map_editor_active(s: RenderState) -> bool {
    s.overlay matches Some(o) && o.tabs@.len() > 1 && o.key_capture is None
        && s.settings_map_rows@.len() == o.items@.len()
}

/// The map entry behind the selected settings row, if any.
pub open spec fn selected_map_row(s: RenderState) -> Option<SettingsMapRow> {
    if map_editor_active(s) && s.overlay->0.selected < s.settings_map_rows@.len() {
        s.settings_map_rows@[s.overlay->0.selected as int]
    } else {
        None
    }
}

/// The overlay has no search text.
pub open spec fn search_empty(s: RenderState) -> bool {
    s.overlay matches Some(o) && (o.search is None || o.search->0.value@.len() == 0)
}

/// The settings-panel hotkeys take `key`: Enter on a model role, `d` on a
/// map row, `n` on the Model tab (the last two only without search text).
pub open spec fn map_row_takes(s: RenderState, key: KeyInput) -> bool {
    ||| key == KeyInput::Enter && selected_map_row(s) matches Some(SettingsMapRow::ModelRole(_))
    ||| key == KeyInput::Char('d') && search_empty(s) && selected_map_row(s) is Some
    ||| key == KeyInput::Char('n') && search_empty(s) && map_editor_active(s) && s.settings_active_tab == SettingsTab::Model
}

/// What a settings-panel hotkey does: Enter edits the selected model role,
/// `d` removes the selected combo or role, `n` opens the new-role prompt.
pub open spec fn map_row_ok(old: RenderState, new: RenderState, key: KeyInput, fx: Seq<KeyEffect>) -> bool {
    if key == KeyInput::Enter {
        &&& new == old
        &&& fx.len() == 1
        &&& (fx[0] matches KeyEffect::MapRow(MapRowAction::EditModelRole(r))
            && selected_map_row(old) matches Some(SettingsMapRow::ModelRole(x)) && r@ == x@)
    } else if key == KeyInput::Char('d') && selected_map_row(old) is Some {
        &&& new == old
        &&& fx.len() == 1
        &&& match selected_map_row(old) {
            Some(SettingsMapRow::KeybindingCombo(a, c)) =>
                fx[0] matches KeyEffect::MapRow(MapRowAction::RemoveCombo { action, combo }) && action == a && combo@ == c@,
            Some(SettingsMapRow::ModelRole(r)) =>
                fx[0] matches KeyEffect::MapRow(MapRowAction::RemoveModelRole(x)) && x@ == r@,
            None => false,
        }
    } else {
        role_key_prompt_ok(old, new) && fx.len() == 0
    }
}

/// What a key press did: whether it was consumed, the events for the event
/// loop, and the host's work.
#[derive(Debug)]
pub struct KeyOutcome {
    pub consumed: bool,
    pub events: Vec<InlineEvent>,
    pub effects: Vec<KeyEffect>,
}

/// The slash popup's selection is one of its items.
pub open spec fn popup_wf(s: RenderState) -> bool {
    s.slash_popup.open && s.slash_popup.items@.len() > 0 ==> s.slash_popup.selected < s.slash_popup.items@.len()
}

/// The state the key routing needs: popup, overlay prompt and search
/// cursor in range.
pub open spec fn keys_wf(s: RenderState) -> bool {
    popup_wf(s) && overlay_prompt_wf(s.overlay) && s.search_wf()
}

impl RenderState {
    /// Whether the state is ready for key routing (see `keys_wf`).
    pub fn keys_ready(&self) -> (r: bool)
        ensures
            r == keys_wf(*self),
    {
        let popup = !(self.slash_popup.open && self.slash_popup.items.len() > 0)
            || self.slash_popup.selected < self.slash_popup.items.len();
        let prompt = match &self.overlay {
            Some(o) => match &o.secure_input {
                Some(si) => si.cursor <= si.chars.len() && si.chars.len() < usize::MAX,
                None => true,
            },
            None => true,
        };
        let search = match &self.search {
            Some(s) => s.matches.len() == 0 || s.current < s.matches.len(),
            None => true,
        };
        popup && prompt && search
    }
}

/// The refusal line for a key without combo text.
pub open spec fn unnamed_key_line() -> Seq<char> {
    "That key can't be captured (F-keys and arrows don't round-trip). Try another combo, Esc to cancel\u{2026}"@
}

/// The refusal line for a combo without Ctrl or Alt.
pub open spec fn plain_key_line(t: Seq<char>) -> Seq<char> {
    "'"@ + t + "' has no Ctrl or Alt \u{2014} it would hijack typing. Try another combo, Esc to cancel\u{2026}"@
}

/// What a key does to the capture prompt for the action named `name`, whose
/// live combos are `combos`: an unknown action closes the prompt; Esc
/// without Ctrl/Alt goes back to the keybindings tab; a key without combo
/// text or without Ctrl/Alt is refused on the prompt; any other combo joins
/// the action's combos.
pub open spec fn capture_ok(old: RenderState, new: RenderState, name: Seq<char>, k: KeyPress, combos: Seq<Seq<char>>, fx: Seq<KeyEffect>) -> bool {
    if !(exists|a: GlobalAction| action_name_spec(a) == name) {
        new == (RenderState { overlay: None, ..old }) && fx.len() == 0
    } else if k.key == KeyInput::Esc && !k.ctrl_or_alt {
        new == old && fx == seq![KeyEffect::ReopenKeybindings(None)]
    } else {
        match k.combo {
            None => capture_line_ok(old, new, unnamed_key_line()) && fx.len() == 0,
            Some(t) => if !k.ctrl_or_alt {
                capture_line_ok(old, new, plain_key_line(t@)) && fx.len() == 0
            } else {
                &&& new == old
                &&& fx.len() == 1
                &&& (fx[0] matches KeyEffect::CommitKeybindings { action, combos: v, status }
                    && action_name_spec(action) == name && strings_view(v@) == combos_with(combos, t@)
                    && status@ == "Captured "@ + t@ + " for "@ + name)
            },
        }
    }
}

/// The events a confirmed dialog sends.
pub open spec fn confirmed_events(r: Option<ConfirmedEvent>) -> Seq<InlineEvent> {
    match r {
        Some(ConfirmedEvent::Exit) => seq![InlineEvent::Exit],
        Some(ConfirmedEvent::Submit(t)) => seq![InlineEvent::Submit(t)],
        None => Seq::empty(),
    }
}

/// What a key does in the modal layers, in priority order: the capture
/// prompt, a global shortcut, the confirmation dialog, the overlay. The
/// key goes on to the composer only when `out.consumed` is false.
pub open spec fn modal_ok(old: RenderState, new: RenderState, k: KeyPress, combos: Seq<Seq<char>>, out: KeyOutcome) -> bool {
    if old.overlay matches Some(o) && o.key_capture is Some {
        &&& out.consumed
        &&& out.events@.len() == 0
        &&& capture_ok(old, new, old.overlay->0.key_capture->0@, k, combos, out.effects@)
    } else if k.global is Some {
        out.consumed && out.effects@.len() == 0 && global_action_ok(old, new, k.global->0, out.events@)
    } else if old.confirmation is Some {
        &&& out.consumed
        &&& out.effects@.len() == 0
        &&& exists|r: Option<ConfirmedEvent>| #![trigger confirmation_key_ok(old, new, k.key, r)]
            confirmation_key_ok(old, new, k.key, r) && out.events@ == confirmed_events(r)
    } else if old.overlay is Some && old.overlay->0.secure_input is None && map_row_takes(old, k.key) {
        out.consumed && out.events@.len() == 0 && map_row_ok(old, new, k.key, out.effects@)
    } else if old.overlay is Some {
        exists|o: OverlayKeyOutcome| #![trigger overlay_key_ok(old, new, k.key, o)] {
            &&& overlay_key_ok(old, new, k.key, o)
            &&& out.consumed == o.consumed
            &&& out.events@ == (if o.consumed && o.event is Some { seq![InlineEvent::Overlay(o.event->0)] } else { Seq::empty() })
            &&& out.effects@ == (if o.consumed && o.switch_tab is Some { seq![KeyEffect::SwitchSettingsTab(o.switch_tab->0)] } else { Seq::empty() })
        }
    } else {
        !out.consumed && new == old && out.events@.len() == 0 && out.effects@.len() == 0
    }
}

impl RenderState {
    /// The capture prompt's reaction to a key (see `capture_ok`).
    fn capture_key(&mut self, name: String, k: &KeyPress, combos: &Vec<String>) -> (fx: Vec<KeyEffect>)
        requires
            keys_wf(*old(self)),
        ensures
            capture_ok(*old(self), *final(self), name@, *k, strings_view(combos@), fx@),
    {
        let mut fx: Vec<KeyEffect> = Vec::new();
        let action = match GlobalAction::from_name(name.as_str()) {
            Some(a) => a,
            None => {
                self.overlay = None;
                return fx;
            },
        };
        if k.key == KeyInput::Esc && !k.ctrl_or_alt {
            fx.push(KeyEffect::ReopenKeybindings(None));
            return fx;
        }
        let combo = match &k.combo {
            Some(t) => Some(t.as_str()),
            None => None,
        };
        match capture_decision(false, k.ctrl_or_alt, combo, combos) {
            CaptureDecision::Cancel => {},
            CaptureDecision::Reject(m) => {
                self.set_capture_prompt_line(m.as_str());
            },
            CaptureDecision::Commit(v) => {
                let t = match &k.combo {
                    Some(t) => t.as_str(),
                    None => "",
                };
                let mut status = String::from_str("Captured ");
                push_str(&mut status, t);
                push_str(&mut status, " for ");
                push_str(&mut status, name.as_str());
                fx.push(KeyEffect::CommitKeybindings { action, combos: v, status });
            },
        }
        fx
    }

    /// The settings-panel hotkeys (see `map_row_takes` and `map_row_ok`);
    /// returns `None` when they do not take the key.
    fn map_row_key(&mut self, key: KeyInput) -> (r: Option<Vec<KeyEffect>>)
        requires
            old(self).overlay is Some,
        ensures
            match r {
                Some(fx) => map_row_takes(*old(self), key) && map_row_ok(*old(self), *final(self), key, fx@),
                None => !map_row_takes(*old(self), key) && *final(self) == *old(self),
            },
    {
        let (active, selected, empty) = match &self.overlay {
            Some(o) => (
                o.tabs.len() > 1 && o.key_capture.is_none() && self.settings_map_rows.len() == o.items.len(),
                o.selected,
                match &o.search {
                    Some(q) => q.value.as_str().is_empty(),
                    None => true,
                },
            ),
            None => (false, 0, false),
        };
        let row: Option<&SettingsMapRow> = if active && selected < self.settings_map_rows.len() {
            match &self.settings_map_rows[selected] {
                Some(r) => Some(r),
                None => None,
            }
        } else {
            None
        };
        assert(active == map_editor_active(*self));
        assert(empty == search_empty(*self));
        assert(match row {
            Some(r) => selected_map_row(*self) == Some(*r),
            None => selected_map_row(*self) is None,
        });
        let mut fx: Vec<KeyEffect> = Vec::new();
        if key == KeyInput::Enter {
            if let Some(SettingsMapRow::ModelRole(role)) = row {
                fx.push(KeyEffect::MapRow(MapRowAction::EditModelRole(role.clone())));
                Some(fx)
            } else {
                None
            }
        } else if key == KeyInput::Char('d') && empty && row.is_some() {
            match row {
                Some(SettingsMapRow::KeybindingCombo(a, c)) => {
                    fx.push(KeyEffect::MapRow(MapRowAction::RemoveCombo { action: *a, combo: c.clone() }));
                },
                Some(SettingsMapRow::ModelRole(role)) => {
                    fx.push(KeyEffect::MapRow(MapRowAction::RemoveModelRole(role.clone())));
                },
                None => {},
            }
            Some(fx)
        } else if key == KeyInput::Char('n') && empty && active && self.settings_active_tab == SettingsTab::Model {
            self.open_model_role_key_prompt();
            Some(fx)
        } else {
            None
        }
    }

    /// Routes a key through the modal layers (see `modal_ok`); `combos` are
    /// the live combos of the action whose capture prompt is open.
    pub fn modal_key(&mut self, k: KeyPress, combos: &Vec<String>) -> (out: KeyOutcome)
        requires
            keys_wf(*old(self)),
        ensures
            modal_ok(*old(self), *final(self), k, strings_view(combos@), out),
    {
        let capturing = match &self.overlay {
            Some(o) => match &o.key_capture {
                Some(n) => Some(n.clone()),
                None => None,
            },
            None => None,
        };
        if let Some(name) = capturing {
            let effects = self.capture_key(name, &k, combos);
            return KeyOutcome { consumed: true, events: Vec::new(), effects };
        }
        if let Some(a) = k.global {
            let events = self.apply_global_action(a);
            return KeyOutcome { consumed: true, events, effects: Vec::new() };
        }
        if self.confirmation.is_some() {
            let r = self.handle_confirmation_key(k.key);
            let ghost r0 = r;
            let mut events: Vec<InlineEvent> = Vec::new();
            match r {
                Some(ConfirmedEvent::Exit) => events.push(InlineEvent::Exit),
                Some(ConfirmedEvent::Submit(t)) => events.push(InlineEvent::Submit(t)),
                None => {},
            }
            assert(events@ =~= confirmed_events(r0));
            return KeyOutcome { consumed: true, events, effects: Vec::new() };
        }
        let plain_overlay = match &self.overlay {
            Some(o) => o.secure_input.is_none(),
            None => false,
        };
        if plain_overlay {
            if let Some(effects) = self.map_row_key(k.key) {
                return KeyOutcome { consumed: true, events: Vec::new(), effects };
            }
        }
        if self.overlay.is_some() {
            let o = self.handle_overlay_key(k.key);
            let ghost o0 = o;
            let mut events: Vec<InlineEvent> = Vec::new();
            let mut effects: Vec<KeyEffect> = Vec::new();
            let OverlayKeyOutcome { consumed, close, event, switch_tab } = o;
            if consumed {
                if let Some(e) = event {
                    events.push(InlineEvent::Overlay(e));
                }
                if let Some(t) = switch_tab {
                    effects.push(KeyEffect::SwitchSettingsTab(t));
                }
            }
            assert(overlay_key_ok(*old(self), *self, k.key, o0));
            assert(events@ =~= (if o0.consumed && o0.event is Some { seq![InlineEvent::Overlay(o0.event->0)] } else { Seq::<InlineEvent>::empty() }));
            assert(effects@ =~= (if o0.consumed && o0.switch_tab is Some { seq![KeyEffect::SwitchSettingsTab(o0.switch_tab->0)] } else { Seq::<KeyEffect>::empty() }));
            return KeyOutcome { consumed, events, effects };
        }
        KeyOutcome { consumed: false, events: Vec::new(), effects: Vec::new() }
    }
}

/// The help overlay is open.
pub open spec fn shows_cheatsheet(old: RenderState, new: RenderState) -> bool {
    &&& new.overlay matches Some(o) && o.title@ == "Keyboard Shortcuts"@ && strings_view(o.lines@) == cheatsheet_text()
    &&& new == (RenderState { overlay: new.overlay, ..old })
}

/// No event and no host work.
pub open spec fn quiet(out: ComposerOutcome) -> bool {
    out.events@.len() == 0 && out.effects@.len() == 0 && !out.refresh && !out.nudge && out.esc is None
}

/// What a key did on the composer row: events for the event loop, the
/// host's work, whether the host then refreshes the slash popup and runs
/// the planning nudge, and the Esc ladder's step.
#[derive(Debug)]
pub struct ComposerOutcome {
    pub events: Vec<InlineEvent>,
    pub effects: Vec<KeyEffect>,
    pub refresh: bool,
    pub nudge: bool,
    pub esc: Option<EscOutcome>,
}

/// An edit of the composer for the host, then the popup refresh and the
/// nudge as asked.
pub open spec fn edit_only(old: RenderState, new: RenderState, op: EditOp, refresh: bool, nudge: bool, out: ComposerOutcome) -> bool {
    &&& new == old
    &&& out.events@.len() == 0 && out.effects@ == seq![KeyEffect::Edit(op)] && out.esc is None
    &&& out.refresh == refresh && out.nudge == nudge
}

/// The transcript keys of an empty composer: help, fold cycling, expand,
/// turn jumps and search steps; any other character is typed.
pub open spec fn nav_ok(old: RenderState, new: RenderState, k: KeyPress, ch: char, out: ComposerOutcome) -> bool {
    if k.binds_help {
        shows_cheatsheet(old, new) && out.events@.len() == 0 && out.effects@.len() == 0 && !out.refresh && out.nudge && out.esc is None
    } else if ch == 'e' || ch == 'E' || ch == 'J' || ch == 'K' || ((ch == 'n' || ch == 'N') && old.search is Some) {
        &&& out.events@.len() == 0 && out.effects@.len() == 0 && !out.refresh && out.nudge && out.esc is None
        &&& if ch == 'e' {
            cycle_ok(old, new)
        } else if ch == 'E' {
            expand_all_ok(old, new)
        } else if ch == 'J' {
            jump_next_ok(old, new)
        } else if ch == 'K' {
            jump_prev_ok(old, new)
        } else if ch == 'n' {
            search_next_ok(old, new)
        } else {
            search_prev_ok(old, new)
        }
    } else {
        edit_only(old, new, EditOp::Insert(ch), true, true, out)
    }
}

/// What a character does on the composer row: `q` closes the agent hub;
/// the vim engine takes it when active; on an empty composer `!` enters
/// shell mode, the queue pane's keys act, then the transcript keys;
/// anything else is typed.
pub open spec fn char_ok(old: RenderState, new: RenderState, q: Seq<String>, q2: Seq<String>, k: KeyPress, ch: char, vim: bool, out: ComposerOutcome) -> bool {
    if old.agent_hub_open && ch == 'q' {
        q2 == q && new == (RenderState { agent_hub_open: false, ..old })
            && out.events@.len() == 0 && out.effects@.len() == 0 && !out.refresh && out.nudge && out.esc is None
    } else if vim && !old.slash_popup.open {
        q2 == q && new == old && out.events@.len() == 0 && out.effects@ == seq![KeyEffect::Vim(ch)]
            && !out.refresh && out.nudge && out.esc is None
    } else if old.composer@.len() == 0 && !old.slash_popup.open {
        if ch == '!' && !old.shell_mode {
            q2 == q && new == (RenderState { shell_mode: true, ..old }) && quiet(out)
        } else if queue_key_ok(old, old, q, q, ch, false) {
            q2 == q && nav_ok(old, new, k, ch, out)
        } else {
            queue_key_ok(old, new, q, q2, ch, true) && quiet(out)
        }
    } else {
        q2 == q && edit_only(old, new, EditOp::Insert(ch), true, true, out)
    }
}

/// What a key does on the composer row once the modal layers passed it on;
/// `q` and `q2` are the prompt queue before and after, `vim` says whether
/// the vim engine is active, `double_esc` whether an Esc came shortly
/// before, `in_grace` whether a cancel is still in its grace period.
pub open spec fn composer_key_ok(
    old: RenderState,
    new: RenderState,
    q: Seq<String>,
    q2: Seq<String>,
    k: KeyPress,
    vim: bool,
    double_esc: bool,
    in_grace: bool,
    now_tick: u64,
    out: ComposerOutcome,
) -> bool {
    match pre_match(k, old.multiline_mode) {
        KeymapDispatch::Submit => {
            &&& q2 == q
            &&& out.effects@.len() == 0 && !out.refresh && !out.nudge && out.esc is None
            &&& if old.shell_mode {
                exists|r: Option<String>| #![trigger shell_submit_ok(old, new, r)]
                    shell_submit_ok(old, new, r) && out.events@ == match r {
                        Some(p) => seq![InlineEvent::Submit(p)],
                        None => Seq::empty(),
                    }
            } else {
                exists|t: String| #![trigger harvest_ok(old, new, t)]
                    harvest_ok(old, new, t) && out.events@ == seq![InlineEvent::Submit(t)]
            }
        },
        KeymapDispatch::ScrollPageUp => q2 == q && new == old && out.events@ == seq![InlineEvent::ScrollPageUp]
            && out.effects@.len() == 0 && !out.refresh && !out.nudge && out.esc is None,
        KeymapDispatch::ScrollPageDown => q2 == q && new == old && out.events@ == seq![InlineEvent::ScrollPageDown]
            && out.effects@.len() == 0 && !out.refresh && !out.nudge && out.esc is None,
        KeymapDispatch::Help => q2 == q && shows_cheatsheet(old, new) && quiet(out),
        KeymapDispatch::Unbound => match k.key {
            KeyInput::BackTab => q2 == q && new == old && out.events@.len() == 0
                && out.effects@ == seq![KeyEffect::ToggleMode] && !out.refresh && !out.nudge && out.esc is None,
            KeyInput::Enter => q2 == q && if old.multiline_mode && !k.shift {
                edit_only(old, new, EditOp::Newline, false, false, out)
            } else {
                new == old && quiet(out)
            },
            KeyInput::Esc => {
                &&& q2 == q
                &&& out.esc matches Some(r) && esc_ok(old, new, double_esc, in_grace, now_tick, r)
                    && out.events@ == (if r == EscOutcome::Cancel { seq![InlineEvent::Cancel] } else { Seq::empty() })
                &&& out.effects@.len() == 0 && !out.refresh && !out.nudge
            },
            KeyInput::Tab => q2 == q && quiet(out) && exists|d: bool| #![trigger tab_ok(old, new, d)] tab_ok(old, new, d),
            KeyInput::Backspace => q2 == q && edit_only(old, new, EditOp::Backspace, true, false, out),
            KeyInput::Delete => q2 == q && edit_only(old, new, EditOp::Delete, true, false, out),
            KeyInput::Left => q2 == q && edit_only(old, new, EditOp::Left, false, false, out),
            KeyInput::Right => q2 == q && edit_only(old, new, EditOp::Right, false, false, out),
            KeyInput::Up => {
                &&& q2 == q
                &&& out.effects@.len() == 0 && !out.refresh && !out.nudge && out.esc is None
                &&& exists|s: bool| #![trigger composer_up_ok(old, new, s)]
                    composer_up_ok(old, new, s) && out.events@ == (if s { seq![InlineEvent::ScrollLineUp] } else { Seq::empty() })
            },
            KeyInput::Down => {
                &&& q2 == q
                &&& out.effects@.len() == 0 && !out.refresh && !out.nudge && out.esc is None
                &&& exists|s: bool| #![trigger composer_down_ok(old, new, s)]
                    composer_down_ok(old, new, s) && out.events@ == (if s { seq![InlineEvent::ScrollLineDown] } else { Seq::empty() })
            },
            KeyInput::Char(ch) => char_ok(old, new, q, q2, k, ch, vim, out),
            _ => q2 == q && new == old && quiet(out),
        },
    }
}

fn quiet_outcome() -> (out: ComposerOutcome)
    ensures
        quiet(out),
{
    ComposerOutcome { events: Vec::new(), effects: Vec::new(), refresh: false, nudge: false, esc: None }
}

fn edit_outcome(op: EditOp, refresh: bool, nudge: bool) -> (out: ComposerOutcome)
    ensures
        out.events@.len() == 0 && out.effects@ == seq![KeyEffect::Edit(op)] && out.esc is None,
        out.refresh == refresh && out.nudge == nudge,
{
    let mut effects: Vec<KeyEffect> = Vec::new();
    effects.push(KeyEffect::Edit(op));
    ComposerOutcome { events: Vec::new(), effects, refresh, nudge, esc: None }
}

fn nudge_outcome() -> (out: ComposerOutcome)
    ensures
        out.events@.len() == 0 && out.effects@.len() == 0 && !out.refresh && out.nudge && out.esc is None,
{
    ComposerOutcome { events: Vec::new(), effects: Vec::new(), refresh: false, nudge: true, esc: None }
}

impl RenderState {
    /// The transcript keys of an empty composer (see `nav_ok`).
    fn nav_key(&mut self, k: &KeyPress, ch: char) -> (out: ComposerOutcome)
        requires
            keys_wf(*old(self)),
        ensures
            nav_ok(*old(self), *final(self), *k, ch, out),
    {
        if k.binds_help {
            self.overlay = Some(cheatsheet_overlay());
            return nudge_outcome();
        }
        if ch == 'e' {
            self.cycle_block_at_view();
        } else if ch == 'E' {
            self.expand_all();
        } else if ch == 'J' {
            self.jump_next_turn();
        } else if ch == 'K' {
            self.jump_prev_turn();
        } else if ch == 'n' && self.search.is_some() {
            self.search_next();
        } else if ch == 'N' && self.search.is_some() {
            self.search_prev();
        } else {
            return edit_outcome(EditOp::Insert(ch), true, true);
        }
        nudge_outcome()
    }

    /// A character on the composer row (see `char_ok`).
    fn char_key(&mut self, queue: &mut PromptQueue, k: &KeyPress, ch: char, vim: bool) -> (out: ComposerOutcome)
        requires
            keys_wf(*old(self)),
        ensures
            char_ok(*old(self), *final(self), old(queue).view(), final(queue).view(), *k, ch, vim, out),
    {
        if self.agent_hub_open && ch == 'q' {
            self.agent_hub_open = false;
            return nudge_outcome();
        }
        if vim && !self.slash_popup.open {
            let mut effects: Vec<KeyEffect> = Vec::new();
            effects.push(KeyEffect::Vim(ch));
            return ComposerOutcome { events: Vec::new(), effects, refresh: false, nudge: true, esc: None };
        }
        if self.composer.as_str().is_empty() && !self.slash_popup.open {
            if ch == '!' && !self.shell_mode {
                self.shell_mode = true;
                return quiet_outcome();
            }
            let ghost before = *self;
            let ghost q0 = queue.view();
            if self.queue_key(queue, ch) {
                return quiet_outcome();
            }
            assert(*self == before && queue.view() == q0);
            return self.nav_key(k, ch);
        }
        edit_outcome(EditOp::Insert(ch), true, true)
    }

    /// Routes a key on the composer row (see `composer_key_ok`). The host
    /// then carries out the effects, and refreshes the slash popup and runs
    /// the planning nudge when the outcome asks for it.
    #[verifier::spinoff_prover]
    #[verifier::rlimit(40)]
    pub fn composer_key(&mut self, queue: &mut PromptQueue, k: KeyPress, vim: bool, double_esc: bool, in_grace: bool, now_tick: u64) -> (out: ComposerOutcome)
        requires
            keys_wf(*old(self)),
        ensures
            composer_key_ok(*old(self), *final(self), old(queue).view(), final(queue).view(), k, vim, double_esc, in_grace, now_tick, out),
    {
        match keymap_pre_match(&k, self.multiline_mode) {
            KeymapDispatch::Submit => {
                let mut events: Vec<InlineEvent> = Vec::new();
                if self.shell_mode {
                    let r = self.shell_submit();
                    let ghost r0 = r;
                    match r {
                        Some(p) => events.push(InlineEvent::Submit(p)),
                        None => {},
                    }
                    assert(shell_submit_ok(*old(self), *self, r0));
                } else {
                    let t = self.harvest_and_clear_input();
                    let ghost t0 = t;
                    events.push(InlineEvent::Submit(t));
                    assert(harvest_ok(*old(self), *self, t0));
                }
                ComposerOutcome { events, effects: Vec::new(), refresh: false, nudge: false, esc: None }
            },
            KeymapDispatch::ScrollPageUp => {
                let mut events: Vec<InlineEvent> = Vec::new();
                events.push(InlineEvent::ScrollPageUp);
                ComposerOutcome { events, effects: Vec::new(), refresh: false, nudge: false, esc: None }
            },
            KeymapDispatch::ScrollPageDown => {
                let mut events: Vec<InlineEvent> = Vec::new();
                events.push(InlineEvent::ScrollPageDown);
                ComposerOutcome { events, effects: Vec::new(), refresh: false, nudge: false, esc: None }
            },
            KeymapDispatch::Help => {
                self.overlay = Some(cheatsheet_overlay());
                quiet_outcome()
            },
            KeymapDispatch::Unbound => match k.key {
                KeyInput::BackTab => {
                    let mut effects: Vec<KeyEffect> = Vec::new();
                    effects.push(KeyEffect::ToggleMode);
                    ComposerOutcome { events: Vec::new(), effects, refresh: false, nudge: false, esc: None }
                },
                KeyInput::Enter => {
                    if self.multiline_mode && !k.shift {
                        edit_outcome(EditOp::Newline, false, false)
                    } else {
                        quiet_outcome()
                    }
                },
                KeyInput::Esc => {
                    let r = self.esc_key(double_esc, in_grace, now_tick);
                    let mut events: Vec<InlineEvent> = Vec::new();
                    if r == EscOutcome::Cancel {
                        events.push(InlineEvent::Cancel);
                    }
                    ComposerOutcome { events, effects: Vec::new(), refresh: false, nudge: false, esc: Some(r) }
                },
                KeyInput::Tab => {
                    let d = self.tab_complete();
                    assert(tab_ok(*old(self), *self, d));
                    quiet_outcome()
                },
                KeyInput::Backspace => edit_outcome(EditOp::Backspace, true, false),
                KeyInput::Delete => edit_outcome(EditOp::Delete, true, false),
                KeyInput::Left => edit_outcome(EditOp::Left, false, false),
                KeyInput::Right => edit_outcome(EditOp::Right, false, false),
                KeyInput::Up => {
                    let s = self.composer_up();
                    assert(composer_up_ok(*old(self), *self, s));
                    let mut events: Vec<InlineEvent> = Vec::new();
                    if s {
                        events.push(InlineEvent::ScrollLineUp);
                    }
                    ComposerOutcome { events, effects: Vec::new(), refresh: false, nudge: false, esc: None }
                },
                KeyInput::Down => {
                    let s = self.composer_down();
                    assert(composer_down_ok(*old(self), *self, s));
                    let mut events: Vec<InlineEvent> = Vec::new();
                    if s {
                        events.push(InlineEvent::ScrollLineDown);
                    }
                    ComposerOutcome { events, effects: Vec::new(), refresh: false, nudge: false, esc: None }
                },
                KeyInput::Char(ch) => self.char_key(queue, &k, ch, vim),
                _ => quiet_outcome(),
            },
        }
    }
}

} // verus!
