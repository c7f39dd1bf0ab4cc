//! The event loop's reaction to what the input side sends: submitted
//! lines, cancels, scrolling, and submitted or cancelled overlays. What
//! needs the agent session, the settings file or the credential store
//! comes back as host actions, in order, for the event loop to perform.
use vstd::prelude::*;

use crate::controls::{
    action_name_spec, cancel_ok, cancel_result, interrupt_ok, interrupt_result, is_command_line, submit_ok,
    submit_result, GlobalAction, InlineEvent, InterruptOutcome, SubmitAction,
};
use crate::loop_policy::LoopOutcome;
use crate::overlay::{ListSelection, OverlayEvent, OverlaySubmission};
use crate::provider::{before_first, lemma_before_first_absent, lemma_before_first_at, AuthAction};
use crate::render_state::{append_spec, RenderState};
use crate::secure::{follow_up_ok, SecureFollowUp};
use crate::setting_defs::{def_of, parse_setting_key};
use crate::settings_panel::{build_key_capture_overlay, is_key_capture_overlay};
use crate::text::{chars_of, push_str, seq_starts_with, starts_with, str_eq, string_of};
use crate::transcript::{plain_segment, InlineMessageKind, InlineTextStyle, SegmentView};

verus! {

/// Work the event loop performs for an event, outside the render state.
#[derive(Debug, PartialEq, Eq)]
pub enum HostAction {
    /// Resume the session stored under this id.
    ResumeSession(String),
    /// Run this slash command line.
    DispatchCommand(String),
    /// Send this prompt to the agent.
    SendPrompt(String),
    /// Abort the running agent turn.
    AbortRun,
    /// Switch to the next model.
    CycleModel,
    /// Switch to this model.
    SetModel(String),
    /// Activate this theme.
    ApplyTheme(String),
    /// Save `value` for the submenu setting `key`.
    CommitSubmenu { key: String, value: String },
    /// Flip this tool between enabled and disabled.
    ToggleTool(String),
    /// Toggle or cycle this setting.
    ApplySetting(String),
    /// Reopen the settings panel on this tab.
    SwitchSettingsTab(usize),
    /// Reopen the settings panel at this sidebar section.
    JumpSettingsSection(usize),
    /// Open the text prompt of this setting.
    OpenTextEdit(String),
    /// Open the value picker of this setting.
    OpenSubmenu(String),
    /// Open the disabled-tools editor.
    OpenDisabledTools,
    /// Check that the session with this id exists and mark it for resuming.
    CheckResume(String),
    /// Offer the credential actions of this provider.
    ProviderSelected(String),
    /// Run this credential action for the provider.
    Auth { provider: String, action: AuthAction },
    /// Carry out what a submitted prompt asked for.
    SecureText(SecureFollowUp),
}

/// Whether the event loop goes on, and what it has to do.
#[derive(Debug)]
pub struct EventOutcome {
    pub outcome: LoopOutcome,
    pub actions: Vec<HostAction>,
}

/// `new` is `old` with one error line saying `t` appended.
pub open spec fn error_appended(old: RenderState, new: RenderState, t: Seq<char>) -> bool {
    &&& (new.lines(), new.next_block_id) == append_spec(old.lines(), old.next_block_id, InlineMessageKind::Error,
        seq![SegmentView { text: t, style: InlineTextStyle::plain_spec() }])
    &&& new == (RenderState { transcript: new.transcript, next_block_id: new.next_block_id, ..old })
}

/// `s` without its leading `p`, when it starts with `p`.
pub open spec fn after_prefix(s: Seq<char>, p: Seq<char>) -> Option<Seq<char>> {
    if seq_starts_with(s, p) {
        Some(s.subrange(p.len() as int, s.len() as int))
    } else {
        None
    }
}

/// The one action `a` is `SetModel` of `m`.
pub open spec fn sets_model(acts: Seq<HostAction>, m: Seq<char>) -> bool {
    acts.len() == 1 && (acts[0] matches HostAction::SetModel(x) && x@ == m)
}

/// The effect of a settings-panel `ConfigAction` payload `p`: a submenu
/// commit `SubmenuCommit:<key>:<value>` for a known key, a tool toggle
/// `DisabledToolToggle:<tool>`, or the toggle/cycle of a known setting;
/// anything else is reported as an error line.
pub open spec fn config_action_ok(old: RenderState, new: RenderState, p: Seq<char>, acts: Seq<HostAction>) -> bool {
    match after_prefix(p, "SubmenuCommit:"@) {
        Some(rest) => match before_first(rest, ':') {
            Some(k) => if def_of(old.setting_defs@, k) is Some {
                &&& new == old
                &&& acts.len() == 1
                &&& (acts[0] matches HostAction::CommitSubmenu { key, value } && key@ == k
                    && value@ == rest.subrange(k.len() + 1int, rest.len() as int))
            } else {
                acts.len() == 0 && error_appended(old, new, "Unknown setting key in submenu commit: "@ + k)
            },
            None => acts.len() == 0 && error_appended(old, new, "Malformed submenu commit payload: "@ + p),
        },
        None => match after_prefix(p, "DisabledToolToggle:"@) {
            Some(tool) => new == old && acts.len() == 1 && (acts[0] matches HostAction::ToggleTool(t) && t@ == tool),
            None => if def_of(old.setting_defs@, p) is Some {
                new == old && acts.len() == 1 && (acts[0] matches HostAction::ApplySetting(k) && k@ == p)
            } else {
                acts.len() == 0 && error_appended(old, new, "Unknown setting: "@ + p)
            },
        },
    }
}

/// The effect of a settings row that opens an editor for setting `key`:
/// the editor for a known key, an error line otherwise.
pub open spec fn editor_ok(old: RenderState, new: RenderState, key: Seq<char>, open: HostAction, acts: Seq<HostAction>) -> bool {
    if def_of(old.setting_defs@, key) is Some {
        new == old && acts == seq![open]
    } else {
        acts.len() == 0 && error_appended(old, new, "Unknown setting key: "@ + key)
    }
}

/// The effect of a submitted list row.
pub open spec fn selection_ok(old: RenderState, new: RenderState, sel: ListSelection, is_streaming: bool, acts: Seq<HostAction>) -> bool {
    match sel {
        ListSelection::Model(i) => new == old && if i < old.overlay_model_ids@.len() {
            sets_model(acts, old.overlay_model_ids@[i as int]@)
        } else {
            acts.len() == 0
        },
        ListSelection::Theme(id) => new == old && acts.len() == 1 && (acts[0] matches HostAction::ApplyTheme(t) && t@ == id@),
        ListSelection::SlashCommand(name) => {
            &&& new.composer@ == "/"@ + name@ + " "@
            &&& new == (RenderState { composer: new.composer, ..old })
            &&& acts.len() == 0
        },
        ListSelection::ConfigAction(p) => config_action_ok(old, new, p@, acts),
        ListSelection::SettingsTab(i) => new == old && acts == seq![HostAction::SwitchSettingsTab(i)],
        ListSelection::SettingsSection(i) => new == old && acts == seq![HostAction::JumpSettingsSection(i)],
        ListSelection::SettingKeyCapture(name) => if exists|a: GlobalAction| action_name_spec(a) == name@ {
            &&& new.overlay matches Some(o) && is_key_capture_overlay(o, name@)
            &&& new == (RenderState { overlay: new.overlay, ..old })
            &&& acts.len() == 0
        } else {
            acts.len() == 0 && error_appended(old, new, "Unknown keybinding action: "@ + name@)
        },
        ListSelection::SettingTextEdit(key) => if def_of(old.setting_defs@, key@) is Some {
            new == old && acts.len() == 1 && (acts[0] matches HostAction::OpenTextEdit(k) && k@ == key@)
        } else {
            acts.len() == 0 && error_appended(old, new, "Unknown setting key: "@ + key@)
        },
        ListSelection::SettingSubmenuOpen(key) => if def_of(old.setting_defs@, key@) is Some {
            new == old && acts.len() == 1 && (acts[0] matches HostAction::OpenSubmenu(k) && k@ == key@)
        } else {
            acts.len() == 0 && error_appended(old, new, "Unknown setting key: "@ + key@)
        },
        ListSelection::SettingMultiselect(key) => if def_of(old.setting_defs@, key@) is None {
            acts.len() == 0 && error_appended(old, new, "Unknown setting key: "@ + key@)
        } else if key@ == "DisabledTools"@ {
            new == old && acts == seq![HostAction::OpenDisabledTools]
        } else {
            acts.len() == 0 && error_appended(old, new, "'"@ + key@ + "' has no multiselect editor"@)
        },
        ListSelection::Session(id) => if is_streaming {
            acts.len() == 0 && error_appended(old, new, "Cannot resume while agent is running. Use /cancel first."@)
        } else {
            new == old && acts.len() == 1 && (acts[0] matches HostAction::CheckResume(x) && x@ == id@)
        },
        ListSelection::CatalogModel(i) => new == old && if i < old.overlay_catalog_models@.len() {
            let pm = old.overlay_catalog_models@[i as int];
            sets_model(acts, pm.0@ + "/"@ + pm.1@)
        } else {
            acts.len() == 0
        },
        ListSelection::ProviderRow(i) => new == old && if i < old.overlay_providers@.len() {
            acts.len() == 1 && (acts[0] matches HostAction::ProviderSelected(n) && n@ == old.overlay_providers@[i as int]@)
        } else {
            acts.len() == 0
        },
        ListSelection::ProviderAction { provider, action } => new == old && acts.len() == 1
            && (acts[0] matches HostAction::Auth { provider: p, action: a } && p@ == provider@ && a == action),
    }
}

/// The effect of a submitted overlay; `new` here still has the row lists
/// of the closed overlay (see `submission_handled`).
pub open spec fn submission_ok(old: RenderState, new: RenderState, sub: OverlaySubmission, is_streaming: bool, acts: Seq<HostAction>) -> bool {
    match sub {
        OverlaySubmission::Selection(sel) => selection_ok(old, new, sel, is_streaming, acts),
        OverlaySubmission::SecureInput(text) => {
            &&& new == (RenderState { secure_input_origin: None, ..old })
            &&& match old.secure_input_origin {
                Some(o) => acts.len() == 1 && (acts[0] matches HostAction::SecureText(f) && follow_up_ok(o, text@, f)),
                None => acts.len() == 0,
            }
        },
    }
}

/// `new` with the row lists of `old`.
pub open spec fn with_rows_of(new: RenderState, old: RenderState) -> RenderState {
    RenderState {
        overlay_model_ids: old.overlay_model_ids,
        overlay_catalog_models: old.overlay_catalog_models,
        overlay_providers: old.overlay_providers,
        ..new
    }
}

/// Handling a submitted overlay: its effect, after which the row lists
/// behind the closed overlay are emptied.
pub open spec fn submission_handled(old: RenderState, new: RenderState, sub: OverlaySubmission, is_streaming: bool, acts: Seq<HostAction>) -> bool {
    &&& submission_ok(old, with_rows_of(new, old), sub, is_streaming, acts)
    &&& new.overlay_model_ids@.len() == 0
    &&& new.overlay_catalog_models@.len() == 0
    &&& new.overlay_providers@.len() == 0
}

/// The actions an interrupt asks for.
pub open spec fn abort_actions(r: InterruptOutcome) -> Seq<HostAction> {
    if r.abort_run { seq![HostAction::AbortRun] } else { Seq::empty() }
}

/// The effect of one event; `is_streaming` says whether an agent turn
/// runs, `now_tick` is the render tick.
pub open spec fn event_handled(old: RenderState, new: RenderState, e: InlineEvent, is_streaming: bool, now_tick: u64, out: LoopOutcome, acts: Seq<HostAction>) -> bool {
    match e {
        InlineEvent::Submit(text) => match old.pending_resume {
            Some(id) => {
                &&& new == (RenderState { pending_resume: None, ..old })
                &&& out == LoopOutcome::Continue
                &&& acts.len() == 1 && (acts[0] matches HostAction::ResumeSession(x) && x@ == id@)
            },
            None => {
                &&& submit_ok(old, new, text, is_streaming, now_tick)
                &&& out == LoopOutcome::Continue
                &&& acts == match submit_result(text) {
                    SubmitAction::Nothing => Seq::empty(),
                    SubmitAction::Command(t) => seq![HostAction::DispatchCommand(t)],
                    SubmitAction::Prompt(t) => seq![HostAction::SendPrompt(t)],
                }
            },
        },
        InlineEvent::Cancel => {
            &&& cancel_ok(old, new, is_streaming)
            &&& out == cancel_result(old, is_streaming).outcome
            &&& acts == abort_actions(cancel_result(old, is_streaming))
        },
        InlineEvent::Exit => new == old && out == LoopOutcome::Exit && acts.len() == 0,
        InlineEvent::Interrupt => {
            &&& interrupt_ok(old, new, is_streaming)
            &&& out == interrupt_result(old, is_streaming).outcome
            &&& acts == abort_actions(interrupt_result(old, is_streaming))
        },
        InlineEvent::ScrollLineUp => out == LoopOutcome::Continue && acts.len() == 0
            && new == (RenderState { scroll_offset: sat_add(old.scroll_offset, 1), ..old }),
        InlineEvent::ScrollLineDown => out == LoopOutcome::Continue && acts.len() == 0
            && new == (RenderState { scroll_offset: sat_sub(old.scroll_offset, 1), ..old }),
        InlineEvent::ScrollPageUp => out == LoopOutcome::Continue && acts.len() == 0
            && new == (RenderState { scroll_offset: sat_add(old.scroll_offset, 10), ..old }),
        InlineEvent::ScrollPageDown => out == LoopOutcome::Continue && acts.len() == 0
            && new == (RenderState { scroll_offset: sat_sub(old.scroll_offset, 10), ..old }),
        InlineEvent::CyclePrimaryAgent | InlineEvent::CyclePrimaryAgentPrevious =>
            new == old && out == LoopOutcome::Continue && acts == seq![HostAction::CycleModel],
        InlineEvent::Overlay(OverlayEvent::Cancelled) =>
            new == (RenderState { overlay: None, ..old }) && out == LoopOutcome::Continue && acts.len() == 0,
        InlineEvent::Overlay(OverlayEvent::Submitted(sub)) =>
            out == LoopOutcome::Continue && submission_handled(old, new, sub, is_streaming, acts),
    }
}

/// `a + b`, saturating at `usize::MAX`.
pub open spec fn sat_add(a: usize, b: usize) -> usize {
    if a + b <= usize::MAX { (a + b) as usize } else { usize::MAX }
}

/// `a - b`, saturating at 0.
pub open spec fn sat_sub(a: usize, b: usize) -> usize {
    if a >= b { (a - b) as usize } else { 0 }
}

/// `s` without its leading `p`, when it starts with `p`.
fn strip_prefix(s: &str, p: &str) -> (r: Option<String>)
    ensures
        match after_prefix(s@, p@) {
            Some(x) => r matches Some(t) && t@ == x,
            None => r is None,
        },
{
    let cs = chars_of(s);
    let ps = chars_of(p);
    if starts_with(cs.as_slice(), ps.as_slice()) {
        let t = string_of(&cs.as_slice()[ps.len()..cs.len()]);
        assert(cs@.subrange(ps@.len() as int, cs@.len() as int) =~= s@.subrange(p@.len() as int, s@.len() as int));
        Some(t)
    } else {
        None
    }
}

/// `s` split at its first `:`.
fn split_colon(s: &str) -> (r: Option<(String, String)>)
    ensures
        match before_first(s@, ':') {
            Some(k) => r matches Some((a, b)) && a@ == k && b@ == s@.subrange(k.len() + 1int, s@.len() as int),
            None => r is None,
        },
{
    let cs = chars_of(s);
    let mut i: usize = 0;
    while i < cs.len()
        invariant
            i <= cs@.len(),
            cs@ == s@,
            forall|j: int| 0 <= j < i ==> cs@[j] != ':',
        decreases cs@.len() - i,
    {
        if cs[i] == ':' {
            proof {
                lemma_before_first_at(cs@, ':', i as int);
            }
            let a = string_of(&cs.as_slice()[0..i]);
            let b = string_of(&cs.as_slice()[i + 1..cs.len()]);
            assert(cs@.subrange(0, i as int) =~= cs@.take(i as int));
            return Some((a, b));
        }
        i += 1;
    }
    proof {
        lemma_before_first_absent(cs@, ':');
    }
    None
}

impl RenderState {
    /// Appends one error line saying `text`.
    fn error_line(&mut self, text: String)
        requires
            old(self).next_block_id < usize::MAX,
        ensures
            error_appended(*old(self), *final(self), text@),
    {
        let mut segs = Vec::new();
        segs.push(plain_segment(text.as_str()));
        assert(crate::transcript::segs_view(segs@) =~= seq![SegmentView { text: text@, style: InlineTextStyle::plain_spec() }]);
        self.append_line(InlineMessageKind::Error, segs);
    }

    /// Appends the error line `prefix` + `detail` + `suffix`.
    fn error_about(&mut self, prefix: &str, detail: &str, suffix: &str)
        requires
            old(self).next_block_id < usize::MAX,
        ensures
            error_appended(*old(self), *final(self), prefix@ + detail@ + suffix@),
    {
        let mut m = String::from_str(prefix);
        push_str(&mut m, detail);
        push_str(&mut m, suffix);
        self.error_line(m);
    }

    /// Handles a settings-panel `ConfigAction` payload.
    fn config_action(&mut self, payload: &str) -> (acts: Vec<HostAction>)
        requires
            old(self).next_block_id < usize::MAX,
        ensures
            config_action_ok(*old(self), *final(self), payload@, acts@),
    {
        let mut acts: Vec<HostAction> = Vec::new();
        match strip_prefix(payload, "SubmenuCommit:") {
            Some(rest) => match split_colon(rest.as_str()) {
                Some((key, value)) => {
                    if parse_setting_key(&self.setting_defs, key.as_str()).is_some() {
                        acts.push(HostAction::CommitSubmenu { key, value });
                    } else {
                        self.error_about("Unknown setting key in submenu commit: ", key.as_str(), "");
                    }
                },
                None => self.error_about("Malformed submenu commit payload: ", payload, ""),
            },
            None => match strip_prefix(payload, "DisabledToolToggle:") {
                Some(tool) => acts.push(HostAction::ToggleTool(tool)),
                None => {
                    if parse_setting_key(&self.setting_defs, payload).is_some() {
                        acts.push(HostAction::ApplySetting(String::from_str(payload)));
                    } else {
                        self.error_about("Unknown setting: ", payload, "");
                    }
                },
            },
        }
        proof {
            reveal_strlit("");
        }
        acts
    }

    /// Handles a submitted list row.
    #[verifier::spinoff_prover]
    fn select_row(&mut self, sel: ListSelection, is_streaming: bool) -> (acts: Vec<HostAction>)
        requires
            old(self).next_block_id < usize::MAX,
        ensures
            selection_ok(*old(self), *final(self), sel, is_streaming, acts@),
    {
        let mut acts: Vec<HostAction> = Vec::new();
        proof {
            reveal_strlit("");
        }
        match sel {
            ListSelection::Model(i) => {
                if i < self.overlay_model_ids.len() {
                    acts.push(HostAction::SetModel(self.overlay_model_ids[i].clone()));
                }
            },
            ListSelection::Theme(id) => acts.push(HostAction::ApplyTheme(id)),
            ListSelection::SlashCommand(name) => {
                let mut c = String::from_str("/");
                push_str(&mut c, name.as_str());
                push_str(&mut c, " ");
                self.composer = c;
            },
            ListSelection::ConfigAction(p) => {
                acts = self.config_action(p.as_str());
            },
            ListSelection::SettingsTab(i) => acts.push(HostAction::SwitchSettingsTab(i)),
            ListSelection::SettingsSection(i) => acts.push(HostAction::JumpSettingsSection(i)),
            ListSelection::SettingKeyCapture(name) => {
                match GlobalAction::from_name(name.as_str()) {
                    Some(a) => {
                        self.overlay = Some(build_key_capture_overlay(name.as_str()));
                    },
                    None => self.error_about("Unknown keybinding action: ", name.as_str(), ""),
                }
            },
            ListSelection::SettingTextEdit(key) => {
                if parse_setting_key(&self.setting_defs, key.as_str()).is_some() {
                    acts.push(HostAction::OpenTextEdit(key));
                } else {
                    self.error_about("Unknown setting key: ", key.as_str(), "");
                }
            },
            ListSelection::SettingSubmenuOpen(key) => {
                if parse_setting_key(&self.setting_defs, key.as_str()).is_some() {
                    acts.push(HostAction::OpenSubmenu(key));
                } else {
                    self.error_about("Unknown setting key: ", key.as_str(), "");
                }
            },
            ListSelection::SettingMultiselect(key) => {
                if parse_setting_key(&self.setting_defs, key.as_str()).is_none() {
                    self.error_about("Unknown setting key: ", key.as_str(), "");
                } else if str_eq(key.as_str(), "DisabledTools") {
                    acts.push(HostAction::OpenDisabledTools);
                } else {
                    self.error_about("'", key.as_str(), "' has no multiselect editor");
                }
            },
            ListSelection::Session(id) => {
                if is_streaming {
                    self.error_line(String::from_str("Cannot resume while agent is running. Use /cancel first."));
                } else {
                    acts.push(HostAction::CheckResume(id));
                }
            },
            ListSelection::CatalogModel(i) => {
                if i < self.overlay_catalog_models.len() {
                    let mut full = self.overlay_catalog_models[i].0.clone();
                    push_str(&mut full, "/");
                    push_str(&mut full, self.overlay_catalog_models[i].1.as_str());
                    acts.push(HostAction::SetModel(full));
                }
            },
            ListSelection::ProviderRow(i) => {
                if i < self.overlay_providers.len() {
                    acts.push(HostAction::ProviderSelected(self.overlay_providers[i].clone()));
                }
            },
            ListSelection::ProviderAction { provider, action } => {
                acts.push(HostAction::Auth { provider, action });
            },
        }
        acts
    }

    /// Handles a submitted overlay (see `submission_handled`).
    pub fn handle_overlay_submission(&mut self, sub: OverlaySubmission, is_streaming: bool) -> (acts: Vec<HostAction>)
        requires
            old(self).next_block_id < usize::MAX,
        ensures
            submission_handled(*old(self), *final(self), sub, is_streaming, acts@),
    {
        let acts = match sub {
            OverlaySubmission::Selection(sel) => self.select_row(sel, is_streaming),
            OverlaySubmission::SecureInput(text) => {
                let mut acts: Vec<HostAction> = Vec::new();
                match self.take_secure_submission(text.as_str()) {
                    Some(f) => acts.push(HostAction::SecureText(f)),
                    None => {},
                }
                acts
            },
        };
        let ghost mid = *self;
        self.overlay_model_ids = Vec::new();
        self.overlay_catalog_models = Vec::new();
        self.overlay_providers = Vec::new();
        assert(with_rows_of(*self, *old(self)) == mid);
        acts
    }

    /// Handles one event from the input side (see `event_handled`):
    /// `is_streaming` says whether an agent turn runs, `now_tick` is the
    /// render tick.
    pub fn handle_inline_event(&mut self, event: InlineEvent, is_streaming: bool, now_tick: u64) -> (r: EventOutcome)
        requires
            old(self).next_block_id < usize::MAX,
        ensures
            event_handled(*old(self), *final(self), event, is_streaming, now_tick, r.outcome, r.actions@),
    {
        let mut acts: Vec<HostAction> = Vec::new();
        match event {
            InlineEvent::Submit(text) => {
                match self.pending_resume.take() {
                    Some(id) => {
                        acts.push(HostAction::ResumeSession(id));
                    },
                    None => {
                        match self.handle_submit(text, is_streaming, now_tick) {
                            SubmitAction::Nothing => {},
                            SubmitAction::Command(t) => acts.push(HostAction::DispatchCommand(t)),
                            SubmitAction::Prompt(t) => acts.push(HostAction::SendPrompt(t)),
                        }
                    },
                }
                EventOutcome { outcome: LoopOutcome::Continue, actions: acts }
            },
            InlineEvent::Cancel => {
                let r = self.handle_cancel(is_streaming);
                if r.abort_run {
                    acts.push(HostAction::AbortRun);
                }
                EventOutcome { outcome: r.outcome, actions: acts }
            },
            InlineEvent::Exit => EventOutcome { outcome: LoopOutcome::Exit, actions: acts },
            InlineEvent::Interrupt => {
                let r = self.handle_interrupt(is_streaming);
                if r.abort_run {
                    acts.push(HostAction::AbortRun);
                }
                EventOutcome { outcome: r.outcome, actions: acts }
            },
            InlineEvent::ScrollLineUp => {
                self.scroll_by(true, 1);
                EventOutcome { outcome: LoopOutcome::Continue, actions: acts }
            },
            InlineEvent::ScrollLineDown => {
                self.scroll_by(false, 1);
                EventOutcome { outcome: LoopOutcome::Continue, actions: acts }
            },
            InlineEvent::ScrollPageUp => {
                self.scroll_by(true, 10);
                EventOutcome { outcome: LoopOutcome::Continue, actions: acts }
            },
            InlineEvent::ScrollPageDown => {
                self.scroll_by(false, 10);
                EventOutcome { outcome: LoopOutcome::Continue, actions: acts }
            },
            InlineEvent::CyclePrimaryAgent | InlineEvent::CyclePrimaryAgentPrevious => {
                acts.push(HostAction::CycleModel);
                EventOutcome { outcome: LoopOutcome::Continue, actions: acts }
            },
            InlineEvent::Overlay(OverlayEvent::Cancelled) => {
                self.overlay = None;
                EventOutcome { outcome: LoopOutcome::Continue, actions: acts }
            },
            InlineEvent::Overlay(OverlayEvent::Submitted(sub)) => {
                let acts = self.handle_overlay_submission(sub, is_streaming);
                EventOutcome { outcome: LoopOutcome::Continue, actions: acts }
            },
        }
    }
}

} // verus!
