//! Keyboard-level control flow of the event loop: the Ctrl+C ladder, the
//! confirmation modals, and harvesting the composer on submit.
use vstd::prelude::*;

use crate::loop_policy::{route_cancel, CancelRoute, LoopOutcome};
use crate::overlay::{list_key_ok, list_overlay_key, secure_input_key, secure_key_ok, KeyInput, OverlayEvent, OverlayKeyOutcome, OverlayState};
use crate::render_state::{all_set_to, append_spec, tip_shown, BlockDisplayMode, ConfirmationAction, ModalConfirmation, RenderState};
use crate::help::{cheatsheet_overlay, cheatsheet_text};
use crate::palette::{build_command_palette, palette_item_ok, palette_titles, sorted_order};
use crate::tool_box::strings_view;
use crate::transcript::{plain_segment, InlineMessageKind, InlineTextStyle, SegmentView};
use crate::slash::{item_view, popup_items, slash_filter, SlashPopup, SlashPopupItem};
use crate::provider::{provider_from_model_id, provider_of};
use crate::text::{chars_of, is_white_char, push_str, str_eq, string_of, strip_front};

verus! {

/// The quit dialog: its title, its key hint, and the quit action.
pub open spec fn is_quit_confirmation(c: ModalConfirmation) -> bool {
    &&& c.title@ == "Quit oxicode?"@
    &&& c.message@ == "  y \u{2014} quit now     n / x \u{2014} stay"@
    &&& c.action == ConfirmationAction::Quit
}

/// The standard quit-confirmation dialog.
pub fn quit_confirmation() -> (c: ModalConfirmation)
    ensures
        is_quit_confirmation(c),
{
    ModalConfirmation {
        title: String::from_str("Quit oxicode?"),
        message: String::from_str("  y \u{2014} quit now     n / x \u{2014} stay"),
        action: ConfirmationAction::Quit,
    }
}

/// What a Ctrl+C did: whether the loop goes on, and whether the running
/// agent turn must be aborted.
#[derive(Debug, Clone, Copy, PartialEq, Eq, Structural)]
pub struct InterruptOutcome {
    pub outcome: LoopOutcome,
    pub abort_run: bool,
}

/// The clear-conversation dialog: its title, its key hint, and the clear
/// action.
pub open spec fn is_clear_confirmation(c: ModalConfirmation) -> bool {
    &&& c.title@ == "Clear conversation?"@
    &&& c.message@ == "  y \u{2014} clear all     n / x \u{2014} cancel"@
    &&& c.action == ConfirmationAction::ClearConversation
}

/// The clear-conversation confirmation dialog.
pub fn clear_confirmation() -> (c: ModalConfirmation)
    ensures
        is_clear_confirmation(c),
{
    ModalConfirmation {
        title: String::from_str("Clear conversation?"),
        message: String::from_str("  y \u{2014} clear all     n / x \u{2014} cancel"),
        action: ConfirmationAction::ClearConversation,
    }
}

/// What a confirmed dialog asks of the event loop.
#[derive(Debug, PartialEq, Eq)]
pub enum ConfirmedEvent {
    /// Leave the application.
    Exit,
    /// Run this command line through the normal submit path.
    Submit(String),
}

/// The keys that confirm a dialog.
pub open spec fn confirms(key: KeyInput) -> bool {
    key == KeyInput::Char('y') || key == KeyInput::Char('Y') || key == KeyInput::Enter
}

/// The keys that dismiss a dialog.
pub open spec fn dismisses(key: KeyInput) -> bool {
    key == KeyInput::Char('n') || key == KeyInput::Char('N') || key == KeyInput::Char('x')
        || key == KeyInput::Char('X') || key == KeyInput::Esc
}

/// The command line a confirmed action re-submits, if any.
pub open spec fn confirmed_command(a: ConfirmationAction) -> Option<Seq<char>> {
    match a {
        ConfirmationAction::Quit => None,
        ConfirmationAction::ClearConversation => Some("/clear --yes"@),
        ConfirmationAction::RemoveProviderKey(name) => Some(
            "/providers remove "@ + name@ + " --yes"@,
        ),
    }
}

/// The composer text is a slash command still being typed: it starts with
/// `/` and holds no space; the token is everything after the slash.
pub open spec fn slash_token(c: Seq<char>) -> Option<Seq<char>> {
    if c.len() > 0 && c[0] == '/' && !c.subrange(1, c.len() as int).contains(' ') {
        Some(c.subrange(1, c.len() as int))
    } else {
        None
    }
}

/// Prompt history after recording `b` in front, capped at 100 entries.
pub open spec fn history_with(h: Seq<String>, b: String) -> Seq<String> {
    let longer = h.insert(0, b);
    if longer.len() <= 100 {
        longer
    } else {
        longer.subrange(0, 100)
    }
}

/// The text a submit takes: the selected slash-popup command when the
/// popup is open with items, otherwise the composer.
pub open spec fn harvested(s: RenderState) -> Seq<char> {
    if s.slash_popup.open && s.slash_popup.items@.len() > 0 {
        "/"@ + s.slash_popup.items@[s.slash_popup.selected as int].name@
    } else {
        s.composer@
    }
}

/// What taking the submitted text does (see `RenderState::harvest_and_clear_input`).
pub open spec fn harvest_ok(old: RenderState, new: RenderState, r: String) -> bool {
    &&& r@ == harvested(old)
    &&& new.slash_popup.items@.len() == 0
    &&& !new.slash_popup.open
    &&& new.slash_popup.selected == 0
    &&& new.history_pos is None
    &&& new.composer@ == (if old.slash_popup.open && old.slash_popup.items@.len() > 0 {
        old.composer@
    } else {
        Seq::<char>::empty()
    })
    &&& new.prompt_history@ == (if r@.len() > 0 && r@[0] != '/' {
        history_with(old.prompt_history@, r)
    } else {
        old.prompt_history@
    })
    &&& new == (RenderState {
        composer: new.composer,
        slash_popup: new.slash_popup,
        history_pos: None,
        prompt_history: new.prompt_history,
        ..old
    })
}

/// What a key does while a confirmation dialog may be open (see `RenderState::handle_confirmation_key`).
pub open spec fn confirmation_key_ok(old: RenderState, new: RenderState, key: KeyInput, r: Option<ConfirmedEvent>) -> bool {
    &&& old.confirmation is None ==> r is None && new == old
    &&& old.confirmation matches Some(c) ==> {
        if confirms(key) {
            &&& new == (RenderState { confirmation: None, ..old })
            &&& match confirmed_command(c.action) {
                None => r == Some(ConfirmedEvent::Exit),
                Some(cmd) => r matches Some(ConfirmedEvent::Submit(t)) && t@ == cmd,
            }
        } else if dismisses(key) {
            r is None && new == (RenderState { confirmation: None, ..old })
        } else {
            r is None && new == old
        }
    }
}

impl RenderState {
    /// A key pressed while a confirmation dialog is open: `y`/`Y`/Enter
    /// closes it and reports the bound action, `n`/`N`/`x`/`X`/Esc closes
    /// it, any other key leaves it open. Without a dialog nothing happens.
    pub fn handle_confirmation_key(&mut self, key: KeyInput) -> (r: Option<ConfirmedEvent>)
        ensures
            confirmation_key_ok(*old(self), *final(self), key, r),
    {
        let action = match &self.confirmation {
            None => return None,
            Some(c) => match &c.action {
                ConfirmationAction::Quit => None,
                ConfirmationAction::ClearConversation => Some(String::from_str("/clear --yes")),
                ConfirmationAction::RemoveProviderKey(name) => {
                    let mut t = String::from_str("/providers remove ");
                    push_str(&mut t, name.as_str());
                    push_str(&mut t, " --yes");
                    Some(t)
                },
            },
        };
        match key {
            KeyInput::Char('y') | KeyInput::Char('Y') | KeyInput::Enter => {
                self.confirmation = None;
                match action {
                    None => Some(ConfirmedEvent::Exit),
                    Some(t) => Some(ConfirmedEvent::Submit(t)),
                }
            },
            KeyInput::Char('n') | KeyInput::Char('N') | KeyInput::Char('x') | KeyInput::Char('X')
            | KeyInput::Esc => {
                self.confirmation = None;
                None
            },
            _ => None,
        }
    }

    /// Takes the submitted text: the selected slash-popup command, or the
    /// composer (which is then cleared). The popup closes, history browsing
    /// ends, and a non-empty prompt that is not a command is recorded at
    /// the front of the history, which keeps at most 100 entries.
    pub fn harvest_and_clear_input(&mut self) -> (r: String)
        requires
            old(self).slash_popup.open && old(self).slash_popup.items@.len() > 0
                ==> old(self).slash_popup.selected < old(self).slash_popup.items@.len(),
        ensures
            harvest_ok(*old(self), *final(self), r),
    {
        let buf = if self.slash_popup.open && self.slash_popup.items.len() > 0 {
            let mut b = String::from_str("/");
            push_str(&mut b, self.slash_popup.items[self.slash_popup.selected].name.as_str());
            b
        } else {
            let b = self.composer.clone();
            self.composer = String::new();
            b
        };
        self.slash_popup = SlashPopup { open: false, items: Vec::new(), selected: 0 };
        self.history_pos = None;
        let cs = chars_of(buf.as_str());
        if cs.len() > 0 && cs[0] != '/' {
            let ghost h = self.prompt_history@;
            self.prompt_history.insert(0, buf.clone());
            self.prompt_history.truncate(100);
            assert(self.prompt_history@ =~= history_with(h, buf));
        }
        buf
    }

    /// Recomputes the slash popup from the composer: it lists the commands
    /// that match the token while a slash command is being typed, and is
    /// closed and empty otherwise. The selection is kept, clamped to the
    /// new list.
    #[verifier::spinoff_prover]
    #[verifier::rlimit(60)]
    pub fn refresh_slash_popup(&mut self)
        ensures
            match slash_token(old(self).composer@) {
                None => {
                    &&& !final(self).slash_popup.open
                    &&& final(self).slash_popup.items@.len() == 0
                    &&& final(self).slash_popup.selected == 0
                },
                Some(tok) => {
                    let items = popup_items(tok, old(self).slash_commands@, old(self).file_commands@);
                    &&& final(self).slash_popup.items@.map_values(|i: SlashPopupItem| item_view(i)) == items
                    &&& final(self).slash_popup.open == (items.len() > 0)
                    &&& final(self).slash_popup.selected == (if items.len() == 0 {
                        0
                    } else if old(self).slash_popup.selected < items.len() {
                        old(self).slash_popup.selected as int
                    } else {
                        items.len() - 1
                    })
                },
            },
            *final(self) == (RenderState { slash_popup: final(self).slash_popup, ..*old(self) }),
    {
        let cs = chars_of(self.composer.as_str());
        let mut active = cs.len() > 0 && cs[0] == '/';
        if active {
            let rest = &cs.as_slice()[1..cs.len()];
            let mut k: usize = 0;
            while k < rest.len() && active
                invariant
                    k <= rest.len(),
                    rest@ == cs@.subrange(1, cs@.len() as int),
                    active ==> forall|j: int| 0 <= j < k ==> rest@[j] != ' ',
                    !active ==> rest@.contains(' '),
                decreases rest.len() - k,
            {
                if rest[k] == ' ' {
                    assert(rest@[k as int] == ' ');
                    active = false;
                }
                k += 1;
            }
            assert(active ==> !rest@.contains(' '));
        }
        if !active {
            self.slash_popup = SlashPopup { open: false, items: Vec::new(), selected: 0 };
            return;
        }
        let token = string_of(&cs.as_slice()[1..cs.len()]);
        let items = slash_filter(token.as_str(), self.slash_commands.as_slice(), self.file_commands.as_slice());
        let n = items.len();
        proof {
            assert(items@.map_values(|i: SlashPopupItem| item_view(i)).len() == items@.len());
        }
        let selected = if n == 0 {
            0
        } else if self.slash_popup.selected < n {
            self.slash_popup.selected
        } else {
            n - 1
        };
        self.slash_popup = SlashPopup { open: n > 0, items, selected };
    }
}

/// What the Ctrl+C ladder returns: with a dialog up it quits; a second
/// press after an aborted run, or a press while idle, asks to confirm; a
/// press while streaming aborts the run.
pub open spec fn interrupt_result(s: RenderState, is_streaming: bool) -> InterruptOutcome {
    if s.confirmation is Some {
        InterruptOutcome { outcome: LoopOutcome::Exit, abort_run: false }
    } else if s.pending_quit {
        InterruptOutcome { outcome: LoopOutcome::Continue, abort_run: false }
    } else if is_streaming {
        InterruptOutcome { outcome: LoopOutcome::Continue, abort_run: true }
    } else {
        InterruptOutcome { outcome: LoopOutcome::Continue, abort_run: false }
    }
}

/// What the Ctrl+C ladder does to the state: with a dialog up nothing; an
/// armed quit turns into the quit dialog; while streaming the quit is
/// armed; while idle the quit dialog opens.
pub open spec fn interrupt_ok(old: RenderState, new: RenderState, is_streaming: bool) -> bool {
    if old.confirmation is Some {
        new == old
    } else if old.pending_quit {
        &&& new.confirmation matches Some(c) && is_quit_confirmation(c)
        &&& new == (RenderState { confirmation: new.confirmation, pending_quit: false, ..old })
    } else if is_streaming {
        new == (RenderState { pending_quit: true, ..old })
    } else {
        &&& new.confirmation matches Some(c) && is_quit_confirmation(c)
        &&& new == (RenderState { confirmation: new.confirmation, ..old })
    }
}

/// What Esc from the event loop returns: the Ctrl+C ladder while
/// streaming, an immediate quit when idle.
pub open spec fn cancel_result(s: RenderState, is_streaming: bool) -> InterruptOutcome {
    if is_streaming {
        interrupt_result(s, true)
    } else {
        InterruptOutcome { outcome: LoopOutcome::Exit, abort_run: false }
    }
}

/// What Esc from the event loop does to the state.
pub open spec fn cancel_ok(old: RenderState, new: RenderState, is_streaming: bool) -> bool {
    if is_streaming { interrupt_ok(old, new, true) } else { new == old }
}

impl RenderState {
    /// The Ctrl+C ladder.
    pub fn handle_interrupt(&mut self, is_streaming: bool) -> (r: InterruptOutcome)
        ensures
            r == interrupt_result(*old(self), is_streaming),
            interrupt_ok(*old(self), *final(self), is_streaming),
    {
        if self.confirmation.is_some() {
            return InterruptOutcome { outcome: LoopOutcome::Exit, abort_run: false };
        }
        if self.pending_quit {
            self.confirmation = Some(quit_confirmation());
            self.pending_quit = false;
            return InterruptOutcome { outcome: LoopOutcome::Continue, abort_run: false };
        }
        if is_streaming {
            self.pending_quit = true;
            InterruptOutcome { outcome: LoopOutcome::Continue, abort_run: true }
        } else {
            self.confirmation = Some(quit_confirmation());
            InterruptOutcome { outcome: LoopOutcome::Continue, abort_run: false }
        }
    }
}

impl RenderState {
    /// Points the composer's provider/model chips at `model_id`, and adopts
    /// `ctx_window` as the context size when it is known (non-zero). An
    /// empty model id changes nothing.
    pub fn apply_model_to_chips(&mut self, model_id: &str, ctx_window: usize)
        ensures
            model_id@.len() == 0 ==> *final(self) == *old(self),
            model_id@.len() > 0 ==> *final(self) == (RenderState {
                header_provider: final(self).header_provider,
                header_model: final(self).header_model,
                context_window: if ctx_window > 0 { ctx_window } else { old(self).context_window },
                ..*old(self)
            }),
            model_id@.len() > 0 ==> final(self).header_provider@ == provider_of(model_id@),
            model_id@.len() > 0 ==> final(self).header_model@ == model_id@,
    {
        if model_id.is_empty() {
            return;
        }
        self.header_provider = provider_from_model_id(model_id);
        self.header_model = model_id.to_string();
        if ctx_window > 0 {
            self.context_window = ctx_window;
        }
    }
}

/// The open overlay's prompt, if it has one, is well formed: its caret is
/// inside its text and the text can still grow.
pub open spec fn overlay_prompt_wf(o: Option<OverlayState>) -> bool {
    o matches Some(ov) ==> (ov.secure_input matches Some(si) ==> si.cursor <= si.chars@.len() && si.chars@.len() < usize::MAX)
}

/// What a key does while an overlay may be open (see `RenderState::handle_overlay_key`).
pub open spec fn overlay_key_ok(old: RenderState, new: RenderState, key: KeyInput, out: OverlayKeyOutcome) -> bool {
    &&& new == (RenderState { overlay: new.overlay, ..old })
    &&& match old.overlay {
        None => !out.consumed && !out.close && out.event is None && out.switch_tab is None && new.overlay is None,
        Some(o) => match o.secure_input {
            Some(si) => exists|n: crate::overlay::OverlaySecureInput| #![trigger secure_key_ok(si, n, key, out)]
                secure_key_ok(si, n, key, out) && new.overlay == (if out.close {
                    None
                } else {
                    Some(OverlayState { secure_input: Some(n), ..o })
                }),
            None => exists|n: OverlayState| #![trigger list_key_ok(o, n, key, out)]
                list_key_ok(o, n, key, out)
                    && new.overlay == (if out.close { None } else { Some(n) }),
        },
    }
}

impl RenderState {
    /// Routes a key to the open overlay: a text prompt takes every key,
    /// otherwise the list handles it. An overlay that the key closes is
    /// removed. Without an overlay the key is not consumed.
    pub fn handle_overlay_key(&mut self, key: KeyInput) -> (out: OverlayKeyOutcome)
        requires
            overlay_prompt_wf(old(self).overlay),
        ensures
            overlay_key_ok(*old(self), *final(self), key, out),
    {
        let mut o = match self.overlay.take() {
            None => {
                return OverlayKeyOutcome { consumed: false, close: false, event: None, switch_tab: None };
            },
            Some(o) => o,
        };
        let ghost o0 = o;
        let out = match o.secure_input.take() {
            Some(si) => {
                let mut si = si;
                let out = secure_input_key(&mut si, key);
                o.secure_input = Some(si);
                assert(o == OverlayState { secure_input: Some(si), ..o0 });
                out
            },
            None => {
                let out = list_overlay_key(&mut o, key);
                assert(list_key_ok(o0, o, key, out));
                out
            },
        };
        if !out.close {
            self.overlay = Some(o);
        }
        out
    }
}

/// A submitted line is a slash command when its first non-blank character
/// is `/`.
pub open spec fn is_command_line(p: Seq<char>) -> bool {
    strip_front(p).len() > 0 && strip_front(p)[0] == '/'
}

/// Whether `p` is a slash command line.
pub fn command_line(p: &str) -> (r: bool)
    ensures
        r == is_command_line(p@),
{
    let cs = chars_of(p);
    let mut i: usize = 0;
    assert(cs@.skip(0) =~= cs@);
    while i < cs.len() && is_white_char(cs[i])
        invariant
            i <= cs@.len(),
            strip_front(p@) == strip_front(cs@.skip(i as int)),
            cs@ == p@,
        decreases cs@.len() - i,
    {
        assert(cs@.skip(i as int).drop_first() =~= cs@.skip(i + 1));
        i += 1;
    }
    i < cs.len() && cs[i] == '/'
}

/// What a submitted line asks of the event loop.
#[derive(Debug, PartialEq, Eq)]
pub enum SubmitAction {
    /// Nothing was submitted.
    Nothing,
    /// Dispatch this slash command.
    Command(String),
    /// Send this prompt to the agent.
    Prompt(String),
}

/// The tip shown when a prompt is queued behind a running one.
pub open spec fn send_now_tip() -> Seq<char> {
    "Ctrl+Enter sends now | Ctrl+; manages queue"@
}

/// What a submitted line asks of the event loop: nothing for an empty
/// line, dispatch for a slash command, the agent for a prompt.
pub open spec fn submit_result(text: String) -> SubmitAction {
    if text@.len() == 0 {
        SubmitAction::Nothing
    } else if is_command_line(text@) {
        SubmitAction::Command(text)
    } else {
        SubmitAction::Prompt(text)
    }
}

/// What submitting `text` does to the state: the composer empties; a
/// non-empty line ends the quit arming and is echoed as a user line; a
/// prompt sent while a run is active is shown in the queue pane, with a
/// tip.
pub open spec fn submit_ok(old: RenderState, new: RenderState, text: String, is_streaming: bool, now_tick: u64) -> bool {
    &&& new.composer@.len() == 0
    &&& text@.len() == 0 ==> new == (RenderState { composer: new.composer, ..old })
    &&& text@.len() > 0 ==> {
        let echoed = append_spec(old.lines(), old.next_block_id, InlineMessageKind::User,
            seq![SegmentView { text: text@, style: InlineTextStyle::plain_spec() }]);
        &&& (new.lines(), new.next_block_id) == echoed
        &&& !new.pending_quit
        &&& if is_command_line(text@) || !is_streaming {
            new == (RenderState {
                composer: new.composer,
                pending_quit: false,
                transcript: new.transcript,
                next_block_id: new.next_block_id,
                ..old
            })
        } else {
            &&& new.queued_inputs@ == old.queued_inputs@.push(text)
            &&& tip_shown(old, new, "send_now", send_now_tip(), 240, true, now_tick)
            &&& new == (RenderState {
                composer: new.composer,
                pending_quit: false,
                transcript: new.transcript,
                next_block_id: new.next_block_id,
                queued_inputs: new.queued_inputs,
                seen_tips: new.seen_tips,
                tip: new.tip,
                ..old
            })
        }
    }
}

impl RenderState {
    /// A submitted line: the composer empties; an empty line does nothing
    /// else. Otherwise the quit arming ends and the line is echoed as a user
    /// line; a slash command goes to dispatch, and a prompt goes to the
    /// agent, shown in the queue pane (with a tip) while a run is active.
    pub fn handle_submit(&mut self, text: String, is_streaming: bool, now_tick: u64) -> (r: SubmitAction)
        requires
            old(self).next_block_id < usize::MAX,
        ensures
            r == submit_result(text),
            submit_ok(*old(self), *final(self), text, is_streaming, now_tick),
    {
        self.composer = String::new();
        if text.as_str().is_empty() {
            return SubmitAction::Nothing;
        }
        self.pending_quit = false;
        let mut segs = Vec::new();
        segs.push(plain_segment(text.as_str()));
        assert(crate::transcript::segs_view(segs@) =~= seq![SegmentView { text: text@, style: InlineTextStyle::plain_spec() }]);
        self.append_line(InlineMessageKind::User, segs);
        if command_line(text.as_str()) {
            return SubmitAction::Command(text);
        }
        if is_streaming {
            self.queued_inputs.push(text.clone());
            self.show_tip("send_now", "Ctrl+Enter sends now | Ctrl+; manages queue", 240, true, now_tick);
        }
        SubmitAction::Prompt(text)
    }

    /// Esc from the event loop: interrupts a running stream (see
    /// `handle_interrupt`), and quits at once when idle.
    pub fn handle_cancel(&mut self, is_streaming: bool) -> (r: InterruptOutcome)
        ensures
            r == cancel_result(*old(self), is_streaming),
            cancel_ok(*old(self), *final(self), is_streaming),
    {
        match route_cancel(is_streaming) {
            CancelRoute::Interrupt => self.handle_interrupt(is_streaming),
            CancelRoute::Exit => InterruptOutcome { outcome: LoopOutcome::Exit, abort_run: false },
        }
    }

    /// Scrolls the transcript view by `rows` lines: up moves away from the
    /// tail, down towards it, both saturating.
    pub fn scroll_by(&mut self, up: bool, rows: usize)
        ensures
            *final(self) == (RenderState {
                scroll_offset: if up {
                    if old(self).scroll_offset + rows <= usize::MAX { (old(self).scroll_offset + rows) as usize } else { usize::MAX }
                } else {
                    if old(self).scroll_offset >= rows { (old(self).scroll_offset - rows) as usize } else { 0 }
                },
                ..*old(self)
            }),
    {
        self.scroll_offset = if up {
            self.scroll_offset.saturating_add(rows)
        } else {
            self.scroll_offset.saturating_sub(rows)
        };
    }
}

/// The global shortcuts, whatever keys they are bound to.
#[derive(Debug, Clone, Copy, PartialEq, Eq, Structural)]
pub enum GlobalAction {
    Interrupt,
    ToggleMultiline,
    OpenCommandPalette,
    ToggleQueuePanel,
    FoldAll,
    SendNow,
    Submit,
    ScrollUp,
    ScrollDown,
    Clear,
    Help,
    ModelPicker,
    ToggleThinking,
}

/// The name of a global shortcut, as the settings and the keybinding
/// editor spell it.
pub open spec fn action_name_spec(a: GlobalAction) -> Seq<char> {
    match a {
        GlobalAction::Interrupt => "Interrupt"@,
        GlobalAction::ToggleMultiline => "ToggleMultiline"@,
        GlobalAction::OpenCommandPalette => "OpenCommandPalette"@,
        GlobalAction::ToggleQueuePanel => "ToggleQueuePanel"@,
        GlobalAction::FoldAll => "FoldAll"@,
        GlobalAction::SendNow => "SendNow"@,
        GlobalAction::Submit => "Submit"@,
        GlobalAction::ScrollUp => "ScrollUp"@,
        GlobalAction::ScrollDown => "ScrollDown"@,
        GlobalAction::Clear => "Clear"@,
        GlobalAction::Help => "Help"@,
        GlobalAction::ModelPicker => "ModelPicker"@,
        GlobalAction::ToggleThinking => "ToggleThinking"@,
    }
}

impl GlobalAction {
    /// The shortcut's name.
    pub fn name(self) -> (n: &'static str)
        ensures
            n@ == action_name_spec(self),
    {
        match self {
            GlobalAction::Interrupt => "Interrupt",
            GlobalAction::ToggleMultiline => "ToggleMultiline",
            GlobalAction::OpenCommandPalette => "OpenCommandPalette",
            GlobalAction::ToggleQueuePanel => "ToggleQueuePanel",
            GlobalAction::FoldAll => "FoldAll",
            GlobalAction::SendNow => "SendNow",
            GlobalAction::Submit => "Submit",
            GlobalAction::ScrollUp => "ScrollUp",
            GlobalAction::ScrollDown => "ScrollDown",
            GlobalAction::Clear => "Clear",
            GlobalAction::Help => "Help",
            GlobalAction::ModelPicker => "ModelPicker",
            GlobalAction::ToggleThinking => "ToggleThinking",
        }
    }

    /// The shortcut named `name`, if any.
    pub fn from_name(name: &str) -> (r: Option<GlobalAction>)
        ensures
            match r {
                Some(a) => action_name_spec(a) == name@,
                None => forall|a: GlobalAction| action_name_spec(a) != name@,
            },
    {
        if str_eq(name, "Interrupt") {
            Some(GlobalAction::Interrupt)
        } else if str_eq(name, "ToggleMultiline") {
            Some(GlobalAction::ToggleMultiline)
        } else if str_eq(name, "OpenCommandPalette") {
            Some(GlobalAction::OpenCommandPalette)
        } else if str_eq(name, "ToggleQueuePanel") {
            Some(GlobalAction::ToggleQueuePanel)
        } else if str_eq(name, "FoldAll") {
            Some(GlobalAction::FoldAll)
        } else if str_eq(name, "SendNow") {
            Some(GlobalAction::SendNow)
        } else if str_eq(name, "Submit") {
            Some(GlobalAction::Submit)
        } else if str_eq(name, "ScrollUp") {
            Some(GlobalAction::ScrollUp)
        } else if str_eq(name, "ScrollDown") {
            Some(GlobalAction::ScrollDown)
        } else if str_eq(name, "Clear") {
            Some(GlobalAction::Clear)
        } else if str_eq(name, "Help") {
            Some(GlobalAction::Help)
        } else if str_eq(name, "ModelPicker") {
            Some(GlobalAction::ModelPicker)
        } else if str_eq(name, "ToggleThinking") {
            Some(GlobalAction::ToggleThinking)
        } else {
            None
        }
    }
}

/// An event the input side sends to the event loop.
#[derive(Debug, PartialEq, Eq)]
pub enum InlineEvent {
    /// Submit this line.
    Submit(String),
    /// Esc: interrupt a running stream, or quit when idle.
    Cancel,
    /// Leave at once.
    Exit,
    /// Ctrl+C.
    Interrupt,
    ScrollLineUp,
    ScrollLineDown,
    ScrollPageUp,
    ScrollPageDown,
    /// Switch to the next model.
    CyclePrimaryAgent,
    /// Switch to the previous model.
    CyclePrimaryAgentPrevious,
    /// An overlay was submitted or cancelled.
    Overlay(OverlayEvent),
}

/// The command palette over the state's built-in commands.
pub open spec fn is_palette_of(o: OverlayState, s: RenderState) -> bool {
    &&& o.title@ == "Command Palette"@
    &&& exists|order: Seq<usize>| #![trigger sorted_order(palette_titles(s.slash_commands@), order, s.slash_commands@.len() as int)] {
        &&& sorted_order(palette_titles(s.slash_commands@), order, s.slash_commands@.len() as int)
        &&& o.items@.len() == s.slash_commands@.len()
        &&& forall|i: int| 0 <= i < s.slash_commands@.len() ==> palette_item_ok(#[trigger] o.items@[i], s.slash_commands@[order[i] as int])
    }
}

/// What a global shortcut does (see `RenderState::apply_global_action`).
pub open spec fn global_action_ok(old: RenderState, new: RenderState, action: GlobalAction, events: Seq<InlineEvent>) -> bool {
    &&& match action {
        GlobalAction::Interrupt => events == seq![InlineEvent::Interrupt] && new == old,
        GlobalAction::ToggleMultiline | GlobalAction::ToggleThinking => events.len() == 0
            && new == (RenderState { multiline_mode: !old.multiline_mode, ..old }),
        GlobalAction::OpenCommandPalette | GlobalAction::ModelPicker => events.len() == 0
            && (new.overlay matches Some(o) && is_palette_of(o, old))
            && new == (RenderState { overlay: new.overlay, ..old }),
        GlobalAction::ToggleQueuePanel => events.len() == 0
            && new == (RenderState {
                queue_panel_open: !old.queue_panel_open,
                queue_selected: if !old.queue_panel_open { 0 } else { old.queue_selected },
                ..old
            }),
        GlobalAction::FoldAll | GlobalAction::Clear => events.len() == 0
            && all_set_to(old, new, BlockDisplayMode::Collapsed),
        GlobalAction::SendNow => {
            let t = harvested(old);
            &&& (if t.len() > 0 {
                events.len() == 2 && events[0] == InlineEvent::Interrupt
                    && (events[1] matches InlineEvent::Submit(x) && x@ == t)
            } else {
                events.len() == 0
            })
            &&& new.composer@ == (if old.slash_popup.open && old.slash_popup.items@.len() > 0 {
                old.composer@
            } else {
                Seq::<char>::empty()
            })
        },
        GlobalAction::Submit => events.len() == 1 && (events[0] matches InlineEvent::Submit(x) && x@ == harvested(old)),
        GlobalAction::ScrollUp => events == seq![InlineEvent::ScrollPageUp] && new == old,
        GlobalAction::ScrollDown => events == seq![InlineEvent::ScrollPageDown] && new == old,
        GlobalAction::Help => events.len() == 0
            && (new.overlay matches Some(o) && o.title@ == "Keyboard Shortcuts"@ && strings_view(o.lines@) == cheatsheet_text())
            && new == (RenderState { overlay: new.overlay, ..old }),
    }
}

impl RenderState {
    /// Runs a global shortcut; returns the events it sends to the loop.
    pub fn apply_global_action(&mut self, action: GlobalAction) -> (events: Vec<InlineEvent>)
        requires
            old(self).slash_popup.open && old(self).slash_popup.items@.len() > 0
                ==> old(self).slash_popup.selected < old(self).slash_popup.items@.len(),
        ensures
            global_action_ok(*old(self), *final(self), action, events@),
    {
        let mut events: Vec<InlineEvent> = Vec::new();
        match action {
            GlobalAction::Interrupt => {
                events.push(InlineEvent::Interrupt);
            },
            GlobalAction::ToggleMultiline | GlobalAction::ToggleThinking => {
                self.multiline_mode = !self.multiline_mode;
            },
            GlobalAction::OpenCommandPalette | GlobalAction::ModelPicker => {
                self.overlay = Some(build_command_palette(&self.slash_commands));
            },
            GlobalAction::ToggleQueuePanel => {
                self.queue_panel_open = !self.queue_panel_open;
                if self.queue_panel_open {
                    self.queue_selected = 0;
                }
            },
            GlobalAction::FoldAll | GlobalAction::Clear => {
                self.fold_all();
            },
            GlobalAction::SendNow => {
                let submitted = self.harvest_and_clear_input();
                if !submitted.as_str().is_empty() {
                    events.push(InlineEvent::Interrupt);
                    events.push(InlineEvent::Submit(submitted));
                }
            },
            GlobalAction::Submit => {
                let submitted = self.harvest_and_clear_input();
                events.push(InlineEvent::Submit(submitted));
            },
            GlobalAction::ScrollUp => {
                events.push(InlineEvent::ScrollPageUp);
            },
            GlobalAction::ScrollDown => {
                events.push(InlineEvent::ScrollPageDown);
            },
            GlobalAction::Help => {
                self.overlay = Some(cheatsheet_overlay());
            },
        }
        events
    }
}

} // verus!
