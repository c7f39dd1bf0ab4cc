//! Text prompts (masked API-key entry, model-role and setting editors) and
//! what happens with the text once it is submitted.
use vstd::prelude::*;

use crate::overlay::{ListSelection, OverlayListItem, OverlaySecureInput, OverlayState};
use crate::provider::AuthAction;
use crate::render_state::{ConfirmationAction, ModalConfirmation, RenderState, SecureInputOrigin};
use crate::text::{chars_of, push_str, trim, trimmed};

verus! {

/// `o` is a single-line text prompt with exactly these texts: `title`, one
/// explanatory `line`, the prompt `label` and `placeholder`, the editor
/// holding `prefill` with the caret at its end, masked when `mask` holds,
/// and nothing else (no list, search, tabs or key capture).
pub open spec fn is_text_prompt(
    o: OverlayState,
    title: Seq<char>,
    line: Seq<char>,
    label: Seq<char>,
    placeholder: Option<Seq<char>>,
    prefill: Seq<char>,
    mask: bool,
) -> bool {
    &&& o.title@ == title
    &&& o.lines@.len() == 1 && o.lines@[0]@ == line
    &&& o.items@.len() == 0 && o.selected == 0 && o.search is None
    &&& o.tabs@.len() == 0 && o.active_tab == 0 && o.sections@.len() == 0 && o.active_section == 0
    &&& o.key_capture is None
    &&& o.secure_input matches Some(si) && {
        &&& si.label@ == label
        &&& match (si.placeholder, placeholder) {
            (Some(p), Some(q)) => p@ == q,
            (None, None) => true,
            _ => false,
        }
        &&& si.mask_input == mask
        &&& si.chars@ == prefill
        &&& si.cursor == prefill.len()
    }
}

/// A single-line unmasked text prompt, its editor prefilled with `prefill`.
pub fn text_prompt_overlay(
    title: String,
    line: String,
    label: &str,
    placeholder: Option<String>,
    prefill: Option<&str>,
) -> (o: OverlayState)
    ensures
        is_text_prompt(
            o,
            title@,
            line@,
            label@,
            match placeholder { Some(p) => Some(p@), None => None },
            match prefill { Some(p) => p@, None => Seq::empty() },
            false,
        ),
{
    let chars = match prefill {
        Some(t) => chars_of(t),
        None => Vec::new(),
    };
    let cursor = chars.len();
    let mut lines: Vec<String> = Vec::new();
    lines.push(line);
    OverlayState {
        title,
        lines,
        items: Vec::new(),
        selected: 0,
        search: None,
        secure_input: Some(OverlaySecureInput {
            label: String::from_str(label),
            placeholder,
            mask_input: false,
            chars,
            cursor,
        }),
        tabs: Vec::new(),
        active_tab: 0,
        sections: Vec::new(),
        active_section: 0,
        key_capture: None,
    }
}

/// `o` is the masked API-key prompt for `provider`.
pub open spec fn is_key_prompt(o: OverlayState, provider: Seq<char>) -> bool {
    &&& o.title@ == "Set API key for "@ + provider
    &&& o.lines@.len() == 2
    &&& o.lines@[0]@ == "Paste the API key. Press Enter to save, Esc to cancel."@
    &&& o.lines@[1]@ == "The key is masked on screen; nothing is logged."@
    &&& o.items@.len() == 0 && o.selected == 0 && o.search is None
    &&& o.tabs@.len() == 0 && o.active_tab == 0 && o.sections@.len() == 0 && o.active_section == 0
    &&& o.key_capture is None
    &&& o.secure_input matches Some(si) && {
        &&& si.label@ == provider + " key"@
        &&& si.placeholder matches Some(p) && p@ == "sk-..."@
        &&& si.mask_input
        &&& si.chars@.len() == 0
        &&& si.cursor == 0
    }
}

/// The masked API-key prompt for `provider`.
pub fn key_prompt_overlay(provider: &str) -> (o: OverlayState)
    ensures
        is_key_prompt(o, provider@),
{
    let mut title = String::from_str("Set API key for ");
    push_str(&mut title, provider);
    let mut label = String::from_str(provider);
    push_str(&mut label, " key");
    let mut lines: Vec<String> = Vec::new();
    lines.push(String::from_str("Paste the API key. Press Enter to save, Esc to cancel."));
    lines.push(String::from_str("The key is masked on screen; nothing is logged."));
    OverlayState {
        title,
        lines,
        items: Vec::new(),
        selected: 0,
        search: None,
        secure_input: Some(OverlaySecureInput {
            label,
            placeholder: Some(String::from_str("sk-...")),
            mask_input: true,
            chars: Vec::new(),
            cursor: 0,
        }),
        tabs: Vec::new(),
        active_tab: 0,
        sections: Vec::new(),
        active_section: 0,
        key_capture: None,
    }
}

/// The provider an API-key origin is about.
pub open spec fn key_origin_provider(o: SecureInputOrigin) -> Option<Seq<char>> {
    match o {
        SecureInputOrigin::SetKey { provider } => Some(provider@),
        SecureInputOrigin::NewlyAdded { provider } => Some(provider@),
        _ => None,
    }
}

/// What to do with the text of a submitted prompt.
#[derive(Debug, PartialEq, Eq)]
pub enum SecureFollowUp {
    /// Show this error line in the transcript.
    ErrorLine(String),
    /// Ask for the model pattern of the new `role`.
    OpenRoleValuePrompt { role: String },
    /// Commit `text` as the new value of setting `key`.
    CommitTextEdit { key: String, text: String },
    /// Persist `model` as the model pattern of `role`.
    SaveModelRole { role: String, model: String },
    /// Store `key` as the API key of `provider`.
    SaveApiKey { provider: String, key: String, newly_added: bool },
}

/// The follow-up for `text` submitted from a prompt of origin `o`: role
/// names and model patterns are trimmed and must not be empty; setting
/// edits and API keys pass the text through unchanged.
pub open spec fn follow_up_ok(o: SecureInputOrigin, text: Seq<char>, r: SecureFollowUp) -> bool {
    match o {
        SecureInputOrigin::ModelRoleKey => if trimmed(text).len() == 0 {
            r matches SecureFollowUp::ErrorLine(m) && m@ == "Model role name can't be empty"@
        } else {
            r matches SecureFollowUp::OpenRoleValuePrompt { role } && role@ == trimmed(text)
        },
        SecureInputOrigin::TextEdit(key) =>
            r matches SecureFollowUp::CommitTextEdit { key: k, text: t } && k@ == key@ && t@ == text,
        SecureInputOrigin::ModelRoleValue { role } => if trimmed(text).len() == 0 {
            r matches SecureFollowUp::ErrorLine(m)
                && m@ == "Failed to save model role '"@ + role@ + "': model pattern can't be empty"@
        } else {
            r matches SecureFollowUp::SaveModelRole { role: ro, model } && ro@ == role@ && model@ == trimmed(text)
        },
        SecureInputOrigin::SetKey { provider } =>
            r matches SecureFollowUp::SaveApiKey { provider: p, key, newly_added }
                && p@ == provider@ && key@ == text && !newly_added,
        SecureInputOrigin::NewlyAdded { provider } =>
            r matches SecureFollowUp::SaveApiKey { provider: p, key, newly_added }
                && p@ == provider@ && key@ == text && newly_added,
    }
}

/// Decides what the text submitted from a prompt of origin `origin` does.
pub fn route_secure_submission(origin: SecureInputOrigin, text: &str) -> (r: SecureFollowUp)
    ensures
        follow_up_ok(origin, text@, r),
{
    match origin {
        SecureInputOrigin::ModelRoleKey => {
            let role = trim(text);
            if role.as_str().is_empty() {
                SecureFollowUp::ErrorLine(String::from_str("Model role name can't be empty"))
            } else {
                SecureFollowUp::OpenRoleValuePrompt { role }
            }
        },
        SecureInputOrigin::TextEdit(key) => SecureFollowUp::CommitTextEdit {
            key,
            text: String::from_str(text),
        },
        SecureInputOrigin::ModelRoleValue { role } => {
            let model = trim(text);
            if model.as_str().is_empty() {
                let mut m = String::from_str("Failed to save model role '");
                push_str(&mut m, role.as_str());
                push_str(&mut m, "': model pattern can't be empty");
                SecureFollowUp::ErrorLine(m)
            } else {
                SecureFollowUp::SaveModelRole { role, model }
            }
        },
        SecureInputOrigin::SetKey { provider } => SecureFollowUp::SaveApiKey {
            provider,
            key: String::from_str(text),
            newly_added: false,
        },
        SecureInputOrigin::NewlyAdded { provider } => SecureFollowUp::SaveApiKey {
            provider,
            key: String::from_str(text),
            newly_added: true,
        },
    }
}

/// The line confirming a stored API key; it tells whether the running
/// session picked the key up (`refreshed`).
pub open spec fn key_saved_text(provider: Seq<char>, newly_added: bool, refreshed: bool) -> Seq<char> {
    if newly_added {
        "Added and configured '"@ + provider + "'. "@ + (if refreshed {
            "Use /models to choose a model, or send a message."@
        } else {
            "Restart this session before using it."@
        })
    } else {
        "Saved API key for '"@ + provider + "'. "@ + (if refreshed {
            "Ready to retry your message."@
        } else {
            "Restart this session before retrying."@
        })
    }
}

/// The line confirming a stored API key.
pub fn key_saved_message(provider: &str, newly_added: bool, refreshed: bool) -> (m: String)
    ensures
        m@ == key_saved_text(provider@, newly_added, refreshed),
{
    let mut m = if newly_added {
        String::from_str("Added and configured '")
    } else {
        String::from_str("Saved API key for '")
    };
    push_str(&mut m, provider);
    push_str(&mut m, "'. ");
    let tail = if newly_added {
        if refreshed { "Use /models to choose a model, or send a message." } else { "Restart this session before using it." }
    } else {
        if refreshed { "Ready to retry your message." } else { "Restart this session before retrying." }
    };
    push_str(&mut m, tail);
    m
}

/// The line confirming a saved model role: `Model role '<role>' → <model>`.
pub fn model_role_saved_message(role: &str, model: &str) -> (m: String)
    ensures
        m@ == "Model role '"@ + role@ + "' \u{2192} "@ + model@,
{
    let mut m = String::from_str("Model role '");
    push_str(&mut m, role);
    push_str(&mut m, "' \u{2192} ");
    push_str(&mut m, model);
    m
}

/// The line reporting that a model role could not be saved.
pub fn model_role_failed_message(role: &str, error: &str) -> (m: String)
    ensures
        m@ == "Failed to save model role '"@ + role@ + "': "@ + error@,
{
    let mut m = String::from_str("Failed to save model role '");
    push_str(&mut m, role);
    push_str(&mut m, "': ");
    push_str(&mut m, error);
    m
}

/// What opening the new-model-role prompt does (see `RenderState::open_model_role_key_prompt`).
pub open spec fn role_key_prompt_ok(old: RenderState, new: RenderState) -> bool {
    &&& new.overlay matches Some(o) && is_text_prompt(
        o,
        "New model role"@,
        "Name the role (e.g. fast, planner). Enter continues, Esc cancels."@,
        "role"@,
        Some("role name"@),
        Seq::empty(),
        false,
    )
    &&& new == (RenderState {
        overlay: new.overlay,
        secure_input_origin: Some(SecureInputOrigin::ModelRoleKey),
        ..old
    })
}

impl RenderState {
    /// Opens the masked key prompt for an API-key origin and remembers the
    /// origin; other origins have prompts of their own and change nothing.
    pub fn open_secure_prompt(&mut self, origin: SecureInputOrigin)
        ensures
            match key_origin_provider(origin) {
                Some(p) => {
                    &&& final(self).overlay matches Some(o) && is_key_prompt(o, p)
                    &&& *final(self) == (RenderState {
                        overlay: final(self).overlay,
                        secure_input_origin: Some(origin),
                        ..*old(self)
                    })
                },
                None => *final(self) == *old(self),
            },
    {
        let overlay = match &origin {
            SecureInputOrigin::SetKey { provider } => key_prompt_overlay(provider.as_str()),
            SecureInputOrigin::NewlyAdded { provider } => key_prompt_overlay(provider.as_str()),
            _ => return,
        };
        self.secure_input_origin = Some(origin);
        self.overlay = Some(overlay);
    }

    /// Opens the prompt naming a new model role.
    pub fn open_model_role_key_prompt(&mut self)
        ensures
            role_key_prompt_ok(*old(self), *final(self)),
    {
        self.secure_input_origin = Some(SecureInputOrigin::ModelRoleKey);
        self.overlay = Some(text_prompt_overlay(
            String::from_str("New model role"),
            String::from_str("Name the role (e.g. fast, planner). Enter continues, Esc cancels."),
            "role",
            Some(String::from_str("role name")),
            None,
        ));
    }

    /// Opens the prompt for the model pattern of `role`, prefilled with its
    /// `current` pattern when it has one.
    pub fn open_model_role_value_prompt(&mut self, role: &str, current: Option<&str>)
        ensures
            final(self).overlay matches Some(o) && is_text_prompt(
                o,
                "Model for role '"@ + role@ + "'"@,
                "Enter the model pattern (provider/model). Enter saves, Esc cancels."@,
                "model"@,
                Some("provider/model"@),
                match current { Some(c) => c@, None => Seq::empty() },
                false,
            ),
            final(self).secure_input_origin matches Some(SecureInputOrigin::ModelRoleValue { role: r }) && r@ == role@,
            *final(self) == (RenderState {
                overlay: final(self).overlay,
                secure_input_origin: final(self).secure_input_origin,
                ..*old(self)
            }),
    {
        self.secure_input_origin = Some(SecureInputOrigin::ModelRoleValue { role: String::from_str(role) });
        let mut title = String::from_str("Model for role '");
        push_str(&mut title, role);
        push_str(&mut title, "'");
        self.overlay = Some(text_prompt_overlay(
            title,
            String::from_str("Enter the model pattern (provider/model). Enter saves, Esc cancels."),
            "model",
            Some(String::from_str("provider/model")),
            current,
        ));
    }

    /// Consumes the stashed prompt origin for submitted `text` and decides
    /// the follow-up; without an origin there is none.
    pub fn take_secure_submission(&mut self, text: &str) -> (r: Option<SecureFollowUp>)
        ensures
            match old(self).secure_input_origin {
                Some(o) => r matches Some(f) && follow_up_ok(o, text@, f),
                None => r is None,
            },
            *final(self) == (RenderState { secure_input_origin: None, ..*old(self) }),
    {
        match self.secure_input_origin.take() {
            Some(o) => Some(route_secure_submission(o, text)),
            None => None,
        }
    }
}

/// Where a credential action on a provider leads.
#[derive(Debug, Clone, Copy, PartialEq, Eq, Structural)]
pub enum AuthStep {
    /// The masked key prompt opened.
    OpenedKeyPrompt,
    /// The host runs the OAuth flow.
    StartOAuth,
    /// The removal waits for confirmation.
    AskedToRemove,
}

/// `c` asks to confirm removing the key of `provider`.
pub open spec fn is_remove_key_confirmation(c: ModalConfirmation, provider: Seq<char>) -> bool {
    &&& c.title@ == "Remove key for "@ + provider + "?"@
    &&& c.message@ == "  y \u{2014} remove key     n / x \u{2014} cancel"@
    &&& c.action matches ConfirmationAction::RemoveProviderKey(p) && p@ == provider
}

/// What a credential action on `provider` does: setting a key opens the
/// masked prompt, OAuth is left to the host, removal asks to confirm.
pub open spec fn auth_step_ok(old: RenderState, new: RenderState, provider: Seq<char>, action: AuthAction, r: AuthStep) -> bool {
    match action {
        AuthAction::SetApiKey => {
            &&& r == AuthStep::OpenedKeyPrompt
            &&& new.overlay matches Some(o) && is_key_prompt(o, provider)
            &&& new.secure_input_origin matches Some(SecureInputOrigin::SetKey { provider: p }) && p@ == provider
            &&& new == (RenderState { overlay: new.overlay, secure_input_origin: new.secure_input_origin, ..old })
        },
        AuthAction::StartOAuth => r == AuthStep::StartOAuth && new == old,
        AuthAction::RemoveKey => {
            &&& r == AuthStep::AskedToRemove
            &&& new.confirmation matches Some(c) && is_remove_key_confirmation(c, provider)
            &&& new == (RenderState { confirmation: new.confirmation, ..old })
        },
    }
}

/// The menu title of a credential action.
pub open spec fn auth_action_title(a: AuthAction) -> Seq<char> {
    match a {
        AuthAction::SetApiKey => "Set API key"@,
        AuthAction::StartOAuth => "Login with OAuth"@,
        AuthAction::RemoveKey => "Remove key"@,
    }
}

/// `o` is the action menu of `provider` offering `actions`, in order.
pub open spec fn is_action_menu(o: OverlayState, provider: Seq<char>, actions: Seq<AuthAction>) -> bool {
    &&& o.title@ == provider
    &&& o.lines@.len() == 1 && o.lines@[0]@ == "Pick an action"@
    &&& o.items@.len() == actions.len()
    &&& forall|i: int| 0 <= i < actions.len() ==> {
        let it = #[trigger] o.items@[i];
        &&& it.title@ == auth_action_title(actions[i])
        &&& it.subtitle is None && it.badge is None && it.indent == 0 && it.search_value is None
        &&& it.selection matches Some(ListSelection::ProviderAction { provider: p, action }) && p@ == provider && action == actions[i]
    }
    &&& o.selected == 0 && o.search is None && o.secure_input is None && o.key_capture is None
    &&& o.tabs@.len() == 0 && o.active_tab == 0 && o.sections@.len() == 0 && o.active_section == 0
}

impl RenderState {
    /// Runs a credential action on `provider` (see `auth_step_ok`).
    pub fn auth_action(&mut self, provider: &str, action: AuthAction) -> (r: AuthStep)
        ensures
            auth_step_ok(*old(self), *final(self), provider@, action, r),
    {
        match action {
            AuthAction::SetApiKey => {
                self.open_secure_prompt(SecureInputOrigin::SetKey { provider: String::from_str(provider) });
                AuthStep::OpenedKeyPrompt
            },
            AuthAction::StartOAuth => AuthStep::StartOAuth,
            AuthAction::RemoveKey => {
                let mut title = String::from_str("Remove key for ");
                push_str(&mut title, provider);
                push_str(&mut title, "?");
                self.confirmation = Some(ModalConfirmation {
                    title,
                    message: String::from_str("  y \u{2014} remove key     n / x \u{2014} cancel"),
                    action: ConfirmationAction::RemoveProviderKey(String::from_str(provider)),
                });
                AuthStep::AskedToRemove
            },
        }
    }

    /// Offers the credential actions of `provider`: a single action runs at
    /// once (its step is returned), several open a menu of them.
    pub fn provider_actions_menu(&mut self, provider: &str, actions: &Vec<AuthAction>) -> (r: Option<AuthStep>)
        ensures
            actions@.len() == 1 ==> (r matches Some(step) && auth_step_ok(*old(self), *final(self), provider@, actions@[0], step)),
            actions@.len() != 1 ==> r is None && (final(self).overlay matches Some(o) && is_action_menu(o, provider@, actions@))
                && *final(self) == (RenderState { overlay: final(self).overlay, ..*old(self) }),
    {
        if actions.len() == 1 {
            return Some(self.auth_action(provider, actions[0]));
        }
        let mut items: Vec<OverlayListItem> = Vec::new();
        let mut i: usize = 0;
        while i < actions.len()
            invariant
                i <= actions@.len(),
                items@.len() == i,
                forall|k: int| 0 <= k < i ==> {
                    let it = #[trigger] items@[k];
                    &&& it.title@ == auth_action_title(actions@[k])
                    &&& it.subtitle is None && it.badge is None && it.indent == 0 && it.search_value is None
                    &&& it.selection matches Some(ListSelection::ProviderAction { provider: p, action }) && p@ == provider@ && action == actions@[k]
                },
            decreases actions@.len() - i,
        {
            let a = actions[i];
            let title = match a {
                AuthAction::SetApiKey => "Set API key",
                AuthAction::StartOAuth => "Login with OAuth",
                AuthAction::RemoveKey => "Remove key",
            };
            items.push(OverlayListItem {
                title: String::from_str(title),
                subtitle: None,
                badge: None,
                indent: 0,
                search_value: None,
                selection: Some(ListSelection::ProviderAction { provider: String::from_str(provider), action: a }),
            });
            i += 1;
        }
        let mut lines: Vec<String> = Vec::new();
        lines.push(String::from_str("Pick an action"));
        self.overlay = Some(OverlayState {
            title: String::from_str(provider),
            lines,
            items,
            selected: 0,
            search: None,
            secure_input: None,
            tabs: Vec::new(),
            active_tab: 0,
            sections: Vec::new(),
            active_section: 0,
            key_capture: None,
        });
        None
    }
}

} // verus!
