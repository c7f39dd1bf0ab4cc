//! The decisions of a provider's OAuth login: what the transcript is told
//! at each step and what the host does next. The host binds the loopback
//! listener, opens the browser, waits for the callback, exchanges the code
//! and stores the tokens; each outcome comes back here as an event.
use vstd::prelude::*;

use crate::numfmt::{decimal, push_decimal};
use crate::text::push_str;
use crate::transcript::InlineMessageKind;

verus! {

/// The callback wait when the browser opened in front of the user.
pub const BROWSER_CALLBACK_SECS: u64 = 120;
/// The callback wait when the URL has to be opened by hand (elsewhere).
pub const MANUAL_CALLBACK_SECS: u64 = 300;

/// What came of the host's last step of an OAuth login.
#[derive(Debug, Clone, PartialEq, Eq)]
pub enum OAuthEvent {
    /// The loopback listener is bound on `port`.
    ListenerBound { port: u16 },
    /// Binding the loopback listener failed.
    BindFailed { error: String },
    /// The listener's port could not be read.
    PortUnreadable { error: String },
    /// The browser opened the authorization URL.
    BrowserOpened,
    /// No browser could be opened for `url`.
    BrowserFailed { error: String, url: String },
    /// The callback arrived with its code.
    CallbackReceived,
    /// No callback arrived within `after_secs` seconds.
    CallbackTimedOut { after_secs: u64 },
    /// The callback failed otherwise.
    CallbackFailed { error: String },
    /// The code was exchanged for tokens expiring at `expires_at` (Unix
    /// seconds) and granting `scopes`. The tokens themselves stay with the
    /// host.
    TokensReceived { expires_at: i64, scopes: Vec<String> },
    /// The code exchange failed.
    ExchangeFailed { error: String },
    /// The tokens were stored; the access token has `token_chars`
    /// characters.
    TokensStored { token_chars: u64 },
}

/// What the host does next.
#[derive(Debug, Clone, PartialEq, Eq)]
pub enum OAuthAction {
    /// Build the authorization URL for `port` and open the browser.
    OpenBrowser { port: u16 },
    /// Wait for the callback at most this many seconds.
    AwaitCallback { timeout_secs: u64 },
    /// Exchange the code for tokens.
    ExchangeCode,
    /// Store the tokens with this expiry (never negative) and these
    /// scopes (joined by spaces; `None` when there are none).
    StoreTokens { expires_at: u64, scopes: Option<String> },
    /// The login is over.
    Finish,
}

/// The value of an action.
pub enum NextStep {
    OpenBrowser { port: u16 },
    AwaitCallback { timeout_secs: u64 },
    ExchangeCode,
    StoreTokens { expires_at: u64, scopes: Option<Seq<char>> },
    Finish,
}

impl View for OAuthAction {
    type V = NextStep;

    open spec fn view(&self) -> NextStep {
        match self {
            OAuthAction::OpenBrowser { port } => NextStep::OpenBrowser { port: *port },
            OAuthAction::AwaitCallback { timeout_secs } => NextStep::AwaitCallback { timeout_secs: *timeout_secs },
            OAuthAction::ExchangeCode => NextStep::ExchangeCode,
            OAuthAction::StoreTokens { expires_at, scopes } => NextStep::StoreTokens {
                expires_at: *expires_at,
                scopes: match scopes { Some(s) => Some(s@), None => None },
            },
            OAuthAction::Finish => NextStep::Finish,
        }
    }
}

/// `scopes` joined by single spaces.
pub open spec fn joined(scopes: Seq<Seq<char>>) -> Seq<char>
    decreases scopes.len(),
{
    if scopes.len() == 0 {
        Seq::empty()
    } else if scopes.len() == 1 {
        scopes[0]
    } else {
        joined(scopes.drop_last()) + " "@ + scopes.last()
    }
}

/// The scopes stored with the tokens: joined by spaces, none when empty.
pub open spec fn stored_scopes(scopes: Seq<Seq<char>>) -> Option<Seq<char>> {
    if scopes.len() == 0 { None } else { Some(joined(scopes)) }
}

/// The stored expiry: a negative one counts as 0.
pub open spec fn stored_expiry(expires_at: i64) -> u64 {
    if expires_at < 0 { 0 } else { expires_at as u64 }
}

pub open spec fn strings_of(v: Seq<String>) -> Seq<Seq<char>> {
    v.map_values(|s: String| s@)
}

fn join_scopes(scopes: &Vec<String>) -> (out: Option<String>)
    ensures
        match out {
            Some(s) => stored_scopes(strings_of(scopes@)) == Some(s@),
            None => stored_scopes(strings_of(scopes@)) is None,
        },
{
    if scopes.len() == 0 {
        return None;
    }
    let mut s = scopes[0].clone();
    let mut i: usize = 1;
    assert(strings_of(scopes@).take(1) =~= seq![scopes@[0]@]);
    while i < scopes.len()
        invariant
            1 <= i <= scopes@.len(),
            s@ == joined(strings_of(scopes@).take(i as int)),
        decreases scopes@.len() - i,
    {
        push_str(&mut s, " ");
        push_str(&mut s, scopes[i].as_str());
        assert(strings_of(scopes@).take(i + 1).drop_last() =~= strings_of(scopes@).take(i as int));
        i += 1;
    }
    assert(strings_of(scopes@).take(i as int) =~= strings_of(scopes@));
    Some(s)
}

/// One step: the lines to append (kind and text) and the next action.
#[derive(Debug, Clone, PartialEq, Eq)]
pub struct OAuthStep {
    pub lines: Vec<(InlineMessageKind, String)>,
    pub next: OAuthAction,
}

/// The lines and the next action for `e` in the login of `provider`;
/// `redirect_path` is the provider's callback path. Failures report one
/// error line naming the provider and end the login; the browser step
/// picks the callback wait; the tokens are stored with their expiry
/// (never negative) and their scopes joined by spaces (none when empty);
/// a stored token is reported by its length only.
pub open spec fn oauth_step_spec(provider: Seq<char>, redirect_path: Seq<char>, e: OAuthEvent) -> (Seq<(InlineMessageKind, Seq<char>)>, NextStep) {
    let q = "'"@ + provider + "'"@;
    match e {
        OAuthEvent::ListenerBound { port } => (
            seq![(InlineMessageKind::Info, "OAuth: opening browser for "@ + q + " on http://127.0.0.1:"@ + decimal(port as nat) + redirect_path)],
            NextStep::OpenBrowser { port },
        ),
        OAuthEvent::BindFailed { error } => (
            seq![(InlineMessageKind::Error, "OAuth: could not bind loopback listener for "@ + q + ": "@ + error@)],
            NextStep::Finish,
        ),
        OAuthEvent::PortUnreadable { error } => (
            seq![(InlineMessageKind::Error, "OAuth: could not read loopback port for "@ + q + ": "@ + error@)],
            NextStep::Finish,
        ),
        OAuthEvent::BrowserOpened => (Seq::empty(), NextStep::AwaitCallback { timeout_secs: BROWSER_CALLBACK_SECS }),
        OAuthEvent::BrowserFailed { error, url } => (
            seq![(InlineMessageKind::Info, "OAuth: could not open a browser ("@ + error@ + ").\nOpen this URL manually within 5 minutes:\n  "@ + url@)],
            NextStep::AwaitCallback { timeout_secs: MANUAL_CALLBACK_SECS },
        ),
        OAuthEvent::CallbackReceived => (Seq::empty(), NextStep::ExchangeCode),
        OAuthEvent::CallbackTimedOut { after_secs } => (
            seq![(InlineMessageKind::Error, "OAuth: timed out waiting for "@ + q + " callback (after "@ + decimal(after_secs as nat) + "s)"@)],
            NextStep::Finish,
        ),
        OAuthEvent::CallbackFailed { error } => (
            seq![(InlineMessageKind::Error, "OAuth: callback failed for "@ + q + ": "@ + error@)],
            NextStep::Finish,
        ),
        OAuthEvent::TokensReceived { expires_at, scopes } => (Seq::empty(), NextStep::StoreTokens {
            expires_at: stored_expiry(expires_at),
            scopes: stored_scopes(strings_of(scopes@)),
        }),
        OAuthEvent::ExchangeFailed { error } => (
            seq![(InlineMessageKind::Error, "OAuth: token exchange failed for "@ + q + ": "@ + error@)],
            NextStep::Finish,
        ),
        OAuthEvent::TokensStored { token_chars } => (
            seq![(InlineMessageKind::Info, "OAuth: "@ + q + " logged in. Token stored ("@ + decimal(token_chars as nat) + " chars)."@)],
            NextStep::Finish,
        ),
    }
}

/// The views of the step's lines.
pub open spec fn step_lines(v: Seq<(InlineMessageKind, String)>) -> Seq<(InlineMessageKind, Seq<char>)> {
    v.map_values(|l: (InlineMessageKind, String)| (l.0, l.1@))
}

fn quoted_line(head: &str, provider: &str, tail: &str) -> (s: String)
    ensures
        s@ == head@ + "'"@ + provider@ + "'"@ + tail@,
{
    let mut s = String::from_str(head);
    push_str(&mut s, "'");
    push_str(&mut s, provider);
    push_str(&mut s, "'");
    push_str(&mut s, tail);
    s
}

fn one_line(kind: InlineMessageKind, text: String) -> (v: Vec<(InlineMessageKind, String)>)
    ensures
        step_lines(v@) == seq![(kind, text@)],
{
    let mut v: Vec<(InlineMessageKind, String)> = Vec::new();
    v.push((kind, text));
    assert(step_lines(v@) =~= seq![(kind, v@[0].1@)]);
    v
}

/// One step of an OAuth login of `provider` (see `oauth_step_spec`).
pub fn oauth_step(provider: &str, redirect_path: &str, event: OAuthEvent) -> (s: OAuthStep)
    ensures
        (step_lines(s.lines@), s.next@) == oauth_step_spec(provider@, redirect_path@, event),
{
    let ghost e0 = event;
    let none: Vec<(InlineMessageKind, String)> = Vec::new();
    assert(step_lines(none@) =~= Seq::<(InlineMessageKind, Seq<char>)>::empty());
    match event {
        OAuthEvent::ListenerBound { port } => {
            let mut t = quoted_line("OAuth: opening browser for ", provider, " on http://127.0.0.1:");
            push_decimal(&mut t, port as u64);
            push_str(&mut t, redirect_path);
            assert(t@ =~= "OAuth: opening browser for "@ + ("'"@ + provider@ + "'"@) + " on http://127.0.0.1:"@ + decimal(port as nat) + redirect_path@);
            OAuthStep { lines: one_line(InlineMessageKind::Info, t), next: OAuthAction::OpenBrowser { port } }
        },
        OAuthEvent::BindFailed { error } => {
            let mut t = quoted_line("OAuth: could not bind loopback listener for ", provider, ": ");
            push_str(&mut t, error.as_str());
            assert(t@ =~= "OAuth: could not bind loopback listener for "@ + ("'"@ + provider@ + "'"@) + ": "@ + error@);
            OAuthStep { lines: one_line(InlineMessageKind::Error, t), next: OAuthAction::Finish }
        },
        OAuthEvent::PortUnreadable { error } => {
            let mut t = quoted_line("OAuth: could not read loopback port for ", provider, ": ");
            push_str(&mut t, error.as_str());
            assert(t@ =~= "OAuth: could not read loopback port for "@ + ("'"@ + provider@ + "'"@) + ": "@ + error@);
            OAuthStep { lines: one_line(InlineMessageKind::Error, t), next: OAuthAction::Finish }
        },
        OAuthEvent::BrowserOpened => OAuthStep { lines: none, next: OAuthAction::AwaitCallback { timeout_secs: BROWSER_CALLBACK_SECS } },
        OAuthEvent::BrowserFailed { error, url } => {
            let mut t = String::from_str("OAuth: could not open a browser (");
            push_str(&mut t, error.as_str());
            push_str(&mut t, ").\nOpen this URL manually within 5 minutes:\n  ");
            push_str(&mut t, url.as_str());
            OAuthStep { lines: one_line(InlineMessageKind::Info, t), next: OAuthAction::AwaitCallback { timeout_secs: MANUAL_CALLBACK_SECS } }
        },
        OAuthEvent::CallbackReceived => OAuthStep { lines: none, next: OAuthAction::ExchangeCode },
        OAuthEvent::CallbackTimedOut { after_secs } => {
            let mut t = quoted_line("OAuth: timed out waiting for ", provider, " callback (after ");
            push_decimal(&mut t, after_secs);
            push_str(&mut t, "s)");
            assert(t@ =~= "OAuth: timed out waiting for "@ + ("'"@ + provider@ + "'"@) + " callback (after "@ + decimal(after_secs as nat) + "s)"@);
            OAuthStep { lines: one_line(InlineMessageKind::Error, t), next: OAuthAction::Finish }
        },
        OAuthEvent::CallbackFailed { error } => {
            let mut t = quoted_line("OAuth: callback failed for ", provider, ": ");
            push_str(&mut t, error.as_str());
            assert(t@ =~= "OAuth: callback failed for "@ + ("'"@ + provider@ + "'"@) + ": "@ + error@);
            OAuthStep { lines: one_line(InlineMessageKind::Error, t), next: OAuthAction::Finish }
        },
        OAuthEvent::TokensReceived { expires_at, scopes } => {
            let e: u64 = if expires_at < 0 { 0 } else { expires_at as u64 };
            OAuthStep { lines: none, next: OAuthAction::StoreTokens { expires_at: e, scopes: join_scopes(&scopes) } }
        },
        OAuthEvent::ExchangeFailed { error } => {
            let mut t = quoted_line("OAuth: token exchange failed for ", provider, ": ");
            push_str(&mut t, error.as_str());
            assert(t@ =~= "OAuth: token exchange failed for "@ + ("'"@ + provider@ + "'"@) + ": "@ + error@);
            OAuthStep { lines: one_line(InlineMessageKind::Error, t), next: OAuthAction::Finish }
        },
        OAuthEvent::TokensStored { token_chars } => {
            let mut t = quoted_line("OAuth: ", provider, " logged in. Token stored (");
            push_decimal(&mut t, token_chars);
            push_str(&mut t, " chars).");
            assert(t@ =~= "OAuth: "@ + ("'"@ + provider@ + "'"@) + " logged in. Token stored ("@ + decimal(token_chars as nat) + " chars)."@);
            OAuthStep { lines: one_line(InlineMessageKind::Info, t), next: OAuthAction::Finish }
        },
    }
}

} // verus!
