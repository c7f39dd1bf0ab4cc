//! Provider credentials: recognizing missing-key failures, naming the
//! provider of a model id, the `/providers` action matrix, and the memory
//! daemon status chip.
use vstd::prelude::*;

use crate::text::{ascii_lower_seq, chars_of, contains, lower_chars, seq_contains, string_of};

verus! {

/// A provider failure means the credential is absent exactly when its
/// (case-insensitive) message says so. Transport, quota, and invalid-key
/// errors stay errors.
pub open spec fn missing_key_message(message: Seq<char>) -> bool {
    let m = ascii_lower_seq(message);
    seq_contains(m, "missing api key"@) || seq_contains(m, "api key is required"@)
}

/// Whether a provider failure means the active credential is absent.
pub fn is_missing_api_key_error(message: &str) -> (r: bool)
    ensures
        r == missing_key_message(message@),
{
    let raw = chars_of(message);
    let m = lower_chars(raw.as_slice());
    let a = chars_of("missing api key");
    let b = chars_of("api key is required");
    contains(m.as_slice(), a.as_slice()) || contains(m.as_slice(), b.as_slice())
}

/// The characters of `s` before its first `c`, or `None` when `s` holds no `c`.
pub open spec fn before_first(s: Seq<char>, c: char) -> Option<Seq<char>>
    decreases s.len(),
{
    if s.len() == 0 {
        None
    } else if s[0] == c {
        Some(Seq::empty())
    } else {
        match before_first(s.drop_first(), c) {
            Some(p) => Some(seq![s[0]] + p),
            None => None,
        }
    }
}

/// The provider named by a `provider/model` id; a malformed id (no `/`, or
/// an empty provider part) names the placeholder `provider`.
pub open spec fn provider_of(model_id: Seq<char>) -> Seq<char> {
    match before_first(model_id, '/') {
        Some(p) => if p.len() > 0 { p } else { "provider"@ },
        None => "provider"@,
    }
}

pub proof fn lemma_before_first_at(s: Seq<char>, c: char, i: int)
    requires
        0 <= i < s.len(),
        s[i] == c,
        forall|j: int| 0 <= j < i ==> s[j] != c,
    ensures
        before_first(s, c) == Some(s.take(i)),
    decreases i,
{
    if i > 0 {
        lemma_before_first_at(s.drop_first(), c, i - 1);
        assert(seq![s[0]] + s.drop_first().take(i - 1) == s.take(i));
    } else {
        assert(s.take(0) == Seq::<char>::empty());
    }
}

pub proof fn lemma_before_first_absent(s: Seq<char>, c: char)
    requires
        forall|j: int| 0 <= j < s.len() ==> s[j] != c,
    ensures
        before_first(s, c) is None,
    decreases s.len(),
{
    if s.len() > 0 {
        lemma_before_first_absent(s.drop_first(), c);
    }
}

/// The provider part of a `provider/model` id.
pub fn provider_from_model_id(model_id: &str) -> (out: String)
    ensures
        out@ == provider_of(model_id@),
{
    let cs = chars_of(model_id);
    let mut i: usize = 0;
    while i < cs.len()
        invariant
            i <= cs.len(),
            cs@ == model_id@,
            forall|j: int| 0 <= j < i ==> cs@[j] != '/',
        decreases cs.len() - i,
    {
        if cs[i] == '/' {
            proof {
                lemma_before_first_at(cs@, '/', i as int);
            }
            if i == 0 {
                return String::from_str("provider");
            }
            let mut p: Vec<char> = Vec::new();
            let mut k: usize = 0;
            while k < i
                invariant
                    k <= i < cs.len(),
                    p@ == cs@.take(k as int),
                decreases i - k,
            {
                p.push(cs[k]);
                k += 1;
                assert(cs@.take(k as int) == cs@.take((k - 1) as int).push(cs@[k - 1]));
            }
            return string_of(p.as_slice());
        }
        i += 1;
    }
    proof {
        lemma_before_first_absent(cs@, '/');
    }
    String::from_str("provider")
}

/// An action the `/providers` panel can take for a provider.
#[derive(Debug, Clone, Copy, PartialEq, Eq, Structural)]
pub enum AuthAction {
    SetApiKey,
    StartOAuth,
    RemoveKey,
}

/// The action list for a provider, given whether a credential is stored and
/// whether the provider supports the OAuth authorization-code flow.
pub open spec fn provider_actions(has_key: bool, oauth_capable: bool) -> Seq<AuthAction> {
    if has_key && oauth_capable {
        seq![AuthAction::SetApiKey, AuthAction::StartOAuth, AuthAction::RemoveKey]
    } else if has_key {
        seq![AuthAction::SetApiKey, AuthAction::RemoveKey]
    } else if oauth_capable {
        seq![AuthAction::SetApiKey, AuthAction::StartOAuth]
    } else {
        seq![AuthAction::SetApiKey]
    }
}

/// Decide which `/providers` actions apply. A single action skips the menu.
pub fn next_provider_actions(has_key: bool, oauth_capable: bool) -> (v: Vec<AuthAction>)
    ensures
        v@ == provider_actions(has_key, oauth_capable),
{
    let mut v = Vec::new();
    v.push(AuthAction::SetApiKey);
    if oauth_capable {
        v.push(AuthAction::StartOAuth);
    }
    if has_key {
        v.push(AuthAction::RemoveKey);
    }
    v
}

/// Memory-daemon connection state for the status-bar chip.
#[derive(Debug, Clone, Copy, PartialEq, Eq, Structural)]
pub enum BrainChip {
    /// Memory disabled: chip hidden.
    Off,
    /// Enabled but the daemon socket is absent.
    Down,
    /// Socket present but the last ping failed.
    Degraded,
    /// Ping succeeded.
    Healthy,
}

/// The chip's label and whether it reads healthy; `None` hides it.
pub open spec fn chip_of(b: BrainChip) -> Option<(Seq<char>, bool)> {
    match b {
        BrainChip::Off => None,
        BrainChip::Healthy => Some(("brain\u{b7}ok"@, true)),
        _ => Some(("brain\u{b7}down"@, false)),
    }
}

impl BrainChip {
    /// `(label, healthy)` for the status bar; `None` hides the chip.
    pub fn chip_label(self) -> (r: Option<(&'static str, bool)>)
        ensures
            match r {
                None => chip_of(self) is None,
                Some((label, healthy)) => chip_of(self) == Some((label@, healthy)),
            },
            self == BrainChip::Off <==> r is None,
            r matches Some((label, healthy)) ==> {
                &&& healthy == (self == BrainChip::Healthy)
                &&& label@ == (if healthy { "brain\u{b7}ok"@ } else { "brain\u{b7}down"@ })
            },
    {
        match self {
            BrainChip::Off => None,
            BrainChip::Healthy => Some(("brain\u{b7}ok", true)),
            BrainChip::Degraded | BrainChip::Down => Some(("brain\u{b7}down", false)),
        }
    }
}

} // verus!
