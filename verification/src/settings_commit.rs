//! What the settings editors report once an edit was tried: the transcript
//! lines, the status the reopened panel shows, and which running part of
//! the session must pick the new value up. The host loads and saves the
//! settings file and hands in how that went.
use vstd::prelude::*;

use crate::text::{push_str, str_eq};
use crate::transcript::InlineMessageKind;

verus! {

/// A status of the settings panel: the setting's label, a colon, the text.
pub open spec fn labeled(label: Seq<char>, text: Seq<char>) -> Seq<char> {
    label + ": "@ + text
}

/// The status `<label>: <text>` (see `labeled`).
pub fn labeled_status(label: &str, text: &str) -> (s: String)
    ensures
        s@ == labeled(label@, text@),
{
    let mut s = String::from_str(label);
    push_str(&mut s, ": ");
    push_str(&mut s, text);
    s
}

/// What a committed edit shows: transcript lines in order, and the status
/// of the reopened panel (`None`: the panel is not reopened).
#[derive(Debug, PartialEq, Eq)]
pub struct CommitReport {
    pub lines: Vec<(InlineMessageKind, String)>,
    pub reopen: Option<String>,
}

/// The report of a text edit of the setting `label`. `saved` is the new
/// displayed value when the value parsed and was saved, else the error;
/// `sync_error` is what the live update refused after a save. A saved
/// edit shows the refusal first (an error line), then an info line with
/// the new value, which is also the reopened panel's status; a failed
/// edit shows one error line and leaves the panel as it is.
pub fn text_edit_report(label: &str, saved: Result<String, String>, sync_error: Option<String>) -> (r: CommitReport)
    ensures
        match saved {
            Ok(shown) => {
                &&& r.reopen matches Some(st) && st@ == labeled(label@, shown@)
                &&& match sync_error {
                    Some(e) => r.lines@.len() == 2
                        && r.lines@[0].0 == InlineMessageKind::Error && r.lines@[0].1@ == labeled(label@, e@)
                        && r.lines@[1].0 == InlineMessageKind::Info && r.lines@[1].1@ == labeled(label@, shown@),
                    None => r.lines@.len() == 1
                        && r.lines@[0].0 == InlineMessageKind::Info && r.lines@[0].1@ == labeled(label@, shown@),
                }
            },
            Err(e) => r.reopen is None && r.lines@.len() == 1
                && r.lines@[0].0 == InlineMessageKind::Error && r.lines@[0].1@ == labeled(label@, e@),
        },
{
    let mut lines: Vec<(InlineMessageKind, String)> = Vec::new();
    match saved {
        Ok(shown) => {
            match sync_error {
                Some(e) => {
                    lines.push((InlineMessageKind::Error, labeled_status(label, e.as_str())));
                },
                None => {},
            }
            lines.push((InlineMessageKind::Info, labeled_status(label, shown.as_str())));
            CommitReport { lines, reopen: Some(labeled_status(label, shown.as_str())) }
        },
        Err(e) => {
            lines.push((InlineMessageKind::Error, labeled_status(label, e.as_str())));
            CommitReport { lines, reopen: None }
        },
    }
}

/// After a non-essential tool toggle was saved or not: `line` is the
/// toggle's success line. A save shows it as info and refreshes the tool
/// list; a failed save shows `<label>: failed to save: <error>` and leaves
/// the list as it is.
pub fn tool_toggle_report(label: &str, line: String, saved: Result<(), String>) -> (r: (InlineMessageKind, String, bool))
    ensures
        match saved {
            Ok(()) => r.0 == InlineMessageKind::Info && r.1@ == line@ && r.2,
            Err(e) => r.0 == InlineMessageKind::Error && r.1@ == labeled(label@, "failed to save: "@ + e@) && !r.2,
        },
{
    match saved {
        Ok(()) => (InlineMessageKind::Info, line, true),
        Err(e) => {
            let mut t = String::from_str("failed to save: ");
            push_str(&mut t, e.as_str());
            (InlineMessageKind::Error, labeled_status(label, t.as_str()), false)
        },
    }
}

/// The Model tab's status after deleting the model role `role`. `outcome`
/// is the settings load's error, or whether the role existed and how the
/// save went.
pub open spec fn role_removal(role: Seq<char>, outcome: Result<(bool, Result<(), Seq<char>>), Seq<char>>) -> Seq<char> {
    match outcome {
        Err(e) => "Failed to load settings: "@ + e,
        Ok((existed, Ok(()))) => if existed {
            "Removed model role '"@ + role + "'"@
        } else {
            "Role '"@ + role + "' was already gone"@
        },
        Ok((_, Err(e))) => "Failed to save model roles: "@ + e,
    }
}

/// The status after deleting a model role (see `role_removal`).
pub fn model_role_removal_status(role: &str, outcome: Result<(bool, Result<(), String>), String>) -> (s: String)
    ensures
        s@ == role_removal(role@, match outcome {
            Err(e) => Err(e@),
            Ok((existed, Ok(()))) => Ok((existed, Ok(()))),
            Ok((existed, Err(e))) => Ok((existed, Err(e@))),
        }),
{
    match outcome {
        Err(e) => {
            let mut s = String::from_str("Failed to load settings: ");
            push_str(&mut s, e.as_str());
            s
        },
        Ok((existed, Ok(()))) => {
            if existed {
                let mut s = String::from_str("Removed model role '");
                push_str(&mut s, role);
                push_str(&mut s, "'");
                s
            } else {
                let mut s = String::from_str("Role '");
                push_str(&mut s, role);
                push_str(&mut s, "' was already gone");
                s
            }
        },
        Ok((_, Err(e))) => {
            let mut s = String::from_str("Failed to save model roles: ");
            push_str(&mut s, e.as_str());
            s
        },
    }
}

/// Which running part takes a saved setting up at once.
#[derive(Debug, Clone, Copy, PartialEq, Eq, Structural)]
pub enum LiveSync {
    /// The session's thinking level and the header's copy of it.
    ThinkingLevel,
    /// The render state's glyph set.
    GlyphSet,
    /// The session's auto-compaction switch.
    AutoCompaction,
    /// Turn the session's advisor on (`true`) or off.
    Advisor(bool),
    /// Nothing: the next turn reads the file again.
    Nothing,
}

/// The live update for the saved setting `key`: the advisor is switched
/// only when its saved state differs from the running one.
pub open spec fn live_sync_of(key: Seq<char>, advisor_running: bool, advisor_saved: bool) -> LiveSync {
    if key == "ThinkingLevel"@ {
        LiveSync::ThinkingLevel
    } else if key == "GlyphSet"@ {
        LiveSync::GlyphSet
    } else if key == "AutoCompaction"@ {
        LiveSync::AutoCompaction
    } else if key == "AdvisorEnabled"@ && advisor_running != advisor_saved {
        LiveSync::Advisor(advisor_saved)
    } else {
        LiveSync::Nothing
    }
}

/// The live update for a saved setting (see `live_sync_of`).
pub fn live_sync_action(key: &str, advisor_running: bool, advisor_saved: bool) -> (a: LiveSync)
    ensures
        a == live_sync_of(key@, advisor_running, advisor_saved),
{
    if str_eq(key, "ThinkingLevel") {
        LiveSync::ThinkingLevel
    } else if str_eq(key, "GlyphSet") {
        LiveSync::GlyphSet
    } else if str_eq(key, "AutoCompaction") {
        LiveSync::AutoCompaction
    } else if str_eq(key, "AdvisorEnabled") && advisor_running != advisor_saved {
        LiveSync::Advisor(advisor_saved)
    } else {
        LiveSync::Nothing
    }
}

/// What a refused advisor switch reports: the value is saved, and takes
/// effect after a restart.
pub open spec fn advisor_refusal(enable: bool, e: Seq<char>) -> Seq<char> {
    "failed to "@ + (if enable { "enable"@ } else { "disable"@ }) + " the advisor live: "@ + e
        + " (saved; restart to apply)"@
}

/// The error of a refused advisor switch (see `advisor_refusal`).
pub fn advisor_sync_error(enable: bool, e: &str) -> (s: String)
    ensures
        s@ == advisor_refusal(enable, e@),
{
    let mut s = String::from_str("failed to ");
    push_str(&mut s, if enable { "enable" } else { "disable" });
    push_str(&mut s, " the advisor live: ");
    push_str(&mut s, e);
    push_str(&mut s, " (saved; restart to apply)");
    s
}

} // verus!
