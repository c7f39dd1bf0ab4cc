//! Terminal desktop-notification protocols and OSC 8 hyperlinks.
//!
//! Different terminals accept desktop notifications through different OSC
//! escape sequences. This module picks the best one the host terminal
//! supports from its environment signals and builds the escape sequences,
//! including the tmux passthrough framing.
use vstd::prelude::*;

use crate::text::{ascii_lower_seq, chars_of, contains, lower_chars, push_str, seq_contains};

verus! {

/// The notification protocol a terminal understands.
#[derive(Clone, Copy, Debug, PartialEq, Eq, Structural)]
pub enum NotificationProtocol {
    /// iTerm2 / WezTerm / Warp: `OSC 9`.
    Osc9,
    /// Kitty / Ghostty: `OSC 99`.
    Osc99,
    /// rxvt / foot / VTE: `OSC 777`.
    Osc777,
    /// Plain bell: every terminal, but no rich notification.
    Bel,
    /// Notifications disabled.
    Disabled,
}

/// The protocol chosen for the (already lowercased) `TERM_PROGRAM` value
/// `tp`, `TERM` value `term`, and whether the session runs inside tmux.
pub open spec fn protocol_for_lowered(tp: Seq<char>, term: Seq<char>, in_tmux: bool) -> NotificationProtocol {
    if seq_contains(tp, "wezterm"@) || seq_contains(tp, "warp"@) || seq_contains(tp, "iterm"@) {
        NotificationProtocol::Osc9
    } else if seq_contains(tp, "ghostty"@) || seq_contains(tp, "kitty"@) {
        NotificationProtocol::Osc99
    } else if seq_contains(term, "rxvt"@) || seq_contains(tp, "foot"@) || seq_contains(tp, "tmux"@) {
        NotificationProtocol::Osc777
    } else if in_tmux {
        NotificationProtocol::Osc777
    } else {
        NotificationProtocol::Bel
    }
}

/// The protocol chosen for raw environment signals: matching is ASCII
/// case-insensitive.
pub open spec fn protocol_for(term_program: Seq<char>, term: Seq<char>, in_tmux: bool) -> NotificationProtocol {
    protocol_for_lowered(ascii_lower_seq(term_program), ascii_lower_seq(term), in_tmux)
}

/// Whether the lowercased `hay` contains the literal `needle`.
fn has(hay: &[char], needle: &str) -> (r: bool)
    ensures
        r == seq_contains(hay@, needle@),
{
    let n = chars_of(needle);
    contains(hay, n.as_slice())
}

/// Decide the best protocol from environment signals (`TERM_PROGRAM`,
/// `TERM`, and whether `TMUX` is set). Pure: no environment access.
pub fn detect_protocol_from(term_program: &str, term: &str, in_tmux: bool) -> (p: NotificationProtocol)
    ensures
        p == protocol_for(term_program@, term@, in_tmux),
{
    let tp_raw = chars_of(term_program);
    let term_raw = chars_of(term);
    let tp = lower_chars(tp_raw.as_slice());
    let t = lower_chars(term_raw.as_slice());
    let tp = tp.as_slice();
    let t = t.as_slice();
    if has(tp, "wezterm") || has(tp, "warp") || has(tp, "iterm") {
        NotificationProtocol::Osc9
    } else if has(tp, "ghostty") || has(tp, "kitty") {
        NotificationProtocol::Osc99
    } else if has(t, "rxvt") || has(tp, "foot") || has(tp, "tmux") {
        // tmux itself doesn't render notifications; the inner terminal does,
        // but detecting it through tmux is fragile: OSC 777 is honored by
        // several VTE-based terminals.
        NotificationProtocol::Osc777
    } else if in_tmux {
        NotificationProtocol::Osc777
    } else {
        NotificationProtocol::Bel
    }
}

/// `s` with every `ESC` doubled, as tmux passthrough requires.
pub open spec fn double_esc(s: Seq<char>) -> Seq<char>
    decreases s.len(),
{
    if s.len() == 0 {
        Seq::empty()
    } else {
        let piece = if s.last() == '\x1b' {
            seq!['\x1b', '\x1b']
        } else {
            seq![s.last()]
        };
        double_esc(s.drop_last()) + piece
    }
}

/// The tmux passthrough framing of `seq`: `DCS tmux ; <seq, ESC doubled> ST`.
pub open spec fn tmux_wrapped(seq: Seq<char>) -> Seq<char> {
    "\x1bPtmux;"@ + double_esc(seq) + "\x1b\\"@
}

/// Wrap an escape sequence for tmux passthrough: every `ESC` (0x1b) is
/// doubled and the whole thing is framed with `DCS tmux ; … ST`.
pub fn tmux_wrap(seq: &str) -> (out: String)
    ensures
        out@ == tmux_wrapped(seq@),
{
    let cs = chars_of(seq);
    let mut out = String::from_str("\x1bPtmux;");
    let ghost start = out@;
    let mut i: usize = 0;
    while i < cs.len()
        invariant
            i <= cs.len(),
            cs@ == seq@,
            start == "\x1bPtmux;"@,
            out@ == start + double_esc(cs@.take(i as int)),
        decreases cs.len() - i,
    {
        let c = cs[i];
        proof {
            assert(cs@.take(i + 1).drop_last() == cs@.take(i as int));
            assert(cs@.take(i + 1).last() == c);
        }
        if c == '\x1b' {
            push_str(&mut out, "\x1b\x1b");
            proof {
                reveal_strlit("\x1b\x1b");
                assert("\x1b\x1b"@ == seq!['\x1b', '\x1b']);
            }
        } else {
            crate::text::push_char(&mut out, c);
        }
        proof {
            assert(out@ == start + double_esc(cs@.take(i + 1)));
        }
        i += 1;
    }
    assert(cs@.take(cs.len() as int) == cs@);
    push_str(&mut out, "\x1b\\");
    out
}

/// The escape sequence for `protocol` carrying `title` and `message`.
pub open spec fn sequence_for(protocol: NotificationProtocol, title: Seq<char>, message: Seq<char>) -> Seq<char> {
    match protocol {
        NotificationProtocol::Osc9 => "\x1b]9;"@ + message + "\x07"@,
        NotificationProtocol::Osc99 => "\x1b]99;i=oxicode;"@ + message + "\x07"@,
        NotificationProtocol::Osc777 => "\x1b]777;notify;"@ + title + ";"@ + message + "\x07"@,
        NotificationProtocol::Bel => "\x07"@,
        NotificationProtocol::Disabled => Seq::empty(),
    }
}

/// Build the raw escape sequence for `protocol` carrying `title`/`message`.
pub fn render_sequence(protocol: NotificationProtocol, title: &str, message: &str) -> (out: String)
    ensures
        out@ == sequence_for(protocol, title@, message@),
{
    match protocol {
        NotificationProtocol::Osc9 => {
            let mut s = String::from_str("\x1b]9;");
            push_str(&mut s, message);
            push_str(&mut s, "\x07");
            s
        },
        NotificationProtocol::Osc99 => {
            let mut s = String::from_str("\x1b]99;i=oxicode;");
            push_str(&mut s, message);
            push_str(&mut s, "\x07");
            s
        },
        NotificationProtocol::Osc777 => {
            let mut s = String::from_str("\x1b]777;notify;");
            push_str(&mut s, title);
            push_str(&mut s, ";");
            push_str(&mut s, message);
            push_str(&mut s, "\x07");
            s
        },
        NotificationProtocol::Bel => String::from_str("\x07"),
        NotificationProtocol::Disabled => String::new(),
    }
}

/// What a notification writes to the terminal: nothing when notifications
/// are disabled; else the protocol's sequence, framed for tmux passthrough
/// when running inside tmux.
pub open spec fn notification_text(protocol: NotificationProtocol, in_tmux: bool, title: Seq<char>, message: Seq<char>) -> Option<Seq<char>> {
    if protocol == NotificationProtocol::Disabled {
        None
    } else if in_tmux {
        Some(tmux_wrapped(sequence_for(protocol, title, message)))
    } else {
        Some(sequence_for(protocol, title, message))
    }
}

/// The bytes a desktop notification writes (see `notification_text`);
/// `None` when nothing is written.
pub fn notification_bytes(protocol: NotificationProtocol, in_tmux: bool, title: &str, message: &str) -> (out: Option<String>)
    ensures
        match out {
            Some(t) => notification_text(protocol, in_tmux, title@, message@) == Some(t@),
            None => notification_text(protocol, in_tmux, title@, message@) is None,
        },
{
    if protocol == NotificationProtocol::Disabled {
        return None;
    }
    let seq = render_sequence(protocol, title, message);
    if in_tmux {
        Some(tmux_wrap(seq.as_str()))
    } else {
        Some(seq)
    }
}

/// The OSC 8 hyperlink wrapping `text` and pointing to `url`.
pub open spec fn hyperlink(url: Seq<char>, text: Seq<char>) -> Seq<char> {
    "\x1b]8;;"@ + url + "\x1b\\"@ + text + "\x1b]8;;\x1b\\"@
}

/// Wrap `text` in an OSC 8 hyperlink escape pointing to `url`:
/// `ESC ] 8 ; ; <url> ESC \ <text> ESC ] 8 ; ; ESC \`. Terminals that do not
/// understand OSC 8 render the inner `text` as-is.
pub fn osc8_hyperlink(url: &str, text: &str) -> (out: String)
    ensures
        out@ == hyperlink(url@, text@),
{
    let mut s = String::from_str("\x1b]8;;");
    push_str(&mut s, url);
    push_str(&mut s, "\x1b\\");
    push_str(&mut s, text);
    push_str(&mut s, "\x1b]8;;\x1b\\");
    s
}

/// The `file://` URL of `path`: an absolute path is appended to `file://`,
/// a relative one gets a `/` in front of it.
pub open spec fn file_url(path: Seq<char>) -> Seq<char> {
    if path.len() > 0 && path[0] == '/' {
        "file://"@ + path
    } else {
        "file:///"@ + path
    }
}

/// Wrap a local file path as a `file://` OSC 8 hyperlink.
pub fn osc8_file_link(path: &str, text: &str) -> (out: String)
    ensures
        out@ == hyperlink(file_url(path@), text@),
{
    let cs = chars_of(path);
    let mut url = if cs.len() > 0 && cs[0] == '/' {
        String::from_str("file://")
    } else {
        String::from_str("file:///")
    };
    push_str(&mut url, path);
    osc8_hyperlink(url.as_str(), text)
}

} // verus!
