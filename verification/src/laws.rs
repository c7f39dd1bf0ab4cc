//! Properties that span several operations of the front end.
use vstd::prelude::*;

use crate::agent_events::{handled, AgentEvent, EffectView, ToolPalette};
use crate::composer_keys::{wrap_down, wrap_up};
use crate::controls::history_with;
use crate::render_state::{RunState, cycle_ok, cycled_map, next_mode, seen_count, tip_shown, BlockDisplayMode, RenderState, SEEN_CAP};
use crate::slash::{alias_suffix, builtin_items, command_matches, label_of, file_items, popup_items, shadowed, strs_view, FileCommand, SlashCommand};
use crate::notifications::{protocol_for, NotificationProtocol};
use crate::provider::missing_key_message;
use crate::setting_defs::cycled;
use crate::tool_output::{preview_of, MAX_PREVIEW_CHARS};
use crate::text::{ascii_lower, ascii_lower_seq, byte_len, is_boundary, is_floor_boundary, occurs_at};

verus! {

/// Cycling a block's display mode three times brings it back:
/// Collapsed, Truncated, Expanded, and round again.
pub proof fn lemma_cycle_three_times(m: BlockDisplayMode)
    ensures
        next_mode(next_mode(next_mode(m))) == m,
        next_mode(m) != m,
{
}

/// Cycling the block in view three times in a row gives back the state
/// before the first cycle, override map included, as long as that map does
/// not hold an explicit Expanded entry for the block (the cycle itself
/// never stores one).
pub proof fn lemma_cycle_view_three_times(s0: RenderState, s1: RenderState, s2: RenderState, s3: RenderState)
    requires
        cycle_ok(s0, s1),
        cycle_ok(s1, s2),
        cycle_ok(s2, s3),
        s0.view_offset() < s0.lines().len() ==> {
            let bid = s0.lines()[s0.view_offset()].block_id;
            !(s0.block_display@.contains_key(bid) && s0.block_display@[bid] == BlockDisplayMode::Expanded)
        },
    ensures
        s3.block_display@ == s0.block_display@,
        s3 == (RenderState { block_display: s3.block_display, ..s0 }),
{
    assert(s1.lines() == s0.lines());
    assert(s2.lines() == s0.lines());
    assert(s1.view_offset() == s0.view_offset());
    assert(s2.view_offset() == s0.view_offset());
    if s0.view_offset() < s0.lines().len() {
        let bid = s0.lines()[s0.view_offset()].block_id;
        let m0 = s0.block_display@;
        let k0 = s0.mode_of(bid);
        let k1 = s1.mode_of(bid);
        let k2 = s2.mode_of(bid);
        assert(k1 == next_mode(k0));
        assert(k2 == next_mode(k1));
        assert(s3.block_display@ =~= m0);
    } else {
        assert(s3.block_display@ =~= s0.block_display@);
    }
}

/// The run tracker's counters (turns, tool calls), when a run is live.
pub open spec fn run_counts(r: Option<RunState>) -> Option<(int, int)> {
    match r {
        Some(r) => Some((r.turn as int, r.tool_calls as int)),
        None => None,
    }
}

/// One event's effect on the run tracker: a run starts with no turn and no
/// tool call; a message start counts a turn and a tool start a tool call
/// while a run is live; the agent's end, an error or a cancel end the run;
/// every other event leaves it.
pub open spec fn run_step(run: Option<(int, int)>, e: AgentEvent) -> Option<(int, int)> {
    match e {
        AgentEvent::AgentStart => Some((0, 0)),
        AgentEvent::MessageStart => match run {
            Some((t, c)) => Some((t + 1, c)),
            None => None,
        },
        AgentEvent::ToolExecutionStart { .. } => match run {
            Some((t, c)) => Some((t, c + 1)),
            None => None,
        },
        AgentEvent::AgentEnd | AgentEvent::Error { .. } | AgentEvent::Cancelled => None,
        _ => run,
    }
}

/// The run tracker after the events `evs`, in order.
pub open spec fn run_after(run: Option<(int, int)>, evs: Seq<AgentEvent>) -> Option<(int, int)>
    decreases evs.len(),
{
    if evs.len() == 0 { run } else { run_step(run_after(run, evs.drop_last()), evs.last()) }
}

/// One handled agent event moves the run tracker by `run_step`; the end of
/// a run also clears the reasoning stage.
pub proof fn lemma_run_step(old: RenderState, new: RenderState, e: AgentEvent, pal: ToolPalette, content_w: usize, fx: Seq<EffectView>)
    requires
        handled(old, new, e, pal, content_w, fx),
    ensures
        run_counts(new.active_run) == run_step(run_counts(old.active_run), e),
        (e is AgentEnd || e is Error || e is Cancelled) ==> new.reasoning_stage is None,
{
}

/// The run tracker spans a whole agent loop: over any sequence of handled
/// agent events (state `ss[i]` becomes `ss[i + 1]` by event `evs[i]`), the
/// tracker ends as `run_after` says: started fresh by the agent's start,
/// counting every message start as a turn and every tool start as a tool
/// call, ended by the agent's end, an error or a cancel.
pub proof fn lemma_run_tracker(ss: Seq<RenderState>, evs: Seq<AgentEvent>, fxs: Seq<Seq<EffectView>>, pal: ToolPalette, content_w: usize)
    requires
        ss.len() == evs.len() + 1,
        fxs.len() == evs.len(),
        forall|i: int| 0 <= i < evs.len() ==> handled(#[trigger] ss[i], ss[i + 1], evs[i], pal, content_w, fxs[i]),
    ensures
        run_counts(ss.last().active_run) == run_after(run_counts(ss[0].active_run), evs),
    decreases evs.len(),
{
    if evs.len() > 0 {
        let n = evs.len() - 1;
        assert forall|i: int| 0 <= i < evs.drop_last().len() implies handled(#[trigger] ss.drop_last()[i], ss.drop_last()[i + 1], evs.drop_last()[i], pal, content_w, fxs.drop_last()[i]) by {
            assert(handled(ss[i], ss[i + 1], evs[i], pal, content_w, fxs[i]));
        }
        lemma_run_tracker(ss.drop_last(), evs.drop_last(), fxs.drop_last(), pal, content_w);
        assert(handled(ss[n], ss[n + 1], evs[n], pal, content_w, fxs[n]));
        lemma_run_step(ss[n], ss[n + 1], evs[n], pal, content_w, fxs[n]);
    }
}

/// ASCII uppercase of one character; every other character is unchanged.
pub open spec fn ascii_upper(c: char) -> char {
    if 'a' <= c && c <= 'z' { ((c as u32) - 32) as char } else { c }
}

/// ASCII uppercase of a whole character sequence.
pub open spec fn ascii_upper_seq(s: Seq<char>) -> Seq<char> {
    s.map_values(|c: char| ascii_upper(c))
}

proof fn lemma_lower_of_upper(c: char)
    ensures
        ascii_lower(ascii_upper(c)) == ascii_lower(c),
{
    if 'a' <= c && c <= 'z' {
        let u = ((c as u32) - 32) as char;
        assert(u as u32 == (c as u32) - 32);
        assert('A' <= u && u <= 'Z');
        assert(((u as u32) + 32) as char == c);
    }
}

/// The ASCII case of the terminal names never changes the chosen
/// notification protocol: names that differ only in ASCII case (such as a
/// name and its ASCII uppercase) choose the same protocol.
pub proof fn lemma_protocol_ignores_ascii_case(tp: Seq<char>, tp2: Seq<char>, term: Seq<char>, term2: Seq<char>, in_tmux: bool)
    requires
        ascii_lower_seq(tp) == ascii_lower_seq(tp2),
        ascii_lower_seq(term) == ascii_lower_seq(term2),
    ensures
        protocol_for(tp, term, in_tmux) == protocol_for(tp2, term2, in_tmux),
{
}

/// Upper-casing the ASCII letters of the terminal names keeps the chosen
/// notification protocol.
pub proof fn lemma_protocol_of_uppercase(tp: Seq<char>, term: Seq<char>, in_tmux: bool)
    ensures
        protocol_for(ascii_upper_seq(tp), ascii_upper_seq(term), in_tmux) == protocol_for(tp, term, in_tmux),
{
    assert forall|i: int| 0 <= i < tp.len() implies #[trigger] ascii_lower_seq(ascii_upper_seq(tp))[i] == ascii_lower_seq(tp)[i] by {
        lemma_lower_of_upper(tp[i]);
    }
    assert forall|i: int| 0 <= i < term.len() implies #[trigger] ascii_lower_seq(ascii_upper_seq(term))[i] == ascii_lower_seq(term)[i] by {
        lemma_lower_of_upper(term[i]);
    }
    assert(ascii_lower_seq(ascii_upper_seq(tp)) =~= ascii_lower_seq(tp));
    assert(ascii_lower_seq(ascii_upper_seq(term)) =~= ascii_lower_seq(term));
    lemma_protocol_ignores_ascii_case(ascii_upper_seq(tp), tp, ascii_upper_seq(term), term, in_tmux);
}

/// Stepping to the next search match and back to the previous one returns
/// to the same match, and the other way round.
pub proof fn lemma_search_round_trip(current: int, n: int)
    requires
        0 <= current < n,
    ensures
        ({
            let next = (current + 1) % n;
            let prev_of_next = if next == 0 { n - 1 } else { next - 1 };
            prev_of_next == current
        }),
        ({
            let prev = if current == 0 { n - 1 } else { current - 1 };
            (prev + 1) % n == current
        }),
{
    if current + 1 < n {
        vstd::arithmetic::div_mod::lemma_small_mod((current + 1) as nat, n as nat);
    } else {
        vstd::arithmetic::div_mod::lemma_mod_self_0(n);
    }
    if current == 0 {
        vstd::arithmetic::div_mod::lemma_mod_self_0(n);
    } else {
        vstd::arithmetic::div_mod::lemma_small_mod(current as nat, n as nat);
    }
}

/// Moving a list selection up and then down (or down then up) returns to
/// the same entry.
pub proof fn lemma_selection_round_trip(sel: usize, len: usize)
    requires
        sel < len,
    ensures
        wrap_down(wrap_up(sel, len), len) == sel,
        wrap_up(wrap_down(sel, len), len) == sel,
{
}

/// No tip is ever shown more than `SEEN_CAP` times: showing a tip keeps
/// every counter within the cap.
pub proof fn lemma_tip_cap_kept(
    old: RenderState,
    new: RenderState,
    key: &'static str,
    text: Seq<char>,
    ttl: u64,
    ambient: bool,
    now_tick: u64,
    k: Seq<char>,
)
    requires
        tip_shown(old, new, key, text, ttl, ambient, now_tick),
        seen_count(old.seen_tips@, k) <= SEEN_CAP,
    ensures
        seen_count(new.seen_tips@, k) <= SEEN_CAP,
{
}

/// The prompt history never holds more than 100 entries, and the newest
/// submission comes first.
pub proof fn lemma_history_capped(h: Seq<String>, b: String)
    requires
        h.len() <= 100,
    ensures
        history_with(h, b).len() <= 100,
        history_with(h, b)[0] == b,
{
}

/// The typewriter never goes backwards and never passes the end: from a
/// reveal point on a character boundary, the next one is at or after it.
pub proof fn lemma_reveal_monotone(s: Seq<char>, reveal: usize, target: usize, r: usize)
    requires
        reveal < byte_len(s),
        reveal <= target,
        is_boundary(s, reveal as int),
        is_floor_boundary(s, target, r),
    ensures
        reveal <= r <= byte_len(s),
{
    if target < byte_len(s) {
        if r < reveal {
            assert(r < reveal <= target);
            assert(!is_boundary(s, reveal as int));
        }
    }
}

/// With no command typed, the popup lists every built-in command, in
/// order.
pub proof fn lemma_empty_token_lists_builtins(cmds: Seq<SlashCommand>, n: int)
    requires
        0 <= n <= cmds.len(),
    ensures
        builtin_items(Seq::empty(), cmds, n).len() == n,
        forall|i: int| 0 <= i < n ==> (#[trigger] builtin_items(Seq::empty(), cmds, n)[i]).2 == cmds[i].name@,
    decreases n,
{
    if n > 0 {
        lemma_empty_token_lists_builtins(cmds, n - 1);
        let prev = builtin_items(Seq::empty(), cmds, n - 1);
        assert forall|i: int| 0 <= i < n implies (#[trigger] builtin_items(Seq::empty(), cmds, n)[i]).2 == cmds[i].name@ by {
            if i < n - 1 {
                assert(builtin_items(Seq::empty(), cmds, n)[i] == prev[i]);
            }
        }
    }
}

/// A file command never appears in the popup when a built-in shares its
/// name or one of its aliases: every file entry is an unshadowed file
/// command.
pub proof fn lemma_file_items_unshadowed(token: Seq<char>, cmds: Seq<SlashCommand>, fcs: Seq<FileCommand>, n: int)
    requires
        0 <= n <= fcs.len(),
    ensures
        forall|i: int| 0 <= i < file_items(token, cmds, fcs, n).len() ==> exists|j: int| 0 <= j < n
            && !shadowed(#[trigger] fcs[j], cmds) && fcs[j].name@ == (#[trigger] file_items(token, cmds, fcs, n)[i]).2,
    decreases n,
{
    if n > 0 {
        lemma_file_items_unshadowed(token, cmds, fcs, n - 1);
        let prev = file_items(token, cmds, fcs, n - 1);
        let cur = file_items(token, cmds, fcs, n);
        assert forall|i: int| 0 <= i < cur.len() implies exists|j: int| 0 <= j < n
            && !shadowed(#[trigger] fcs[j], cmds) && fcs[j].name@ == (#[trigger] cur[i]).2 by {
            if i < prev.len() {
                assert(cur[i] == prev[i]);
                let j = choose|j: int| 0 <= j < n - 1 && !shadowed(#[trigger] fcs[j], cmds) && fcs[j].name@ == (#[trigger] prev[i]).2;
                assert(0 <= j < n && !shadowed(fcs[j], cmds) && fcs[j].name@ == cur[i].2);
            } else {
                assert(!shadowed(fcs[n - 1], cmds));
                assert(fcs[n - 1].name@ == cur[i].2);
            }
        }
    }
}


/// Among the built-ins `cmds[..n]`, one that matches the token is listed
/// under its name.
proof fn lemma_matching_builtin_listed(token: Seq<char>, cmds: Seq<SlashCommand>, n: int, j: int)
    requires
        0 <= j < n <= cmds.len(),
        command_matches(token, cmds[j].name@, strs_view(cmds[j].aliases@)),
    ensures
        exists|i: int| 0 <= i < builtin_items(token, cmds, n).len() && (#[trigger] builtin_items(token, cmds, n)[i]).2 == cmds[j].name@,
    decreases n,
{
    let cur = builtin_items(token, cmds, n);
    if j == n - 1 {
        assert(cur[cur.len() - 1].2 == cmds[j].name@);
    } else {
        lemma_matching_builtin_listed(token, cmds, n - 1, j);
        let prev = builtin_items(token, cmds, n - 1);
        let i = choose|i: int| 0 <= i < prev.len() && (#[trigger] prev[i]).2 == cmds[j].name@;
        assert(cur[i] == prev[i]);
    }
}

/// A built-in command is offered whenever the typed token prefixes its
/// name or any of its aliases: typing `/ex` offers `quit` when `exit` is
/// one of its aliases.
pub proof fn lemma_prefix_of_name_or_alias_lists_builtin(token: Seq<char>, cmds: Seq<SlashCommand>, fcs: Seq<FileCommand>, j: int, word: Seq<char>)
    requires
        0 <= j < cmds.len(),
        word == cmds[j].name@ || exists|k: int| 0 <= k < cmds[j].aliases@.len() && word == (#[trigger] cmds[j].aliases@[k])@,
        token.len() <= word.len(),
        word.subrange(0, token.len() as int) == token,
    ensures
        exists|i: int| 0 <= i < popup_items(token, cmds, fcs).len() && (#[trigger] popup_items(token, cmds, fcs)[i]).2 == cmds[j].name@,
{
    let al = strs_view(cmds[j].aliases@);
    if word != cmds[j].name@ {
        let k = choose|k: int| 0 <= k < cmds[j].aliases@.len() && word == (#[trigger] cmds[j].aliases@[k])@;
        assert(al[k] == word);
    }
    assert(command_matches(token, cmds[j].name@, al));
    lemma_matching_builtin_listed(token, cmds, cmds.len() as int, j);
    let b = builtin_items(token, cmds, cmds.len() as int);
    let i = choose|i: int| 0 <= i < b.len() && (#[trigger] b[i]).2 == cmds[j].name@;
    assert(popup_items(token, cmds, fcs)[i] == b[i]);
}

/// Every built-in entry of the popup is a command whose name or one of
/// whose aliases the token prefixes (an empty token prefixes everything).
pub proof fn lemma_listed_builtin_matches(token: Seq<char>, cmds: Seq<SlashCommand>, n: int)
    requires
        0 <= n <= cmds.len(),
    ensures
        forall|i: int| 0 <= i < builtin_items(token, cmds, n).len() ==> exists|j: int| 0 <= j < n
            && (#[trigger] builtin_items(token, cmds, n)[i]).2 == (#[trigger] cmds[j]).name@
            && builtin_items(token, cmds, n)[i].0 == label_of(cmds[j].name@, strs_view(cmds[j].aliases@))
            && builtin_items(token, cmds, n)[i].1 == cmds[j].description@
            && (token.len() == 0
                || (token.len() <= cmds[j].name@.len() && cmds[j].name@.subrange(0, token.len() as int) == token)
                || exists|k: int| 0 <= k < cmds[j].aliases@.len() && token.len() <= (#[trigger] cmds[j].aliases@[k])@.len()
                    && cmds[j].aliases@[k]@.subrange(0, token.len() as int) == token),
    decreases n,
{
    if n > 0 {
        lemma_listed_builtin_matches(token, cmds, n - 1);
        let prev = builtin_items(token, cmds, n - 1);
        let cur = builtin_items(token, cmds, n);
        let c = cmds[n - 1];
        assert forall|i: int| 0 <= i < cur.len() implies exists|j: int| 0 <= j < n
            && (#[trigger] cur[i]).2 == (#[trigger] cmds[j]).name@
            && cur[i].0 == label_of(cmds[j].name@, strs_view(cmds[j].aliases@))
            && cur[i].1 == cmds[j].description@
            && (token.len() == 0
                || (token.len() <= cmds[j].name@.len() && cmds[j].name@.subrange(0, token.len() as int) == token)
                || exists|k: int| 0 <= k < cmds[j].aliases@.len() && token.len() <= (#[trigger] cmds[j].aliases@[k])@.len()
                    && cmds[j].aliases@[k]@.subrange(0, token.len() as int) == token) by {
            if i < prev.len() {
                assert(cur[i] == prev[i]);
            } else {
                let al = strs_view(c.aliases@);
                if token.len() != 0 && !(token.len() <= c.name@.len() && c.name@.subrange(0, token.len() as int) == token) {
                    let k = choose|k: int| 0 <= k < al.len() && crate::text::seq_starts_with(#[trigger] al[k], token);
                    assert(al[k] == c.aliases@[k]@);
                }
                assert(cmds[n - 1] == c);
            }
        }
    }
}

/// Terminals known to render OSC 9 notifications get OSC 9: whenever the
/// ASCII-lowercased `TERM_PROGRAM` holds `wezterm`, `warp` or `iterm`
/// anywhere, whatever else it holds and whatever `TERM` and tmux say.
pub proof fn lemma_osc9_terminals(term_program: Seq<char>, term: Seq<char>, in_tmux: bool, name: Seq<char>, at: int)
    requires
        name == "wezterm"@ || name == "warp"@ || name == "iterm"@,
        0 <= at && at + name.len() <= term_program.len(),
        ascii_lower_seq(term_program).subrange(at, at + name.len()) == name,
    ensures
        protocol_for(term_program, term, in_tmux) == NotificationProtocol::Osc9,
{
    assert(occurs_at(ascii_lower_seq(term_program), name, at));
}

/// The thinking level steps through off, minimal, low, medium, high,
/// xhigh and round again: the level at position `i` is followed by the
/// one at `(i + 1) mod 6`; a value that is no level counts as the first.
pub proof fn lemma_thinking_level_cycle(i: int, current: Seq<char>)
    requires
        0 <= i < 6,
    ensures
        ({
            let levels = seq!["off"@, "minimal"@, "low"@, "medium"@, "high"@, "xhigh"@];
            &&& cycled("ThinkingLevel"@, levels[i]) == Some(levels[(i + 1) % 6])
            &&& (forall|j: int| 0 <= j < 6 ==> current != #[trigger] levels[j])
                ==> cycled("ThinkingLevel"@, current) == Some(levels[1])
        }),
{
    reveal_strlit("off");
    reveal_strlit("minimal");
    reveal_strlit("low");
    reveal_strlit("medium");
    reveal_strlit("high");
    reveal_strlit("xhigh");
    let levels = seq!["off"@, "minimal"@, "low"@, "medium"@, "high"@, "xhigh"@];
    assert("off"@.len() == 3 && "minimal"@.len() == 7 && "low"@.len() == 3);
    assert("medium"@.len() == 6 && "high"@.len() == 4 && "xhigh"@.len() == 5);
    assert("off"@[0] != "low"@[0]);
    assert(levels[0] != levels[1] && levels[0] != levels[2] && levels[0] != levels[3] && levels[0] != levels[4] && levels[0] != levels[5]);
    assert(levels[1] != levels[2] && levels[1] != levels[3] && levels[1] != levels[4] && levels[1] != levels[5]);
    assert(levels[2] != levels[3] && levels[2] != levels[4] && levels[2] != levels[5]);
    assert(levels[3] != levels[4] && levels[3] != levels[5]);
    assert(levels[4] != levels[5]);
    if forall|j: int| 0 <= j < 6 ==> current != #[trigger] levels[j] {
        assert(current != levels[0] && current != levels[1] && current != levels[2]);
        assert(current != levels[3] && current != levels[4] && current != levels[5]);
    }
}

/// A tool result of at most 500 characters is shown whole; a longer one
/// shows exactly its first 500 characters followed by one ellipsis.
pub proof fn lemma_preview_is_head(content: Seq<char>)
    ensures
        content.len() <= 500 ==> preview_of(content) == content,
        content.len() > 500 ==> {
            let p = preview_of(content);
            &&& p.len() == 501
            &&& p[500] == '\u{2026}'
            &&& forall|k: int| 0 <= k < 500 ==> p[k] == content[k]
        },
{
    assert(MAX_PREVIEW_CHARS == 500);
}

/// A provider failure whose ASCII-lowercased message holds
/// `missing api key` or `api key is required` anywhere means the key is
/// missing; one that holds neither does not.
pub proof fn lemma_missing_key_phrases(message: Seq<char>, phrase: Seq<char>, at: int)
    ensures
        (phrase == "missing api key"@ || phrase == "api key is required"@)
            && 0 <= at && at + phrase.len() <= message.len()
            && ascii_lower_seq(message).subrange(at, at + phrase.len()) == phrase
            ==> missing_key_message(message),
        (forall|i: int| !occurs_at(ascii_lower_seq(message), "missing api key"@, i))
            && (forall|i: int| !occurs_at(ascii_lower_seq(message), "api key is required"@, i))
            ==> !missing_key_message(message),
{
    if (phrase == "missing api key"@ || phrase == "api key is required"@)
        && 0 <= at && at + phrase.len() <= message.len()
        && ascii_lower_seq(message).subrange(at, at + phrase.len()) == phrase {
        assert(occurs_at(ascii_lower_seq(message), phrase, at));
    }
}

/// Inside tmux a notification is never a bare bell, and outside it a
/// terminal that names none of the known notifying terminals (`wezterm`,
/// `warp`, `iterm`, `ghostty`, `kitty`, `foot`, `tmux` in `TERM_PROGRAM`,
/// `rxvt` in `TERM`, in any ASCII case) gets the bell.
pub proof fn lemma_protocol_fallbacks(term_program: Seq<char>, term: Seq<char>, in_tmux: bool)
    ensures
        in_tmux ==> protocol_for(term_program, term, in_tmux) != NotificationProtocol::Bel,
        !in_tmux
            && (forall|i: int| !occurs_at(ascii_lower_seq(term_program), "wezterm"@, i))
            && (forall|i: int| !occurs_at(ascii_lower_seq(term_program), "warp"@, i))
            && (forall|i: int| !occurs_at(ascii_lower_seq(term_program), "iterm"@, i))
            && (forall|i: int| !occurs_at(ascii_lower_seq(term_program), "ghostty"@, i))
            && (forall|i: int| !occurs_at(ascii_lower_seq(term_program), "kitty"@, i))
            && (forall|i: int| !occurs_at(ascii_lower_seq(term_program), "foot"@, i))
            && (forall|i: int| !occurs_at(ascii_lower_seq(term_program), "tmux"@, i))
            && (forall|i: int| !occurs_at(ascii_lower_seq(term), "rxvt"@, i))
            ==> protocol_for(term_program, term, in_tmux) == NotificationProtocol::Bel,
{
}

/// The edit format toggles between `hashline` and `str_replace`; any other
/// value steps to `hashline`.
pub proof fn lemma_edit_format_toggle(current: Seq<char>)
    ensures
        cycled("EditFormat"@, "hashline"@) == Some("str_replace"@),
        cycled("EditFormat"@, "str_replace"@) == Some("hashline"@),
        current != "hashline"@ ==> cycled("EditFormat"@, current) == Some("hashline"@),
{
    reveal_strlit("EditFormat");
    reveal_strlit("ThinkingLevel");
    reveal_strlit("GlyphSet");
    reveal_strlit("hashline");
    reveal_strlit("str_replace");
    assert("EditFormat"@.len() != "ThinkingLevel"@.len());
    assert("EditFormat"@.len() != "GlyphSet"@.len());
    assert("hashline"@.len() != "str_replace"@.len());
}

proof fn lemma_alias_suffix_holds(al: Seq<Seq<char>>, k: int)
    requires
        0 <= k < al.len(),
    ensures
        exists|at: int| occurs_at(alias_suffix(al), ", /"@ + al[k], at),
    decreases al.len(),
{
    let pre = alias_suffix(al.drop_last());
    let piece = ", /"@ + al[k];
    assert(alias_suffix(al) == pre + ", /"@ + al.last());
    if k == al.len() - 1 {
        assert((pre + ", /"@ + al.last()).subrange(pre.len() as int, (pre.len() + piece.len()) as int) =~= piece);
        assert(occurs_at(alias_suffix(al), piece, pre.len() as int));
    } else {
        lemma_alias_suffix_holds(al.drop_last(), k);
        assert(al.drop_last()[k] == al[k]);
        let at = choose|at: int| occurs_at(pre, piece, at);
        assert((pre + ", /"@ + al.last()).subrange(at, at + piece.len()) =~= pre.subrange(at, at + piece.len()));
        assert(occurs_at(alias_suffix(al), piece, at));
    }
}

/// A popup label is `/` and the command's name, followed by `, /` and
/// each alias: it starts with `/name` and shows every alias as `, /alias`.
pub proof fn lemma_label_shows_name_and_aliases(name: Seq<char>, aliases: Seq<Seq<char>>, k: int)
    requires
        0 <= k < aliases.len(),
    ensures
        label_of(name, aliases).subrange(0, (name.len() + 1) as int) == "/"@ + name,
        exists|at: int| occurs_at(label_of(name, aliases), ", /"@ + aliases[k], at),
{
    let head = "/"@ + name;
    let suf = alias_suffix(aliases);
    let piece = ", /"@ + aliases[k];
    reveal_strlit("/");
    assert(label_of(name, aliases) == head + suf);
    assert((head + suf).subrange(0, (name.len() + 1) as int) =~= head);
    lemma_alias_suffix_holds(aliases, k);
    let at = choose|at: int| occurs_at(suf, piece, at);
    assert((head + suf).subrange(head.len() + at, head.len() + at + piece.len()) =~= suf.subrange(at, at + piece.len()));
    assert(occurs_at(label_of(name, aliases), piece, head.len() + at));
}

/// With no aliases the popup label is just `/name`.
pub proof fn lemma_label_without_aliases(name: Seq<char>)
    ensures
        label_of(name, Seq::empty()) == "/"@ + name,
{
    assert(alias_suffix(Seq::<Seq<char>>::empty()) == Seq::<char>::empty());
    assert(("/"@ + name) + Seq::<char>::empty() =~= "/"@ + name);
}

} // verus!
