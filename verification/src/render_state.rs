//! The render state shared by the input handling and the drawing: the
//! transcript with its block structure, per-block display modes, search,
//! turn navigation, the prompt queue mirror, tips, and confirmations.
use vstd::prelude::*;

use std::collections::HashMap;

use crate::overlay::{materialize_overlay, materialized, OverlayRequest, OverlayState};
use crate::provider::BrainChip;
use crate::setting_defs::{SettingDef, SettingsMapRow, SettingsTab};
use crate::slash::{FileCommand, SlashCommand, SlashPopup};
use crate::text::{chars_of, contains, lowercase, seq_contains, unicode_lower};
use crate::todo::TodoPhase;
use crate::transcript::{
    explicit_lines, lines_view, rows_view, segments_by_explicit_line, segs_view, InlineMessageKind, InlineSegment,
    InlineTextStyle,
    LineView, SegmentView, TranscriptLine,
};

verus! {

broadcast use vstd::std_specs::hash::group_hash_axioms;

/// How a transcript block is shown.
#[derive(Debug, Clone, Copy, PartialEq, Eq, Structural)]
pub enum BlockDisplayMode {
    /// First line only.
    Collapsed,
    /// Head and tail with the middle elided.
    Truncated,
    /// Every line.
    Expanded,
}

/// The next mode of the fold cycle: Collapsed → Truncated → Expanded →
/// Collapsed.
pub open spec fn next_mode(m: BlockDisplayMode) -> BlockDisplayMode {
    match m {
        BlockDisplayMode::Collapsed => BlockDisplayMode::Truncated,
        BlockDisplayMode::Truncated => BlockDisplayMode::Expanded,
        BlockDisplayMode::Expanded => BlockDisplayMode::Collapsed,
    }
}

/// In-transcript search state.
#[derive(Debug)]
pub struct SearchState {
    pub query: String,
    /// Transcript line indices that contain a match.
    pub matches: Vec<usize>,
    /// Current match cursor (index into `matches`).
    pub current: usize,
}

/// The action bound to a confirmation dialog.
#[derive(Debug, PartialEq, Eq)]
pub enum ConfirmationAction {
    /// Exit the application.
    Quit,
    /// Clear the conversation transcript and reset the agent session.
    ClearConversation,
    /// Remove the stored API key for a provider.
    RemoveProviderKey(String),
}

/// A y/n/x confirmation dialog.
#[derive(Debug)]
pub struct ModalConfirmation {
    pub title: String,
    pub message: String,
    pub action: ConfirmationAction,
}

/// Where a text prompt came from: the prompt itself only carries the
/// entered text, and the origin decides what happens with it.
#[derive(Debug, PartialEq, Eq)]
pub enum SecureInputOrigin {
    /// Replace, or first enter, the API key of an existing provider.
    SetKey { provider: String },
    /// Finish setting up a provider that was just added.
    NewlyAdded { provider: String },
    /// The text names a new model role; the value prompt follows.
    ModelRoleKey,
    /// The text is the model pattern for `role`.
    ModelRoleValue { role: String },
    /// The text is the new value of the named setting.
    TextEdit(String),
}

/// The tracker of a running agent turn: while it exists the indicator row
/// above the composer stays owned by the run.
#[derive(Debug)]
pub struct RunState {
    /// When the run started; drives the elapsed-time readout.
    pub started_at: std::time::Instant,
    /// Model requests started so far.
    pub turn: u32,
    /// Tool executions started so far.
    pub tool_calls: u32,
}

/// A short-lived tip banner shown above the composer.
#[derive(Debug)]
pub struct EphemeralTip {
    pub text: String,
    /// Render tick the tip was born at.
    pub born_tick: u64,
    /// How many ticks the tip stays visible.
    pub ttl_ticks: u64,
    /// Stable identifier for the per-session seen cap.
    pub key: &'static str,
    /// Ambient tips (background suggestions) pause while occluded.
    pub ambient: bool,
}

/// Max times a tip key is shown per session.
pub const SEEN_CAP: u32 = 3;

/// Whether an ephemeral tip is still within its visible TTL window.
pub fn tip_is_visible(tip: &EphemeralTip, now_tick: u64) -> (r: bool)
    ensures
        r == ((if now_tick >= tip.born_tick { now_tick - tip.born_tick } else { 0 }) < tip.ttl_ticks),
{
    now_tick.saturating_sub(tip.born_tick) < tip.ttl_ticks
}

/// Mutable state the input handling edits and the drawing reads.
pub struct RenderState {
    /// Editable text in the composer.
    pub composer: String,
    /// Transcript lines, in display order.
    pub transcript: Vec<TranscriptLine>,
    /// Index of the line pinned at the top of the viewport; `usize::MAX`
    /// follows the tail.
    pub scroll_offset: usize,
    /// Entries `[0, committed_entries)` are frozen in the host scrollback.
    pub committed_entries: usize,
    pub viewport_width: u16,
    pub last_viewport_height: u16,
    pub input_enabled: bool,
    pub prompt_prefix: String,
    pub placeholder: Option<String>,
    pub shutdown_requested: bool,
    /// Accumulated streamed answer text.
    pub message_buffer: String,
    /// Accumulated reasoning text.
    pub thinking_buffer: String,
    /// Transcript index where the in-flight message's lines begin.
    pub stream_anchor: Option<usize>,
    pub agent_hub_open: bool,
    /// A first Ctrl+C armed a quit.
    pub pending_quit: bool,
    pub slash_popup: SlashPopup,
    pub reasoning_stage: Option<String>,
    /// Bytes of `message_buffer` painted so far; `usize::MAX` = everything.
    pub stream_reveal: usize,
    pub brain: BrainChip,
    pub thinking_level: String,
    pub context_tokens: Option<usize>,
    pub context_window: usize,
    /// Provider and model shown by the composer's context bar.
    pub header_provider: String,
    pub header_model: String,
    pub overlay: Option<OverlayState>,
    /// Queued prompts waiting to run (the visible queue).
    pub queued_inputs: Vec<String>,
    pub queue_panel_open: bool,
    pub queue_selected: usize,
    pub shell_mode: bool,
    pub follow_ups: Vec<String>,
    pub todo_phases: Vec<TodoPhase>,
    pub todo_expanded: bool,
    pub todo_clear_delay_secs: i64,
    pub search: Option<SearchState>,
    /// Per-block display override; absence means Expanded.
    pub block_display: HashMap<usize, BlockDisplayMode>,
    pub multiline_mode: bool,
    /// Submitted prompt history, most recent first.
    pub prompt_history: Vec<String>,
    pub history_pos: Option<usize>,
    /// Next block id to assign.
    pub next_block_id: usize,
    pub confirmation: Option<ModalConfirmation>,
    pub tip: Option<EphemeralTip>,
    /// Per-tip-key show counter.
    pub seen_tips: Vec<(&'static str, u32)>,
    /// Built-in slash commands offered by the popup.
    pub slash_commands: Vec<SlashCommand>,
    /// User-defined slash commands.
    pub file_commands: Vec<FileCommand>,
    /// Origin of the open text prompt, consumed when it is submitted.
    pub secure_input_origin: Option<SecureInputOrigin>,
    /// The running agent turn, from its start to its end.
    pub active_run: Option<RunState>,
    /// Model ids behind the rows of the open model picker.
    pub overlay_model_ids: Vec<String>,
    /// (provider, model) behind the rows of the open model catalog.
    pub overlay_catalog_models: Vec<(String, String)>,
    /// Provider names behind the rows of the open providers list.
    pub overlay_providers: Vec<String>,
    /// A session picked for resuming; the next submit resumes it.
    pub pending_resume: Option<String>,
    /// The settings table the panel is built from.
    pub setting_defs: Vec<SettingDef>,
    /// What each row of the open settings panel edits, when it is a map
    /// entry (a keybinding combo or a model role).
    pub settings_map_rows: Vec<Option<SettingsMapRow>>,
    /// The tab the settings panel shows.
    pub settings_active_tab: SettingsTab,
}

/// Every transcript line belongs to a block id below `next`.
pub open spec fn ids_below(lines: Seq<LineView>, next: usize) -> bool {
    forall|i: int| 0 <= i < lines.len() ==> (#[trigger] lines[i]).block_id < next
}

/// The transcript lines made from explicit `rows` in one block.
pub open spec fn block_lines(kind: InlineMessageKind, rows: Seq<Seq<SegmentView>>, bid: usize) -> Seq<LineView> {
    rows.map_values(|r: Seq<SegmentView>| LineView { kind, segments: r, block_id: bid })
}

/// Appending the explicit lines of `segs` as `kind` to `lines` with the id
/// allocator at `next`: the lines join the last line's block when its kind
/// matches, otherwise a fresh block. Returns the lines and the allocator.
pub open spec fn append_spec(lines: Seq<LineView>, next: usize, kind: InlineMessageKind, segs: Seq<SegmentView>) -> (Seq<LineView>, usize) {
    let reuse = lines.len() > 0 && lines.last().kind == kind;
    let bid = if reuse { lines.last().block_id } else { next };
    (lines + block_lines(kind, explicit_lines(segs), bid), if reuse { next } else { (next + 1) as usize })
}

/// Appending every row of `rows` in turn.
pub open spec fn append_all(lines: Seq<LineView>, next: usize, kind: InlineMessageKind, rows: Seq<Seq<SegmentView>>) -> (Seq<LineView>, usize)
    decreases rows.len(),
{
    if rows.len() == 0 {
        (lines, next)
    } else {
        let (l, n) = append_all(lines, next, kind, rows.drop_last());
        append_spec(l, n, kind, rows.last())
    }
}

impl RenderState {
    /// The transcript's value.
    pub open spec fn lines(&self) -> Seq<LineView> {
        lines_view(self.transcript@)
    }

    /// Block ids are below the id allocator.
    pub open spec fn wf(&self) -> bool {
        ids_below(self.lines(), self.next_block_id)
    }

    /// The display mode of a block: its override, or Expanded.
    pub open spec fn mode_of(&self, bid: usize) -> BlockDisplayMode {
        if self.block_display@.contains_key(bid) {
            self.block_display@[bid]
        } else {
            BlockDisplayMode::Expanded
        }
    }

    /// An empty state: nothing in the transcript, the composer empty, the
    /// view following the tail.
    pub fn new() -> (s: Self)
        ensures
            s.wf(),
            s.transcript@.len() == 0,
            s.next_block_id == 0,
            s.scroll_offset == usize::MAX,
            s.stream_reveal == usize::MAX,
            s.stream_anchor is None,
            s.block_display@ == Map::<usize, BlockDisplayMode>::empty(),
            s.composer@.len() == 0,
            s.committed_entries == 0,
            s.context_window == 128000,
            s.todo_clear_delay_secs == -1,
            s.search is None && s.overlay is None && s.tip is None && s.confirmation is None,
            s.queued_inputs@.len() == 0,
            !s.pending_quit,
            s.overlay_model_ids@.len() == 0 && s.overlay_catalog_models@.len() == 0 && s.overlay_providers@.len() == 0,
            s.pending_resume is None && s.setting_defs@.len() == 0,
            !s.slash_popup.open && s.slash_popup.items@.len() == 0 && s.slash_popup.selected == 0,
            s.prompt_history@.len() == 0 && s.history_pos is None && !s.shell_mode && !s.multiline_mode,
    {
        RenderState {
            composer: String::new(),
            transcript: Vec::new(),
            scroll_offset: usize::MAX,
            committed_entries: 0,
            viewport_width: 80,
            last_viewport_height: 24,
            input_enabled: false,
            prompt_prefix: String::new(),
            placeholder: None,
            shutdown_requested: false,
            message_buffer: String::new(),
            thinking_buffer: String::new(),
            stream_anchor: None,
            agent_hub_open: false,
            pending_quit: false,
            slash_popup: SlashPopup { open: false, items: Vec::new(), selected: 0 },
            reasoning_stage: None,
            stream_reveal: usize::MAX,
            brain: BrainChip::Off,
            thinking_level: String::from_str("medium"),
            context_tokens: None,
            context_window: 128000,
            header_provider: String::new(),
            header_model: String::new(),
            overlay: None,
            queued_inputs: Vec::new(),
            queue_panel_open: false,
            queue_selected: 0,
            shell_mode: false,
            follow_ups: Vec::new(),
            todo_phases: Vec::new(),
            todo_expanded: false,
            todo_clear_delay_secs: -1,
            search: None,
            block_display: HashMap::new(),
            multiline_mode: false,
            prompt_history: Vec::new(),
            history_pos: None,
            next_block_id: 0,
            confirmation: None,
            tip: None,
            seen_tips: Vec::new(),
            slash_commands: Vec::new(),
            file_commands: Vec::new(),
            secure_input_origin: None,
            active_run: None,
            overlay_model_ids: Vec::new(),
            overlay_catalog_models: Vec::new(),
            overlay_providers: Vec::new(),
            pending_resume: None,
            setting_defs: Vec::new(),
            settings_map_rows: Vec::new(),
            settings_active_tab: SettingsTab::General,
        }
    }

    /// Allocate a block id that cannot merge with an existing block.
    pub fn fresh_block_id(&mut self) -> (id: usize)
        requires
            old(self).next_block_id < usize::MAX,
        ensures
            id == old(self).next_block_id,
            final(self).next_block_id == old(self).next_block_id + 1,
            *final(self) == (RenderState { next_block_id: final(self).next_block_id, ..*old(self) }),
            final(self).transcript@ == old(self).transcript@,
            final(self).stream_anchor == old(self).stream_anchor,
            final(self).block_display@ == old(self).block_display@,
            final(self).committed_entries == old(self).committed_entries,
    {
        let id = self.next_block_id;
        self.next_block_id = self.next_block_id + 1;
        id
    }

    /// The block id for a new line of `kind`: the last line's block when its
    /// kind matches, otherwise a fresh block.
    pub fn block_id_for_kind(&mut self, kind: InlineMessageKind) -> (id: usize)
        requires
            old(self).next_block_id < usize::MAX,
        ensures
            *final(self) == (RenderState { next_block_id: final(self).next_block_id, ..*old(self) }),
            final(self).transcript@ == old(self).transcript@,
            final(self).stream_anchor == old(self).stream_anchor,
            final(self).block_display@ == old(self).block_display@,
            final(self).committed_entries == old(self).committed_entries,
            if old(self).transcript@.len() > 0 && old(self).transcript@.last().kind == kind {
                id == old(self).transcript@.last().block_id && final(self).next_block_id == old(self).next_block_id
            } else {
                id == old(self).next_block_id && final(self).next_block_id == old(self).next_block_id + 1
            },
    {
        let n = self.transcript.len();
        if n > 0 && self.transcript[n - 1].kind == kind {
            return self.transcript[n - 1].block_id;
        }
        self.fresh_block_id()
    }

    /// Append `rows` as lines of `kind` in block `bid`.
    fn extend_block(&mut self, kind: InlineMessageKind, rows: Vec<Vec<InlineSegment>>, bid: usize)
        ensures
            *final(self) == (RenderState { transcript: final(self).transcript, ..*old(self) }),
            final(self).lines() == old(self).lines() + block_lines(kind, rows_view(rows@), bid),
            final(self).next_block_id == old(self).next_block_id,
            final(self).stream_anchor == old(self).stream_anchor,
            final(self).block_display@ == old(self).block_display@,
            final(self).committed_entries == old(self).committed_entries,
    {
        let ghost base = self.lines();
        let ghost rv = rows_view(rows@);
        let mut rows = rows;
        let ghost total = rows@;
        let n = rows.len();
        assert(total.len() == n);
        let mut k: usize = 0;
        while rows.len() > 0
            invariant
                k <= total.len(),
                total.len() <= usize::MAX,
                rows@ == total.skip(k as int),
                rv == rows_view(total),
                self.lines() == base + block_lines(kind, rv.take(k as int), bid),
                self.next_block_id == old(self).next_block_id,
                self.stream_anchor == old(self).stream_anchor,
                self.block_display@ == old(self).block_display@,
                self.committed_entries == old(self).committed_entries,
                *self == (RenderState { transcript: self.transcript, ..*old(self) }),
            decreases rows.len(),
        {
            let r = rows.remove(0);
            proof {
                assert(r == total[k as int]);
                assert(rows@ =~= total.skip(k + 1));
            }
            let ghost before = self.lines();
            let line = TranscriptLine { kind, segments: r, block_id: bid };
            self.transcript.push(line);
            proof {
                assert(self.lines() =~= before.push(line@));
                assert(rv.take(k + 1) =~= rv.take(k as int).push(rv[k as int]));
                assert(block_lines(kind, rv.take(k + 1), bid) =~= block_lines(kind, rv.take(k as int), bid).push(line@));
            }
            k += 1;
        }
        assert(k == total.len());
        assert(rv.take(rv.len() as int) =~= rv);
    }

    /// Append one or more brand-new transcript lines: explicit newlines in
    /// the segments start new lines of the same block; the block is the
    /// last line's when its kind matches, a fresh one otherwise.
    pub fn append_line(&mut self, kind: InlineMessageKind, segments: Vec<InlineSegment>)
        requires
            old(self).next_block_id < usize::MAX,
        ensures
            *final(self) == (RenderState { transcript: final(self).transcript, next_block_id: final(self).next_block_id, ..*old(self) }),
            final(self).stream_anchor == old(self).stream_anchor,
            final(self).block_display@ == old(self).block_display@,
            final(self).committed_entries == old(self).committed_entries,
            (final(self).lines(), final(self).next_block_id) == append_spec(old(self).lines(), old(self).next_block_id, kind, segs_view(segments@)),
            old(self).wf() ==> final(self).wf(),
    {
        let bid = self.block_id_for_kind(kind);
        let rows = segments_by_explicit_line(segments);
        self.extend_block(kind, rows, bid);
        proof {
            if old(self).wf() && old(self).transcript@.len() > 0 && old(self).transcript@.last().kind == kind {
                assert(old(self).lines()[old(self).lines().len() - 1].block_id == bid);
            }
        }
    }

    /// Append line(s) that open a new block instead of merging into the last
    /// block of the same kind.
    pub fn append_line_new_block(&mut self, kind: InlineMessageKind, segments: Vec<InlineSegment>)
        requires
            old(self).next_block_id < usize::MAX,
        ensures
            *final(self) == (RenderState { transcript: final(self).transcript, next_block_id: final(self).next_block_id, ..*old(self) }),
            final(self).stream_anchor == old(self).stream_anchor,
            final(self).block_display@ == old(self).block_display@,
            final(self).committed_entries == old(self).committed_entries,
            final(self).lines() == old(self).lines() + block_lines(kind, explicit_lines(segs_view(segments@)), old(self).next_block_id),
            final(self).next_block_id == old(self).next_block_id + 1,
            old(self).wf() ==> final(self).wf(),
    {
        let bid = self.fresh_block_id();
        let rows = segments_by_explicit_line(segments);
        self.extend_block(kind, rows, bid);
    }
}


/// The block ids of `lines[..n]`, one per run of equal consecutive ids, in
/// transcript order.
pub open spec fn run_ids(lines: Seq<LineView>, n: int) -> Seq<usize>
    decreases n,
{
    if n <= 0 {
        Seq::empty()
    } else {
        let prev = run_ids(lines, n - 1);
        if n == 1 || lines[n - 2].block_id != lines[n - 1].block_id {
            prev.push(lines[n - 1].block_id)
        } else {
            prev
        }
    }
}

/// Every line of `lines[..n]` has its block id among `run_ids`, and every
/// listed id is the id of some line.
pub proof fn lemma_run_ids_cover(lines: Seq<LineView>, n: int)
    requires
        0 <= n <= lines.len(),
    ensures
        forall|i: int| 0 <= i < n ==> run_ids(lines, n).contains(#[trigger] lines[i].block_id),
        forall|k: int| 0 <= k < run_ids(lines, n).len() ==> exists|i: int| 0 <= i < n && lines[i].block_id == #[trigger] run_ids(lines, n)[k],
        n > 0 ==> run_ids(lines, n).len() > 0 && run_ids(lines, n).last() == lines[n - 1].block_id,
    decreases n,
{
    if n > 0 {
        lemma_run_ids_cover(lines, n - 1);
        let prev = run_ids(lines, n - 1);
        let cur = run_ids(lines, n);
        assert forall|i: int| 0 <= i < n implies cur.contains(#[trigger] lines[i].block_id) by {
            if i < n - 1 {
                let k = choose|k: int| 0 <= k < prev.len() && prev[k] == lines[i].block_id;
                assert(cur[k] == prev[k]);
            } else {
                assert(cur[cur.len() - 1] == lines[n - 1].block_id);
            }
        }
        assert forall|k: int| 0 <= k < cur.len() implies exists|i: int| 0 <= i < n && lines[i].block_id == #[trigger] cur[k] by {
            if k < prev.len() {
                assert(cur[k] == prev[k]);
                let i = choose|i: int| 0 <= i < n - 1 && lines[i].block_id == prev[k];
                assert(0 <= i < n && lines[i].block_id == cur[k]);
            } else {
                assert(0 <= n - 1 < n && lines[n - 1].block_id == cur[k]);
            }
        }
    }
}

/// Outside the block ids `ids`, the overrides `new` and `old` agree.
pub open spec fn overrides_kept_outside(new: Map<usize, BlockDisplayMode>, old: Map<usize, BlockDisplayMode>, ids: Seq<usize>) -> bool {
    forall|b: usize| !ids.contains(b) ==> #[trigger] new.contains_key(b) == old.contains_key(b)
        && (old.contains_key(b) ==> new[b] == old[b])
}

/// A line that starts a conversation turn: an Agent or a User line.
pub open spec fn is_turn_start(l: LineView) -> bool {
    l.kind == InlineMessageKind::Agent || l.kind == InlineMessageKind::User
}

/// The index of the first entry of `tips[..n]` whose key is `key`.
pub open spec fn tip_index(tips: Seq<(&'static str, u32)>, key: Seq<char>, n: int) -> Option<int>
    decreases n,
{
    if n <= 0 {
        None
    } else {
        match tip_index(tips, key, n - 1) {
            Some(i) => Some(i),
            None => if tips[n - 1].0@ == key { Some(n - 1) } else { None },
        }
    }
}

pub proof fn lemma_tip_index_bounds(tips: Seq<(&'static str, u32)>, key: Seq<char>, n: int)
    requires
        n <= tips.len(),
    ensures
        tip_index(tips, key, n) matches Some(i) ==> 0 <= i < n && tips[i].0@ == key,
    decreases n,
{
    if n > 0 {
        lemma_tip_index_bounds(tips, key, n - 1);
    }
}

/// How often the tip `key` has been shown.
pub open spec fn seen_count(tips: Seq<(&'static str, u32)>, key: Seq<char>) -> u32 {
    match tip_index(tips, key, tips.len() as int) {
        Some(i) => tips[i].1,
        None => 0,
    }
}

/// `new` shows the tip `key` over `old` unless the key was already shown
/// `SEEN_CAP` times: the tip is set, its counter goes up by one, and every
/// other counter stays.
pub open spec fn tip_shown(old: RenderState, new: RenderState, key: &'static str, text: Seq<char>, ttl: u64, ambient: bool, now_tick: u64) -> bool {
    &&& seen_count(old.seen_tips@, key@) >= SEEN_CAP ==> {
        &&& new.seen_tips@ == old.seen_tips@
        &&& new.tip == old.tip
    }
    &&& seen_count(old.seen_tips@, key@) < SEEN_CAP ==> {
        &&& seen_count(new.seen_tips@, key@) == seen_count(old.seen_tips@, key@) + 1
        &&& new.tip matches Some(t) && t.text@ == text && t.born_tick == now_tick
            && t.ttl_ticks == ttl && t.key == key && t.ambient == ambient
    }
    &&& forall|k: Seq<char>| k != key@ ==> #[trigger] seen_count(new.seen_tips@, k) == seen_count(old.seen_tips@, k)
}

/// `new` is `old` with every block of the transcript shown in `mode`;
/// overrides of blocks no longer in the transcript are kept.
pub open spec fn all_set_to(old: RenderState, new: RenderState, mode: BlockDisplayMode) -> bool {
    &&& forall|i: int| 0 <= i < old.lines().len() ==> #[trigger] new.mode_of(old.lines()[i].block_id) == mode
    &&& overrides_kept_outside(new.block_display@, old.block_display@, run_ids(old.lines(), old.lines().len() as int))
    &&& new == (RenderState { block_display: new.block_display, ..old })
}

/// What cycling the block under the view does (see `RenderState::cycle_block_at_view`):
/// the block of the line in view moves to its next display mode, stored as
/// an override, or as no entry for the Expanded default; nothing else in
/// the state changes. Without a line in view nothing changes.
pub open spec fn cycle_ok(old: RenderState, new: RenderState) -> bool {
    &&& new == (RenderState { block_display: new.block_display, ..old })
    &&& new.transcript@ == old.transcript@
    &&& new.scroll_offset == old.scroll_offset
    &&& new.next_block_id == old.next_block_id
    &&& old.view_offset() < old.lines().len() ==> {
        let bid = old.lines()[old.view_offset()].block_id;
        &&& new.block_display@ == cycled_map(old.block_display@, bid, old.mode_of(bid))
        &&& new.mode_of(bid) == next_mode(old.mode_of(bid))
        &&& forall|b: usize| b != bid ==> #[trigger] new.mode_of(b) == old.mode_of(b)
        &&& (new.mode_of(bid) == BlockDisplayMode::Expanded <==> !new.block_display@.contains_key(bid))
    }
    &&& old.view_offset() >= old.lines().len() ==> new.block_display@ == old.block_display@
}

/// The override map after block `bid`, shown in `mode`, moves to its next
/// mode: Expanded drops the entry, the other modes are stored.
pub open spec fn cycled_map(m: Map<usize, BlockDisplayMode>, bid: usize, mode: BlockDisplayMode) -> Map<usize, BlockDisplayMode> {
    if next_mode(mode) == BlockDisplayMode::Expanded { m.remove(bid) } else { m.insert(bid, next_mode(mode)) }
}

/// What expanding every block does (see `RenderState::expand_all`).
pub open spec fn expand_all_ok(old: RenderState, new: RenderState) -> bool {
    &&& new == (RenderState { block_display: new.block_display, ..old })
    &&& new.block_display@ == Map::<usize, BlockDisplayMode>::empty()
    &&& forall|b: usize| #[trigger] new.mode_of(b) == BlockDisplayMode::Expanded
    &&& new.transcript@ == old.transcript@
    &&& new.next_block_id == old.next_block_id
    &&& new.scroll_offset == old.scroll_offset
}

/// What jumping to the next turn does (see `RenderState::jump_next_turn`).
pub open spec fn jump_next_ok(old: RenderState, new: RenderState) -> bool {
    &&& new.transcript@ == old.transcript@
    &&& new.block_display@ == old.block_display@
    &&& ({
        let o = old.view_offset();
        let lines = old.lines();
        if exists|i: int| o < i < lines.len() && is_turn_start(#[trigger] lines[i]) {
            &&& o < new.scroll_offset < lines.len()
            &&& is_turn_start(lines[new.scroll_offset as int])
            &&& forall|j: int| o < j < new.scroll_offset ==> !is_turn_start(#[trigger] lines[j])
        } else {
            new.scroll_offset == old.scroll_offset
        }
    })
}

/// What jumping to the previous turn does (see `RenderState::jump_prev_turn`).
pub open spec fn jump_prev_ok(old: RenderState, new: RenderState) -> bool {
    &&& new.transcript@ == old.transcript@
    &&& new.block_display@ == old.block_display@
    &&& ({
        let o = old.view_offset();
        let lines = old.lines();
        if exists|i: int| 0 <= i < o && i < lines.len() && lines[i].kind == InlineMessageKind::User {
            &&& new.scroll_offset < o
            &&& new.scroll_offset < lines.len()
            &&& lines[new.scroll_offset as int].kind == InlineMessageKind::User
            &&& forall|j: int| new.scroll_offset < j < o && j < lines.len() ==> lines[j].kind != InlineMessageKind::User
        } else {
            new.scroll_offset == old.scroll_offset
        }
    })
}

impl RenderState {
    /// The search cursor points at a match (or there are no matches).
    pub open spec fn search_wf(&self) -> bool {
        self.search matches Some(s) ==> s.matches@.len() == 0 || s.current < s.matches@.len()
    }

    /// The display mode of a block: its explicit override, or the Expanded
    /// default.
    pub fn block_mode(&self, block_id: usize) -> (m: BlockDisplayMode)
        ensures
            m == self.mode_of(block_id),
    {
        match self.block_display.get(&block_id) {
            Some(m) => *m,
            None => BlockDisplayMode::Expanded,
        }
    }

    /// Distinct block ids in transcript order.
    pub fn all_block_ids(&self) -> (ids: Vec<usize>)
        ensures
            ids@ == run_ids(self.lines(), self.lines().len() as int),
    {
        let mut ids: Vec<usize> = Vec::new();
        let mut prev: Option<usize> = None;
        let mut i: usize = 0;
        while i < self.transcript.len()
            invariant
                i <= self.transcript.len(),
                ids@ == run_ids(self.lines(), i as int),
                prev == (if i == 0 { None } else { Some(self.lines()[i - 1].block_id) }),
            decreases self.transcript.len() - i,
        {
            let b = self.transcript[i].block_id;
            if prev != Some(b) {
                ids.push(b);
                prev = Some(b);
            }
            i += 1;
        }
        ids
    }

    /// Record `mode` for every block of the transcript, keeping other
    /// overrides.
    fn set_all_modes(&mut self, mode: BlockDisplayMode)
        ensures
            *final(self) == (RenderState { block_display: final(self).block_display, ..*old(self) }),
            forall|i: int| 0 <= i < old(self).lines().len() ==> #[trigger] final(self).mode_of(old(self).lines()[i].block_id) == mode,
            overrides_kept_outside(final(self).block_display@, old(self).block_display@, run_ids(old(self).lines(), old(self).lines().len() as int)),
            final(self).transcript@ == old(self).transcript@,
            final(self).next_block_id == old(self).next_block_id,
            final(self).scroll_offset == old(self).scroll_offset,
    {
        let ids = self.all_block_ids();
        proof {
            lemma_run_ids_cover(self.lines(), self.lines().len() as int);
        }
        let mut k: usize = 0;
        while k < ids.len()
            invariant
                k <= ids.len(),
                ids@ == run_ids(old(self).lines(), old(self).lines().len() as int),
                *self == (RenderState { block_display: self.block_display, ..*old(self) }),
                self.transcript@ == old(self).transcript@,
                self.next_block_id == old(self).next_block_id,
                self.scroll_offset == old(self).scroll_offset,
                forall|j: int| 0 <= j < k ==> self.block_display@.contains_key(#[trigger] ids@[j]) && self.block_display@[ids@[j]] == mode,
                forall|b: usize| !ids@.take(k as int).contains(b)
                    ==> #[trigger] self.block_display@.contains_key(b) == old(self).block_display@.contains_key(b)
                    && (old(self).block_display@.contains_key(b) ==> self.block_display@[b] == old(self).block_display@[b]),
            decreases ids.len() - k,
        {
            let ghost before = self.block_display@;
            self.block_display.insert(ids[k], mode);
            proof {
                assert forall|b: usize| !ids@.take(k + 1).contains(b) implies #[trigger] self.block_display@.contains_key(b)
                    == old(self).block_display@.contains_key(b)
                    && (old(self).block_display@.contains_key(b) ==> self.block_display@[b] == old(self).block_display@[b]) by {
                    assert(ids@.take(k + 1)[k as int] == ids@[k as int]);
                    if ids@.take(k as int).contains(b) {
                        let j = choose|j: int| 0 <= j < k && ids@.take(k as int)[j] == b;
                        assert(ids@.take(k + 1)[j] == b);
                    }
                }
            }
            k += 1;
        }
        proof {
            assert(ids@.take(ids.len() as int) == ids@);
            assert forall|b: usize| !ids@.contains(b)
                implies #[trigger] self.block_display@.contains_key(b) == old(self).block_display@.contains_key(b)
                && (old(self).block_display@.contains_key(b) ==> self.block_display@[b] == old(self).block_display@[b]) by {
                assert(!ids@.take(ids.len() as int).contains(b));
            }
            assert(overrides_kept_outside(self.block_display@, old(self).block_display@, ids@));
            assert forall|i: int| 0 <= i < old(self).lines().len() implies #[trigger] self.mode_of(old(self).lines()[i].block_id) == mode by {
                let b = old(self).lines()[i].block_id;
                assert(ids@.contains(b));
                let j = choose|j: int| 0 <= j < ids@.len() && ids@[j] == b;
            }
        }
    }

    /// Expand every block: Expanded is the default, so every override
    /// goes.
    pub fn expand_all(&mut self)
        ensures
            expand_all_ok(*old(self), *final(self)),
    {
        self.block_display.clear();
    }

    /// Collapse every block of the transcript (first line only).
    pub fn fold_all(&mut self)
        ensures
            all_set_to(*old(self), *final(self), BlockDisplayMode::Collapsed),
    {
        self.set_all_modes(BlockDisplayMode::Collapsed);
    }

    /// Record Truncated explicitly for every block of the transcript.
    pub fn truncate_all(&mut self)
        ensures
            all_set_to(*old(self), *final(self), BlockDisplayMode::Truncated),
    {
        self.set_all_modes(BlockDisplayMode::Truncated);
    }

    /// The scroll offset with the follow-tail sentinel resolved to the last
    /// line.
    pub open spec fn view_offset(&self) -> int {
        if self.scroll_offset == usize::MAX {
            if self.transcript@.len() == 0 { 0 } else { self.transcript@.len() - 1 }
        } else {
            self.scroll_offset as int
        }
    }

    /// Effective scroll offset (resolves `usize::MAX` follow-tail to the
    /// last line).
    pub fn effective_offset(&self) -> (o: usize)
        ensures
            o == self.view_offset(),
    {
        if self.scroll_offset == usize::MAX {
            self.transcript.len().saturating_sub(1)
        } else {
            self.scroll_offset
        }
    }

    /// Cycle the display mode of the block at the current scroll offset:
    /// Collapsed → Truncated → Expanded → Collapsed. Expanded is stored as
    /// the absence of an override. No change when the offset is past the
    /// transcript.
    pub fn cycle_block_at_view(&mut self)
        ensures
            cycle_ok(*old(self), *final(self)),
    {
        let offset = self.effective_offset();
        if offset < self.transcript.len() {
            let bid = self.transcript[offset].block_id;
            let next = match self.block_mode(bid) {
                BlockDisplayMode::Collapsed => BlockDisplayMode::Truncated,
                BlockDisplayMode::Truncated => BlockDisplayMode::Expanded,
                BlockDisplayMode::Expanded => BlockDisplayMode::Collapsed,
            };
            if next == BlockDisplayMode::Expanded {
                self.block_display.remove(&bid);
            } else {
                self.block_display.insert(bid, next);
            }
        }
    }

    /// Jump the scroll to the next Agent or User line after the current
    /// offset; no change when there is none.
    pub fn jump_next_turn(&mut self)
        ensures
            jump_next_ok(*old(self), *final(self)),
    {
        let offset = self.effective_offset();
        let n = self.transcript.len();
        if offset >= n {
            return;
        }
        let mut i: usize = offset;
        while i + 1 < n
            invariant
                offset <= i < n,
                n == self.transcript.len(),
                offset == old(self).view_offset(),
                self.transcript@ == old(self).transcript@,
                self.block_display@ == old(self).block_display@,
                self.scroll_offset == old(self).scroll_offset,
                forall|j: int| offset < j <= i ==> !is_turn_start(#[trigger] self.lines()[j]),
            decreases n - i,
        {
            let k = self.transcript[i + 1].kind;
            if k == InlineMessageKind::Agent || k == InlineMessageKind::User {
                assert(is_turn_start(old(self).lines()[i + 1]));
                assert(self.lines() == old(self).lines());
                self.scroll_offset = i + 1;
                return;
            }
            i += 1;
        }
        proof {
            assert(self.lines() == old(self).lines());
            assert forall|j: int| offset < j < n implies !is_turn_start(#[trigger] old(self).lines()[j]) by {
                assert(j <= i);
            }
        }
    }

    /// Jump the scroll to the closest User line before the current offset;
    /// no change when there is none.
    pub fn jump_prev_turn(&mut self)
        ensures
            jump_prev_ok(*old(self), *final(self)),
    {
        let offset = self.effective_offset();
        let n = self.transcript.len();
        let mut i: usize = if offset < n { offset } else { n };
        while i > 0
            invariant
                i <= offset,
                i <= n,
                n == self.transcript.len(),
                offset == old(self).view_offset(),
                self.transcript@ == old(self).transcript@,
                self.block_display@ == old(self).block_display@,
                self.scroll_offset == old(self).scroll_offset,
                forall|j: int| i <= j < offset && j < n ==> self.lines()[j].kind != InlineMessageKind::User,
            decreases i,
        {
            if self.transcript[i - 1].kind == InlineMessageKind::User {
                assert(old(self).lines()[i - 1].kind == InlineMessageKind::User);
                assert(self.lines() == old(self).lines());
                self.scroll_offset = i - 1;
                return;
            }
            i -= 1;
        }
        proof {
            assert(self.lines() == old(self).lines());
        }
    }

    /// Drop the head of the queued-input list (the prompt that now runs).
    pub fn drain_queue_head(&mut self)
        ensures
            final(self).queued_inputs@ == (if old(self).queued_inputs@.len() > 0 {
                old(self).queued_inputs@.drop_first()
            } else {
                old(self).queued_inputs@
            }),
            *final(self) == (RenderState { queued_inputs: final(self).queued_inputs, ..*old(self) }),
    {
        if self.queued_inputs.len() > 0 {
            self.queued_inputs.remove(0);
            assert(self.queued_inputs@ =~= old(self).queued_inputs@.drop_first());
        }
    }

    /// Show an ephemeral tip unless its key reached the per-session cap
    /// (`SEEN_CAP` showings); `now_tick` is the current render tick.
    pub fn show_tip(&mut self, key: &'static str, text: &str, ttl: u64, ambient: bool, now_tick: u64)
        ensures
            *final(self) == (RenderState { seen_tips: final(self).seen_tips, tip: final(self).tip, ..*old(self) }),
            tip_shown(*old(self), *final(self), key, text@, ttl, ambient, now_tick),
    {
        let ghost tips = self.seen_tips@;
        let mut i: usize = 0;
        while i < self.seen_tips.len()
            invariant
                i <= self.seen_tips.len(),
                self.seen_tips@ == tips,
                *self == *old(self),
                tips == old(self).seen_tips@,
                tip_index(tips, key@, i as int) is None,
            decreases self.seen_tips.len() - i,
        {
            if crate::text::str_eq(self.seen_tips[i].0, key) {
                let count = self.seen_tips[i].1;
                proof {
                    assert(tip_index(tips, key@, i + 1) == Some(i as int));
                    lemma_tip_prefix_stable(tips, key@, i + 1, tips.len() as int);
                }
                if count >= SEEN_CAP {
                    return;
                }
                let entry = (key, count + 1);
                self.seen_tips.set(i, entry);
                proof {
                    assert(self.seen_tips@ == tips.update(i as int, entry));
                    lemma_tip_index_update(tips, key@, i as int, entry);
                }
                self.tip = Some(EphemeralTip {
                    text: String::from_str(text),
                    born_tick: now_tick,
                    ttl_ticks: ttl,
                    key,
                    ambient,
                });
                return;
            }
            i += 1;
        }
        proof {
            assert(tip_index(tips, key@, tips.len() as int) is None);
        }
        let entry = (key, 1u32);
        self.seen_tips.push(entry);
        proof {
            lemma_tip_index_push(tips, key@, entry);
        }
        self.tip = Some(EphemeralTip { text: String::from_str(text), born_tick: now_tick, ttl_ticks: ttl, key, ambient });
    }
}

/// A found index stays the first one in longer prefixes.
pub proof fn lemma_tip_prefix_stable(tips: Seq<(&'static str, u32)>, key: Seq<char>, n: int, m: int)
    requires
        0 < n <= m <= tips.len(),
        tip_index(tips, key, n) is Some,
    ensures
        tip_index(tips, key, m) == tip_index(tips, key, n),
    decreases m - n,
{
    if m > n {
        lemma_tip_prefix_stable(tips, key, n, m - 1);
    }
}

/// Updating the count at the first index of `key` changes no other key's
/// count and bumps that key's.
pub proof fn lemma_tip_index_update(tips: Seq<(&'static str, u32)>, key: Seq<char>, i: int, entry: (&'static str, u32))
    requires
        0 <= i < tips.len(),
        tip_index(tips, key, tips.len() as int) == Some(i),
        entry.0@ == key,
    ensures
        seen_count(tips.update(i, entry), key) == entry.1,
        forall|k: Seq<char>| k != key ==> #[trigger] seen_count(tips.update(i, entry), k) == seen_count(tips, k),
{
    let t2 = tips.update(i, entry);
    lemma_tip_index_bounds(tips, key, tips.len() as int);
    lemma_tip_index_same(tips, t2, key, i, tips.len() as int);
    assert forall|k: Seq<char>| k != key implies #[trigger] seen_count(t2, k) == seen_count(tips, k) by {
        lemma_tip_index_same(tips, t2, k, i, tips.len() as int);
        lemma_tip_index_bounds(tips, k, tips.len() as int);
        lemma_tip_index_bounds(t2, k, tips.len() as int);
    }
}

/// Two key lists that agree on keys agree on first indices; counts agree
/// away from `i`.
pub proof fn lemma_tip_index_same(a: Seq<(&'static str, u32)>, b: Seq<(&'static str, u32)>, key: Seq<char>, i: int, n: int)
    requires
        a.len() == b.len(),
        0 <= n <= a.len(),
        0 <= i < a.len(),
        a[i].0@ == b[i].0@,
        forall|j: int| 0 <= j < a.len() && j != i ==> a[j] == b[j],
    ensures
        tip_index(a, key, n) == tip_index(b, key, n),
    decreases n,
{
    if n > 0 {
        lemma_tip_index_same(a, b, key, i, n - 1);
    }
}

/// Pushing a new key leaves every other key's count alone and counts the
/// new key once.
pub proof fn lemma_tip_index_push(tips: Seq<(&'static str, u32)>, key: Seq<char>, entry: (&'static str, u32))
    requires
        tip_index(tips, key, tips.len() as int) is None,
        entry.0@ == key,
    ensures
        seen_count(tips.push(entry), key) == entry.1,
        forall|k: Seq<char>| k != key ==> #[trigger] seen_count(tips.push(entry), k) == seen_count(tips, k),
{
    let t2 = tips.push(entry);
    lemma_tip_index_prefix(tips, entry, key, tips.len() as int);
    assert forall|k: Seq<char>| k != key implies #[trigger] seen_count(t2, k) == seen_count(tips, k) by {
        lemma_tip_index_prefix(tips, entry, k, tips.len() as int);
        lemma_tip_index_bounds(tips, k, tips.len() as int);
    }
}

/// Indices in a prefix are unaffected by a push.
pub proof fn lemma_tip_index_prefix(tips: Seq<(&'static str, u32)>, entry: (&'static str, u32), key: Seq<char>, n: int)
    requires
        0 <= n <= tips.len(),
    ensures
        tip_index(tips.push(entry), key, n) == tip_index(tips, key, n),
    decreases n,
{
    if n > 0 {
        lemma_tip_index_prefix(tips, entry, key, n - 1);
    }
}


/// A line holds the (lowercased) search needle in one of its segments.
pub open spec fn line_matches(l: LineView, needle: Seq<char>) -> bool {
    exists|k: int| 0 <= k < l.segments.len() && seq_contains(unicode_lower(#[trigger] l.segments[k].text), needle)
}

/// The indices of the live lines of `lines[..n]` (at or after `committed`)
/// that hold `needle`.
pub open spec fn search_hits(lines: Seq<LineView>, committed: int, needle: Seq<char>, n: int) -> Seq<usize>
    decreases n,
{
    if n <= 0 {
        Seq::empty()
    } else {
        let prev = search_hits(lines, committed, needle, n - 1);
        if n - 1 >= committed && line_matches(lines[n - 1], needle) {
            prev.push((n - 1) as usize)
        } else {
            prev
        }
    }
}

fn segments_hold(segs: &Vec<InlineSegment>, needle: &[char]) -> (r: bool)
    ensures
        r == exists|k: int| 0 <= k < segs@.len() && seq_contains(unicode_lower(#[trigger] segs@[k].text@), needle@),
{
    let mut k: usize = 0;
    while k < segs.len()
        invariant
            k <= segs.len(),
            forall|j: int| 0 <= j < k ==> !seq_contains(unicode_lower(#[trigger] segs@[j].text@), needle@),
        decreases segs.len() - k,
    {
        let low = lowercase(segs[k].text.as_str());
        let cs = chars_of(low.as_str());
        if contains(cs.as_slice(), needle) {
            return true;
        }
        k += 1;
    }
    false
}

/// What moving to the next search match does (see `RenderState::search_next`).
pub open spec fn search_next_ok(old: RenderState, new: RenderState) -> bool {
    &&& new.search_wf()
    &&& new == (RenderState { search: new.search, scroll_offset: new.scroll_offset, ..old })
    &&& new.transcript@ == old.transcript@
    &&& match old.search {
        Some(s) => s.matches@.len() > 0 ==> (new.search matches Some(t) && {
            &&& t.matches@ == s.matches@
            &&& t.query@ == s.query@
            &&& t.current == (s.current + 1) % (s.matches@.len() as int)
            &&& new.scroll_offset == t.matches@[t.current as int]
        }),
        None => true,
    }
    &&& (old.search is None || old.search->0.matches@.len() == 0) ==> {
        &&& new.scroll_offset == old.scroll_offset
        &&& new.search == old.search
    }
}

/// What moving to the previous search match does (see `RenderState::search_prev`).
pub open spec fn search_prev_ok(old: RenderState, new: RenderState) -> bool {
    &&& new.search_wf()
    &&& new == (RenderState { search: new.search, scroll_offset: new.scroll_offset, ..old })
    &&& new.transcript@ == old.transcript@
    &&& match old.search {
        Some(s) => s.matches@.len() > 0 ==> (new.search matches Some(t) && {
            &&& t.matches@ == s.matches@
            &&& t.query@ == s.query@
            &&& t.current == (if s.current == 0 { s.matches@.len() - 1 } else { s.current - 1 })
            &&& new.scroll_offset == t.matches@[t.current as int]
        }),
        None => true,
    }
    &&& (old.search is None || old.search->0.matches@.len() == 0) ==> {
        &&& new.scroll_offset == old.scroll_offset
        &&& new.search == old.search
    }
}

impl RenderState {
    /// Start a transcript search: collect the live lines (at or after the
    /// committed prefix) whose text contains the query, case-insensitively,
    /// and jump to the first match.
    pub fn start_search(&mut self, query: &str)
        ensures
            *final(self) == (RenderState { search: final(self).search, scroll_offset: final(self).scroll_offset, ..*old(self) }),
            final(self).transcript@ == old(self).transcript@,
            final(self).block_display@ == old(self).block_display@,
            final(self).search matches Some(s) && {
                &&& s.query@ == query@
                &&& s.matches@ == search_hits(old(self).lines(), old(self).committed_entries as int, unicode_lower(query@), old(self).lines().len() as int)
                &&& s.current == 0
                &&& final(self).scroll_offset == (if s.matches@.len() > 0 { s.matches@[0] } else { old(self).scroll_offset })
            },
            final(self).search_wf(),
    {
        let low = lowercase(query);
        let needle = chars_of(low.as_str());
        let mut matches: Vec<usize> = Vec::new();
        let mut i: usize = 0;
        while i < self.transcript.len()
            invariant
                i <= self.transcript.len(),
                needle@ == unicode_lower(query@),
                self.transcript@ == old(self).transcript@,
                self.committed_entries == old(self).committed_entries,
                matches@ == search_hits(self.lines(), self.committed_entries as int, needle@, i as int),
            decreases self.transcript.len() - i,
        {
            if i >= self.committed_entries {
                let hit = segments_hold(&self.transcript[i].segments, needle.as_slice());
                proof {
                    let l = self.lines()[i as int];
                    assert(l.segments == segs_view(self.transcript@[i as int].segments@));
                    if hit {
                        let k = choose|k: int| 0 <= k < self.transcript@[i as int].segments@.len() && seq_contains(unicode_lower(#[trigger] self.transcript@[i as int].segments@[k].text@), needle@);
                        assert(l.segments[k].text == self.transcript@[i as int].segments@[k].text@);
                    } else {
                        assert forall|k: int| 0 <= k < l.segments.len() implies !seq_contains(unicode_lower(#[trigger] l.segments[k].text), needle@) by {
                            assert(l.segments[k].text == self.transcript@[i as int].segments@[k].text@);
                        }
                    }
                }
                if hit {
                    matches.push(i);
                }
            }
            i += 1;
        }
        let first = if matches.len() > 0 { Some(matches[0]) } else { None };
        self.search = Some(SearchState { query: String::from_str(query), matches, current: 0 });
        if let Some(f) = first {
            self.scroll_offset = f;
        }
    }

    /// Advance to the next search match, wrapping around; no change without
    /// matches.
    pub fn search_next(&mut self)
        requires
            old(self).search_wf(),
        ensures
            search_next_ok(*old(self), *final(self)),
    {
        match &mut self.search {
            Some(s) => {
                let len = s.matches.len();
                if len > 0 {
                    s.current = (s.current + 1) % len;
                    let line = s.matches[s.current];
                    self.scroll_offset = line;
                }
            },
            None => {},
        }
    }

    /// Go to the previous search match, wrapping around; no change without
    /// matches.
    pub fn search_prev(&mut self)
        requires
            old(self).search_wf(),
        ensures
            search_prev_ok(*old(self), *final(self)),
    {
        match &mut self.search {
            Some(s) => {
                let len = s.matches.len();
                if len > 0 {
                    if s.current == 0 {
                        s.current = len - 1;
                    } else {
                        s.current = s.current - 1;
                    }
                    let line = s.matches[s.current];
                    self.scroll_offset = line;
                }
            },
            None => {},
        }
    }
}


/// A command from the harness to the renderer.
pub enum InlineCommand {
    /// Append lines in the last block of the same kind (or a new one).
    AppendLine { kind: InlineMessageKind, segments: Vec<InlineSegment> },
    /// Append a streaming delta to the active line.
    Inline { kind: InlineMessageKind, segment: InlineSegment },
    /// A new streamed message opens.
    BeginStream,
    /// The streamed message finalized.
    EndStream,
    /// Append lines that open a new block.
    AppendLineBlockStart { kind: InlineMessageKind, segments: Vec<InlineSegment> },
    /// Re-render the streamed block from its anchor.
    ReplaceLast { kind: InlineMessageKind, lines: Vec<Vec<InlineSegment>> },
    /// Append a pasted message as plain text.
    AppendPastedMessage { kind: InlineMessageKind, text: String },
    SetPrompt { prefix: String },
    SetPlaceholder { hint: Option<String> },
    SetHeaderContext { provider: String, model: String },
    SetInputStatus,
    SetInputEnabled(bool),
    SetCursorVisible(bool),
    ForceRedraw,
    SetReasoningStage(Option<String>),
    SetQueuedInputs { entries: Vec<String> },
    ShowOverlay { request: OverlayRequest },
    CloseOverlay,
    Shutdown,
}

/// The transcript after a streaming delta whose explicit lines are `rows`
/// (at least one): the first row merges into the last line while a stream
/// is anchored and the kinds match, otherwise it opens a fresh block (and
/// anchors the stream there when nothing is anchored); the other rows join
/// the anchored line's block, or a fresh block when the anchor points past
/// the transcript. Returns lines, allocator, and anchor.
pub open spec fn inline_spec(lines: Seq<LineView>, next: usize, anchor: Option<usize>, kind: InlineMessageKind, rows: Seq<Seq<SegmentView>>) -> (Seq<LineView>, usize, Option<usize>) {
    let (l1, n1, a1) = inline_head_spec(lines, next, anchor, kind, rows[0]);
    let bid = match a1 {
        Some(a) => if a < l1.len() { l1[a as int].block_id } else { n1 },
        None => n1,
    };
    let n2: usize = match a1 {
        Some(a) => if a < l1.len() { n1 } else { (n1 + 1) as usize },
        None => (n1 + 1) as usize,
    };
    (l1 + block_lines(kind, rows.drop_first(), bid), n2, a1)
}

/// The first explicit line of a streaming delta: it merges into the last
/// line while a stream is anchored and the kinds match, otherwise it opens
/// a fresh block (anchoring the stream there when nothing is anchored).
pub open spec fn inline_head_spec(lines: Seq<LineView>, next: usize, anchor: Option<usize>, kind: InlineMessageKind, row: Seq<SegmentView>) -> (Seq<LineView>, usize, Option<usize>) {
    let merge = anchor is Some && lines.len() > 0 && lines.last().kind == kind;
    let l1 = if merge {
        lines.update(lines.len() - 1, LineView { segments: lines.last().segments + row, ..lines.last() })
    } else {
        lines.push(LineView { kind, segments: row, block_id: next })
    };
    let n1: usize = if merge { next } else { (next + 1) as usize };
    let a1 = if merge || anchor is Some { anchor } else { Some(lines.len() as usize) };
    (l1, n1, a1)
}

impl RenderState {
    /// Append a streaming delta to the active line: explicit newlines
    /// finish the current line and open another line in the same block.
    /// The first piece merges into the tail line only while a stream is
    /// anchored, so a new message never mutates history already read.
    /// The first explicit line of a streaming delta (see `inline_head_spec`).
    fn inline_head(&mut self, kind: InlineMessageKind, first: Vec<InlineSegment>)
        requires
            old(self).next_block_id < usize::MAX - 1,
        ensures
            (final(self).lines(), final(self).next_block_id, final(self).stream_anchor)
                == inline_head_spec(old(self).lines(), old(self).next_block_id, old(self).stream_anchor, kind, segs_view(first@)),
            *final(self) == (RenderState {
                transcript: final(self).transcript,
                next_block_id: final(self).next_block_id,
                stream_anchor: final(self).stream_anchor,
                ..*old(self)
            }),
    {
        let streaming = self.stream_anchor.is_some();
        let n = self.transcript.len();
        let merge_ok = streaming && n > 0 && self.transcript[n - 1].kind == kind;
        let ghost l0 = self.lines();
        let ghost fv = segs_view(first@);
        if merge_ok {
            let mut last = self.transcript.pop().unwrap();
            let ghost old_last = last@;
            let mut first = first;
            last.segments.append(&mut first);
            assert(segs_view(last.segments@) =~= old_last.segments + fv);
            self.transcript.push(last);
            assert(self.lines() =~= l0.update(l0.len() - 1, LineView { segments: l0.last().segments + fv, ..l0.last() }));
        } else {
            let bid = self.fresh_block_id();
            if self.stream_anchor.is_none() {
                self.stream_anchor = Some(self.transcript.len());
            }
            let line = TranscriptLine { kind, segments: first, block_id: bid };
            self.transcript.push(line);
            assert(self.lines() =~= l0.push(line@));
        }
    }

    /// Append a streaming delta to the active line: explicit newlines
    /// finish the current line and open another line in the same block.
    /// The first piece merges into the tail line only while a stream is
    /// anchored, so a new message never mutates history already read.
    pub fn inline_segment(&mut self, kind: InlineMessageKind, segment: InlineSegment)
        requires
            old(self).next_block_id < usize::MAX - 1,
        ensures
            ({
                let rows = explicit_lines(seq![segment@]);
                let r = inline_spec(old(self).lines(), old(self).next_block_id, old(self).stream_anchor, kind, rows);
                &&& final(self).lines() == r.0
                &&& final(self).next_block_id == r.1
                &&& final(self).stream_anchor == r.2
            }),
            *final(self) == (RenderState {
                transcript: final(self).transcript,
                next_block_id: final(self).next_block_id,
                stream_anchor: final(self).stream_anchor,
                ..*old(self)
            }),
            final(self).block_display@ == old(self).block_display@,
            final(self).committed_entries == old(self).committed_entries,
    {
        let ghost sv = seq![segment@];
        let mut segs: Vec<InlineSegment> = Vec::new();
        segs.push(segment);
        assert(segs_view(segs@) =~= sv);
        let mut rows = segments_by_explicit_line(segs);
        let ghost rv = rows_view(rows@);
        let first = rows.remove(0);
        assert(rows_view(rows@) =~= rv.drop_first());
        self.inline_head(kind, first);
        let n1 = self.transcript.len();
        let block_id = match self.stream_anchor {
            Some(a) => if a < n1 { self.transcript[a].block_id } else { self.fresh_block_id() },
            None => self.fresh_block_id(),
        };
        self.extend_block(kind, rows, block_id);
    }

    /// Apply one harness command to the render state. Returns `true` when
    /// the harness requested a shutdown.
    #[verifier::spinoff_prover]
    #[verifier::rlimit(60)]
    pub fn apply_command(&mut self, cmd: InlineCommand) -> (shutdown: bool)
        requires
            old(self).next_block_id < usize::MAX - 1,
            cmd matches InlineCommand::ReplaceLast { lines, .. } ==> old(self).next_block_id + lines@.len() < usize::MAX,
        ensures
            shutdown == (cmd is Shutdown),
            final(self).block_display@ == old(self).block_display@,
            match cmd {
                InlineCommand::AppendLine { kind, segments } =>
                    (final(self).lines(), final(self).next_block_id) == append_spec(old(self).lines(), old(self).next_block_id, kind, segs_view(segments@))
                    && *final(self) == (RenderState { transcript: final(self).transcript, next_block_id: final(self).next_block_id, ..*old(self) }),
                InlineCommand::Inline { kind, segment } => ({
                    let r = inline_spec(old(self).lines(), old(self).next_block_id, old(self).stream_anchor, kind, explicit_lines(seq![segment@]));
                    &&& final(self).lines() == r.0 && final(self).next_block_id == r.1 && final(self).stream_anchor == r.2
                    &&& *final(self) == (RenderState {
                        transcript: final(self).transcript,
                        next_block_id: final(self).next_block_id,
                        stream_anchor: final(self).stream_anchor,
                        ..*old(self)
                    })
                }),
                InlineCommand::BeginStream | InlineCommand::EndStream =>
                    *final(self) == (RenderState { stream_anchor: None, ..*old(self) }),
                InlineCommand::AppendLineBlockStart { kind, segments } =>
                    final(self).lines() == old(self).lines() + block_lines(kind, explicit_lines(segs_view(segments@)), old(self).next_block_id)
                    && final(self).next_block_id == old(self).next_block_id + 1
                    && *final(self) == (RenderState { transcript: final(self).transcript, next_block_id: final(self).next_block_id, ..*old(self) }),
                InlineCommand::ReplaceLast { kind, lines } => ({
                    let from = match old(self).stream_anchor { Some(a) => a as int, None => old(self).lines().len() as int };
                    let kept = if from < old(self).lines().len() { old(self).lines().take(from) } else { old(self).lines() };
                    let r = append_all(kept, old(self).next_block_id, kind, rows_view(lines@));
                    &&& final(self).lines() == r.0
                    &&& final(self).next_block_id == r.1
                    &&& final(self).stream_anchor == Some(from as usize)
                    &&& *final(self) == (RenderState {
                        transcript: final(self).transcript,
                        next_block_id: final(self).next_block_id,
                        stream_anchor: final(self).stream_anchor,
                        ..*old(self)
                    })
                }),
                InlineCommand::AppendPastedMessage { kind, text } =>
                    (final(self).lines(), final(self).next_block_id) == append_spec(old(self).lines(), old(self).next_block_id, kind, seq![SegmentView { text: text@, style: InlineTextStyle::plain_spec() }])
                    && *final(self) == (RenderState { transcript: final(self).transcript, next_block_id: final(self).next_block_id, ..*old(self) }),
                InlineCommand::SetPrompt { prefix } => *final(self) == (RenderState { prompt_prefix: prefix, ..*old(self) }),
                InlineCommand::SetPlaceholder { hint } => *final(self) == (RenderState { placeholder: hint, ..*old(self) }),
                InlineCommand::SetHeaderContext { provider, model } =>
                    *final(self) == (RenderState { header_provider: provider, header_model: model, ..*old(self) }),
                InlineCommand::SetInputEnabled(e) => *final(self) == (RenderState { input_enabled: e, ..*old(self) }),
                InlineCommand::SetReasoningStage(st) => *final(self) == (RenderState { reasoning_stage: st, ..*old(self) }),
                InlineCommand::SetQueuedInputs { entries } => *final(self) == (RenderState { queued_inputs: entries, ..*old(self) }),
                InlineCommand::ShowOverlay { request } => {
                    &&& final(self).overlay matches Some(o) && materialized(request, o)
                    &&& final(self).settings_map_rows@.len() == 0
                    &&& *final(self) == (RenderState { overlay: final(self).overlay, settings_map_rows: final(self).settings_map_rows, ..*old(self) })
                },
                InlineCommand::CloseOverlay => *final(self) == (RenderState { overlay: None, ..*old(self) }),
                InlineCommand::Shutdown => *final(self) == (RenderState { shutdown_requested: true, ..*old(self) }),
                _ => *final(self) == *old(self),
            },
    {
        match cmd {
            InlineCommand::AppendLine { kind, segments } => {
                self.append_line(kind, segments);
            },
            InlineCommand::Inline { kind, segment } => {
                self.inline_segment(kind, segment);
            },
            InlineCommand::BeginStream => {
                self.stream_anchor = None;
            },
            InlineCommand::EndStream => {
                self.stream_anchor = None;
            },
            InlineCommand::AppendLineBlockStart { kind, segments } => {
                self.append_line_new_block(kind, segments);
            },
            InlineCommand::ReplaceLast { kind, lines } => {
                let from = match self.stream_anchor {
                    Some(a) => a,
                    None => self.transcript.len(),
                };
                self.transcript.truncate(from);
                let ghost kept = self.lines();
                let ghost rv = rows_view(lines@);
                let ghost total = lines@;
                assert(kept == (if (from as int) < old(self).lines().len() { old(self).lines().take(from as int) } else { old(self).lines() }));
                let mut lines = lines;
                let mut k: usize = 0;
                let n = lines.len();
                assert(append_all(kept, self.next_block_id, kind, rv.take(0)) == (kept, self.next_block_id));
                while lines.len() > 0
                    invariant
                        k <= n,
                        n == total.len(),
                        lines@ == total.skip(k as int),
                        rv == rows_view(total),
                        old(self).next_block_id + n < usize::MAX,
                        self.next_block_id <= old(self).next_block_id + k,
                        (self.lines(), self.next_block_id) == append_all(kept, old(self).next_block_id, kind, rv.take(k as int)),
                        self.block_display@ == old(self).block_display@,
                        *self == (RenderState { transcript: self.transcript, next_block_id: self.next_block_id, ..*old(self) }),
                    decreases lines.len(),
                {
                    let row = lines.remove(0);
                    proof {
                        assert(row == total[k as int]);
                        assert(lines@ =~= total.skip(k + 1));
                        assert(rv.take(k + 1).drop_last() =~= rv.take(k as int));
                        assert(rv.take(k + 1).last() == segs_view(row@));
                    }
                    self.append_line(kind, row);
                    k += 1;
                }
                assert(rv.take(n as int) =~= rv);
                self.stream_anchor = Some(from);
            },
            InlineCommand::AppendPastedMessage { kind, text } => {
                let mut segs: Vec<InlineSegment> = Vec::new();
                let seg = InlineSegment { text, style: InlineTextStyle::plain() };
                segs.push(seg);
                assert(segs_view(segs@) =~= seq![seg@]);
                self.append_line(kind, segs);
            },
            InlineCommand::SetPrompt { prefix } => {
                self.prompt_prefix = prefix;
            },
            InlineCommand::SetPlaceholder { hint } => {
                self.placeholder = hint;
            },
            InlineCommand::SetHeaderContext { provider, model } => {
                self.header_provider = provider;
                self.header_model = model;
            },
            InlineCommand::SetInputStatus => {},
            InlineCommand::SetInputEnabled(enabled) => {
                self.input_enabled = enabled;
            },
            InlineCommand::SetCursorVisible(_) => {},
            InlineCommand::ForceRedraw => {},
            InlineCommand::SetReasoningStage(stage) => {
                self.reasoning_stage = stage;
            },
            InlineCommand::SetQueuedInputs { entries } => {
                self.queued_inputs = entries;
            },
            InlineCommand::ShowOverlay { request } => {
                self.overlay = Some(materialize_overlay(request));
                self.settings_map_rows = Vec::new();
            },
            InlineCommand::CloseOverlay => {
                self.overlay = None;
            },
            InlineCommand::Shutdown => {
                self.shutdown_requested = true;
                return true;
            },
        }
        false
    }
}

} // verus!
