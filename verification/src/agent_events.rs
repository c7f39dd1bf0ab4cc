//! How the agent's events reach the transcript: every event updates the
//! render state and yields the commands that draw it, in order.
use vstd::prelude::*;

use crate::numfmt::{decimal, push_decimal};
use crate::render_state::{InlineCommand, RenderState, RunState};
use crate::prompt_queue::PromptQueue;
use crate::render_state::append_spec;
use crate::text::{ascii_lower_seq, chars_of, lower_chars, push_str, string_of, trim, trimmed};
use crate::provider::{is_missing_api_key_error, missing_key_message, provider_from_model_id, provider_of};
use crate::render_state::SecureInputOrigin;
use crate::secure::{is_key_prompt, key_origin_provider};
use crate::tool_box::{box_rows, divider_text, repeat, sat_sub, tool_box_bottom, tool_box_divider, tool_box_rows, tool_box_top};
use crate::tool_output::{
    args_preview, command_entry, diff_rows, diff_rows_spec, dim_style,
    extract_generated_png, generated_png, preview_of, preview_tool_result, tool_args_preview, ToolArgs,
};
use crate::transcript::{
    plain_segment, segs_view, split_at_newlines, split_lines, Color, InlineMessageKind, InlineSegment,
    InlineTextStyle, SegmentView,
};

verus! {

/// Reads the clock (`Instant::now`); nothing is stated of the value.
#[verifier::external_body]
fn instant_now() -> std::time::Instant {
    std::time::Instant::now()
}

impl RunState {
    /// A run that starts now, with no request or tool call yet.
    pub fn new() -> (r: Self)
        ensures
            r.turn == 0 && r.tool_calls == 0,
    {
        RunState { started_at: instant_now(), turn: 0, tool_calls: 0 }
    }
}

/// The colors a tool box is drawn in, resolved from the active theme.
#[derive(Debug, Clone, Copy, PartialEq, Eq, Structural)]
pub struct ToolPalette {
    /// Border of a tool box.
    pub border: Color,
    /// Border of a failed tool call.
    pub error: Color,
    /// Added diff lines.
    pub added: Option<Color>,
    /// Removed diff lines.
    pub removed: Option<Color>,
}

/// The authoritative final text of an assistant message: its reasoning
/// blocks joined, and its answer text.
#[derive(Debug, PartialEq, Eq)]
pub struct AssistantFinal {
    pub thinking: String,
    pub text: String,
}

/// The agent events the transcript reacts to, holding what it reads of
/// them.
#[derive(Debug, PartialEq, Eq)]
pub enum AgentEvent {
    TextChunk { text: String },
    AgentStart,
    MessageStart,
    /// A streamed piece of the answer.
    TextDelta(String),
    /// A streamed piece of reasoning.
    ThinkingDelta(String),
    /// The stream asks for a full re-render.
    StreamSync,
    /// The message finished; `assistant` is its final text when it is an
    /// assistant message.
    MessageEnd { assistant: Option<AssistantFinal> },
    ToolExecutionStart { tool_name: String, args: ToolArgs },
    ToolExecutionEnd { tool_name: String, content: String, is_error: bool },
    Error { message: String },
    Cancelled,
    AutoRetryStart { attempt: u32, max_attempts: u32 },
    TurnEnd,
    Usage { input_tokens: usize },
    AgentEnd,
    /// The agent was reminded of open todo items (their contents).
    TodoReminder { open: Vec<String>, attempt: u32, max: u32 },
    /// Events that draw nothing.
    Other,
}

/// One thing handling an event asks for, in order.
pub enum AgentEffect {
    /// A command for the transcript (see `RenderState::apply_command`).
    Command(InlineCommand),
    /// Re-render the streamed message from this snapshot: reasoning text,
    /// answer text, and reveal point.
    Repaint { thinking: String, message: String, reveal: usize },
    /// A desktop notification that the response is complete.
    Notify,
    /// Show this generated image over the tool box.
    ImagePreview(Vec<u8>),
}

/// The value of an effect.
pub enum EffectView {
    Append { kind: InlineMessageKind, segs: Seq<SegmentView>, new_block: bool },
    Inline { kind: InlineMessageKind, seg: SegmentView },
    BeginStream,
    EndStream,
    Stage(Option<Seq<char>>),
    InputEnabled(bool),
    InputStatus,
    Repaint { thinking: Seq<char>, message: Seq<char>, reveal: usize },
    Notify,
    Image(Seq<u8>),
    Other,
}

pub open spec fn effect_view(e: AgentEffect) -> EffectView {
    match e {
        AgentEffect::Command(c) => match c {
            InlineCommand::AppendLine { kind, segments } =>
                EffectView::Append { kind, segs: segs_view(segments@), new_block: false },
            InlineCommand::AppendLineBlockStart { kind, segments } =>
                EffectView::Append { kind, segs: segs_view(segments@), new_block: true },
            InlineCommand::Inline { kind, segment } => EffectView::Inline { kind, seg: segment@ },
            InlineCommand::BeginStream => EffectView::BeginStream,
            InlineCommand::EndStream => EffectView::EndStream,
            InlineCommand::SetReasoningStage(st) => EffectView::Stage(match st {
                Some(t) => Some(t@),
                None => None,
            }),
            InlineCommand::SetInputEnabled(b) => EffectView::InputEnabled(b),
            InlineCommand::SetInputStatus => EffectView::InputStatus,
            _ => EffectView::Other,
        },
        AgentEffect::Repaint { thinking, message, reveal } =>
            EffectView::Repaint { thinking: thinking@, message: message@, reveal },
        AgentEffect::Notify => EffectView::Notify,
        AgentEffect::ImagePreview(png) => EffectView::Image(png@),
    }
}

pub open spec fn effects_view(es: Seq<AgentEffect>) -> Seq<EffectView> {
    es.map_values(|e: AgentEffect| effect_view(e))
}

/// Rows appended as `kind`, one effect each.
pub open spec fn appends(kind: InlineMessageKind, rows: Seq<Seq<SegmentView>>) -> Seq<EffectView> {
    rows.map_values(|r: Seq<SegmentView>| EffectView::Append { kind, segs: r, new_block: false })
}

/// A tool box is as wide as the live content, and at least 24 cells.
pub open spec fn box_width(content_w: usize) -> int {
    if content_w >= 24 { content_w as int } else { 24 }
}

/// The header of a tool call's box: `$ <command>` for shell tools,
/// otherwise the tool name and its argument preview.
pub open spec fn tool_header(name: Seq<char>, args: ToolArgs) -> Seq<char> {
    let cmd = match args {
        ToolArgs::Object(m) => command_entry(m@),
        _ => None,
    };
    match cmd {
        Some(c) => "$ "@ + c,
        None => {
            let p = args_preview(args);
            if p.len() == 0 { name } else { name + "  "@ + p }
        },
    }
}

/// At most this many lines of a plain tool result are boxed.
pub const MAX_BOX_LINES: usize = 12;

/// The `… +N lines` note for `n` hidden lines.
pub open spec fn more_lines(n: nat) -> Seq<char> {
    "\u{2026} +"@ + decimal(n) + " lines"@
}

/// What a finished tool call draws between its divider and its bottom
/// border: a generated image, a colored diff, or the first 12 lines of its
/// (bounded) output with a note on the rest.
pub open spec fn tool_body(name: Seq<char>, content: Seq<char>, is_error: bool, pal: ToolPalette, w: int) -> Seq<EffectView> {
    let border = if is_error { pal.error } else { pal.border };
    let png = if name == "generate_image"@ && !is_error { generated_png(content) } else { None };
    match png {
        Some(d) => seq![EffectView::Image(d)],
        None => match diff_rows_spec(content, pal.added, pal.removed) {
            Some(rows) => rows.map_values(
                |r: (Seq<char>, InlineTextStyle)| appends(InlineMessageKind::Tool, box_rows(r.0, w, r.1, border)),
            ).flatten(),
            None => {
                let ls = split_lines(preview_of(content));
                let shown = if ls.len() <= MAX_BOX_LINES { ls } else { ls.take(MAX_BOX_LINES as int) };
                let main = shown.map_values(
                    |l: Seq<char>| appends(InlineMessageKind::Tool, box_rows(l, w, dim_style(), border)),
                ).flatten();
                if ls.len() > MAX_BOX_LINES {
                    main + appends(InlineMessageKind::Tool, box_rows(more_lines((ls.len() - MAX_BOX_LINES) as nat), w, dim_style(), border))
                } else {
                    main
                }
            },
        },
    }
}

/// The stage label is exactly `s`.
pub open spec fn stage_is(st: Option<String>, s: Seq<char>) -> bool {
    st matches Some(x) && x@ == s
}

/// The header of a todo reminder.
pub open spec fn reminder_header(n: nat, attempt: u32, max: u32) -> Seq<char> {
    "\u{26A0} "@ + decimal(n) + " incomplete todo"@ + (if n == 1 { ""@ } else { "s"@ }) + " \u{2014} reminder "@
        + decimal(attempt as nat) + "/"@ + decimal(max as nat)
}

/// Appends `rows` as lines of `kind`.
fn push_rows(fx: &mut Vec<AgentEffect>, kind: InlineMessageKind, rows: &Vec<Vec<InlineSegment>>)
    ensures
        effects_view(final(fx)@) == effects_view(old(fx)@) + appends(kind, crate::transcript::rows_view(rows@)),
{
    let ghost all = crate::transcript::rows_view(rows@);
    let ghost start = effects_view(fx@);
    let mut i: usize = 0;
    while i < rows.len()
        invariant
            i <= rows@.len(),
            all == crate::transcript::rows_view(rows@),
            effects_view(fx@) == start + appends(kind, all.take(i as int)),
        decreases rows@.len() - i,
    {
        let segs = crate::transcript::clone_segments(&rows[i]);
        let ghost before = fx@;
        fx.push(AgentEffect::Command(InlineCommand::AppendLine { kind, segments: segs }));
        assert(effects_view(fx@) =~= effects_view(before).push(EffectView::Append { kind, segs: all[i as int], new_block: false }));
        i += 1;
        assert(all.take(i as int) =~= all.take(i - 1).push(all[i - 1]));
        assert(effects_view(fx@) =~= start + appends(kind, all.take(i as int)));
    }
    assert(all.take(rows@.len() as int) =~= all);
}

/// Appends the rows of `text` boxed at width `w` as tool lines.
fn push_box(fx: &mut Vec<AgentEffect>, text: &str, w: usize, style: InlineTextStyle, border: Color)
    ensures
        effects_view(final(fx)@) == effects_view(old(fx)@) + appends(InlineMessageKind::Tool, box_rows(text@, w as int, style, border)),
{
    let rows = tool_box_rows(text, w, style, border);
    push_rows(fx, InlineMessageKind::Tool, &rows);
}

/// Pushes one command.
fn push_cmd(fx: &mut Vec<AgentEffect>, c: InlineCommand)
    ensures
        final(fx)@ == old(fx)@.push(AgentEffect::Command(c)),
{
    fx.push(AgentEffect::Command(c));
}

/// The stage label while the answer is produced.
pub open spec fn generating() -> Seq<char> {
    "generating response"@
}

/// The effects of a finished tool call, from its divider to the re-enabled
/// input.
pub open spec fn tool_end_effects(name: Seq<char>, content: Seq<char>, is_error: bool, pal: ToolPalette, content_w: usize) -> Seq<EffectView> {
    let w = box_width(content_w);
    let border = if is_error { pal.error } else { pal.border };
    let label = if is_error { "Error"@ } else { "Output"@ };
    seq![EffectView::Append {
        kind: InlineMessageKind::Tool,
        segs: seq![SegmentView { text: divider_text(label, w), style: crate::tool_box::border_style(border) }],
        new_block: false,
    }] + tool_body(name, content, is_error, pal, w) + seq![
        EffectView::Append {
            kind: InlineMessageKind::Tool,
            segs: seq![SegmentView {
                text: seq!['\u{2570}'] + repeat('\u{2500}', sat_sub(w, 2)) + seq!['\u{256F}'],
                style: crate::tool_box::border_style(border),
            }],
            new_block: false,
        },
        EffectView::Stage(Some(generating())),
        EffectView::InputEnabled(true),
    ]
}

/// The effects of a starting tool call: the top border opening a new
/// block, the boxed header, and the stage label.
pub open spec fn tool_start_effects(name: Seq<char>, args: ToolArgs, pal: ToolPalette, content_w: usize) -> Seq<EffectView> {
    let w = box_width(content_w);
    seq![EffectView::Append {
        kind: InlineMessageKind::Tool,
        segs: seq![SegmentView {
            text: seq!['\u{256D}'] + repeat('\u{2500}', sat_sub(w, 2)) + seq!['\u{256E}'],
            style: crate::tool_box::border_style(pal.border),
        }],
        new_block: true,
    }] + appends(InlineMessageKind::Tool, box_rows(tool_header(name, args), w, InlineTextStyle::plain_spec(), pal.border))
        + seq![EffectView::Stage(Some("tool: "@ + name))]
}

impl RenderState {
    /// Handles a starting tool call.
    #[verifier::spinoff_prover]
    #[verifier::rlimit(60)]
    fn tool_started(&mut self, tool_name: String, args: ToolArgs, pal: ToolPalette, content_w: usize) -> (fx: Vec<AgentEffect>)
        requires
            old(self).active_run matches Some(r) ==> r.tool_calls < u32::MAX,
        ensures
            effects_view(fx@) == tool_start_effects(tool_name@, args, pal, content_w),
            stage_is(final(self).reasoning_stage, "tool: "@ + tool_name@),
            match old(self).active_run {
                Some(r) => final(self).active_run matches Some(f) && f.tool_calls == r.tool_calls + 1
                    && f.turn == r.turn && f.started_at == r.started_at,
                None => final(self).active_run is None,
            },
            *final(self) == (RenderState {
                reasoning_stage: final(self).reasoning_stage,
                active_run: final(self).active_run,
                ..*old(self)
            }),
    {
        let w: usize = if content_w >= 24 { content_w } else { 24 };
        let header = match &args {
            ToolArgs::Object(m) => match crate::tool_output::command_of_entries(m) {
                Some(c) => {
                    let mut h = String::from_str("$ ");
                    push_str(&mut h, c.as_str());
                    Some(h)
                },
                None => None,
            },
            _ => None,
        };
        let header = match header {
            Some(h) => h,
            None => {
                let preview = tool_args_preview(&args);
                if preview.as_str().is_empty() {
                    tool_name.clone()
                } else {
                    let mut h = tool_name.clone();
                    push_str(&mut h, "  ");
                    push_str(&mut h, preview.as_str());
                    h
                }
            },
        };
        assert(header@ == tool_header(tool_name@, args));
        let mut fx: Vec<AgentEffect> = Vec::new();
        fx.push(AgentEffect::Command(InlineCommand::AppendLineBlockStart {
            kind: InlineMessageKind::Tool,
            segments: tool_box_top(w, pal.border),
        }));
        push_box(&mut fx, header.as_str(), w, InlineTextStyle::plain(), pal.border);
        let mut stage = String::from_str("tool: ");
        push_str(&mut stage, tool_name.as_str());
        let stage2 = stage.clone();
        match &mut self.active_run {
            Some(run) => {
                run.tool_calls = run.tool_calls + 1;
            },
            None => {},
        }
        self.reasoning_stage = Some(stage);
        let ghost before = fx@;
        push_cmd(&mut fx, InlineCommand::SetReasoningStage(Some(stage2)));
        assert(effects_view(fx@) =~= effects_view(before).push(EffectView::Stage(Some("tool: "@ + tool_name@))));
        assert(effects_view(fx@) =~= tool_start_effects(tool_name@, args, pal, content_w));
        fx
    }
}

impl RenderState {
    /// Handles a finished tool call.
    fn tool_ended(&mut self, tool_name: String, content: String, is_error: bool, pal: ToolPalette, content_w: usize) -> (fx: Vec<AgentEffect>)
        ensures
            effects_view(fx@) == tool_end_effects(tool_name@, content@, is_error, pal, content_w),
            stage_is(final(self).reasoning_stage, generating()),
            *final(self) == (RenderState { reasoning_stage: final(self).reasoning_stage, ..*old(self) }),
    {
        let w: usize = if content_w >= 24 { content_w } else { 24 };
        let border = if is_error { pal.error } else { pal.border };
        let label = if is_error { "Error" } else { "Output" };
        let mut fx: Vec<AgentEffect> = Vec::new();
        fx.push(AgentEffect::Command(InlineCommand::AppendLine {
            kind: InlineMessageKind::Tool,
            segments: tool_box_divider(label, w, border),
        }));
        let ghost head = effects_view(fx@);
        let is_image_tool = crate::text::str_eq(tool_name.as_str(), "generate_image");
        let png = if is_image_tool && !is_error { extract_generated_png(content.as_str()) } else { None };
        let ghost body = tool_body(tool_name@, content@, is_error, pal, w as int);
        match png {
            Some(d) => {
                fx.push(AgentEffect::ImagePreview(d));
                assert(effects_view(fx@) =~= head + body);
            },
            None => match diff_rows(content.as_str(), pal.added, pal.removed) {
                Some(rows) => {
                    let ghost rv = crate::tool_output::styled_view(rows@);
                    let ghost per = rv.map_values(
                        |r: (Seq<char>, InlineTextStyle)| appends(InlineMessageKind::Tool, box_rows(r.0, w as int, r.1, border)),
                    );
                    let mut i: usize = 0;
                    while i < rows.len()
                        invariant
                            i <= rows@.len(),
                            rv == crate::tool_output::styled_view(rows@),
                            per == rv.map_values(
                                |r: (Seq<char>, InlineTextStyle)| appends(InlineMessageKind::Tool, box_rows(r.0, w as int, r.1, border)),
                            ),
                            effects_view(fx@) == head + per.take(i as int).flatten(),
                        decreases rows@.len() - i,
                    {
                        push_box(&mut fx, rows[i].0.as_str(), w, rows[i].1, border);
                        proof {
                            assert(per.take(i + 1) =~= per.take(i as int).push(per[i as int]));
                            per.take(i as int).lemma_flatten_push(per[i as int]);
                        }
                        i += 1;
                    }
                    assert(per.take(rows@.len() as int) =~= per);
                },
                None => {
                    let preview = preview_tool_result(content.as_str());
                    let parts = split_at_newlines(preview.as_str());
                    let ghost ls = parts@.map_values(|p: Vec<char>| p@);
                    let shown: usize = if parts.len() <= MAX_BOX_LINES { parts.len() } else { MAX_BOX_LINES };
                    let ghost sh = if ls.len() <= MAX_BOX_LINES { ls } else { ls.take(MAX_BOX_LINES as int) };
                    let ghost per = sh.map_values(
                        |l: Seq<char>| appends(InlineMessageKind::Tool, box_rows(l, w as int, dim_style(), border)),
                    );
                    let dim = InlineTextStyle { color: None, bold: false, italic: false, dimmed: true, strikethrough: false };
                    let mut i: usize = 0;
                    while i < shown
                        invariant
                            i <= shown <= parts@.len(),
                            shown as int == sh.len(),
                            ls == parts@.map_values(|p: Vec<char>| p@),
                            sh == (if ls.len() <= MAX_BOX_LINES { ls } else { ls.take(MAX_BOX_LINES as int) }),
                            per == sh.map_values(
                                |l: Seq<char>| appends(InlineMessageKind::Tool, box_rows(l, w as int, dim_style(), border)),
                            ),
                            dim == dim_style(),
                            effects_view(fx@) == head + per.take(i as int).flatten(),
                        decreases shown - i,
                    {
                        let line = crate::text::string_of(parts[i].as_slice());
                        assert(line@ == sh[i as int]);
                        push_box(&mut fx, line.as_str(), w, dim, border);
                        proof {
                            assert(per.take(i + 1) =~= per.take(i as int).push(per[i as int]));
                            per.take(i as int).lemma_flatten_push(per[i as int]);
                        }
                        i += 1;
                    }
                    assert(per.take(shown as int) =~= per);
                    if parts.len() > MAX_BOX_LINES {
                        let mut more = String::from_str("\u{2026} +");
                        push_decimal(&mut more, (parts.len() - MAX_BOX_LINES) as u64);
                        push_str(&mut more, " lines");
                        push_box(&mut fx, more.as_str(), w, dim, border);
                    }
                    assert(effects_view(fx@) =~= head + body);
                },
            },
        }
        let ghost mid = fx@;
        assert(effects_view(mid) == head + body);
        let bottom = tool_box_bottom(w, border);
        let ghost bview = segs_view(bottom@);
        fx.push(AgentEffect::Command(InlineCommand::AppendLine {
            kind: InlineMessageKind::Tool,
            segments: bottom,
        }));
        self.reasoning_stage = Some(String::from_str("generating response"));
        push_cmd(&mut fx, InlineCommand::SetReasoningStage(Some(String::from_str("generating response"))));
        push_cmd(&mut fx, InlineCommand::SetInputEnabled(true));
        proof {
            reveal_strlit("generating response");
            reveal_strlit("Error");
            reveal_strlit("Output");
            let tail = seq![
                EffectView::Append { kind: InlineMessageKind::Tool, segs: bview, new_block: false },
                EffectView::Stage(Some(generating())),
                EffectView::InputEnabled(true),
            ];
            assert(effects_view(fx@) =~= effects_view(mid) + tail);
            assert(w as int == box_width(content_w));
        }
        assert(effects_view(fx@) =~= tool_end_effects(tool_name@, content@, is_error, pal, content_w));
        fx
    }
}

/// The repaint of the streamed message as it stands in `s`.
pub open spec fn repaint_of(s: RenderState) -> EffectView {
    EffectView::Repaint { thinking: s.thinking_buffer@, message: s.message_buffer@, reveal: s.stream_reveal }
}

/// `new` and the effects `fx` are what handling event `e` makes of `old`,
/// with tool boxes in `pal` at a live content width of `content_w`.
pub open spec fn handled(old: RenderState, new: RenderState, e: AgentEvent, pal: ToolPalette, content_w: usize, fx: Seq<EffectView>) -> bool {
    match e {
        AgentEvent::TextChunk { text } => {
            &&& stage_is(new.reasoning_stage, generating())
            &&& new.message_buffer@ == old.message_buffer@ + text@
            &&& new == (RenderState { reasoning_stage: new.reasoning_stage, message_buffer: new.message_buffer, ..old })
            &&& fx == seq![EffectView::Inline { kind: InlineMessageKind::Agent, seg: SegmentView { text: text@, style: InlineTextStyle::plain_spec() } }]
        },
        AgentEvent::AgentStart => {
            &&& new.active_run matches Some(r) && r.turn == 0 && r.tool_calls == 0
            &&& new == (RenderState { active_run: new.active_run, ..old })
            &&& fx.len() == 0
        },
        AgentEvent::MessageStart => {
            &&& match old.active_run {
                Some(r) => new.active_run matches Some(f) && f.turn == r.turn + 1 && f.tool_calls == r.tool_calls && f.started_at == r.started_at,
                None => new.active_run is None,
            }
            &&& stage_is(new.reasoning_stage, generating())
            &&& new.message_buffer@.len() == 0 && new.thinking_buffer@.len() == 0
            &&& new == (RenderState {
                active_run: new.active_run,
                reasoning_stage: new.reasoning_stage,
                message_buffer: new.message_buffer,
                thinking_buffer: new.thinking_buffer,
                stream_reveal: 0,
                ..old
            })
            &&& fx == seq![EffectView::BeginStream]
        },
        AgentEvent::TextDelta(t) => {
            &&& stage_is(new.reasoning_stage, generating())
            &&& new.message_buffer@ == old.message_buffer@ + t@
            &&& new == (RenderState { reasoning_stage: new.reasoning_stage, message_buffer: new.message_buffer, ..old })
            &&& fx == seq![repaint_of(new)]
        },
        AgentEvent::ThinkingDelta(t) => {
            &&& stage_is(new.reasoning_stage, "thinking\u{2026}"@)
            &&& new.thinking_buffer@ == old.thinking_buffer@ + t@
            &&& new == (RenderState { reasoning_stage: new.reasoning_stage, thinking_buffer: new.thinking_buffer, ..old })
            &&& fx == seq![repaint_of(new)]
        },
        AgentEvent::StreamSync => if old.message_buffer@.len() > 0 || old.thinking_buffer@.len() > 0 {
            &&& new.message_buffer@.len() == 0 && new.thinking_buffer@.len() == 0
            &&& new == (RenderState { message_buffer: new.message_buffer, thinking_buffer: new.thinking_buffer, stream_reveal: 0, ..old })
            &&& fx == seq![repaint_of(old)]
        } else {
            new == old && fx.len() == 0
        },
        AgentEvent::MessageEnd { assistant } => {
            let stage = if old.active_run is None { None } else { old.reasoning_stage };
            let thinking = match assistant { Some(a) => a.thinking@, None => old.thinking_buffer@ };
            let message = match assistant { Some(a) => a.text@, None => old.message_buffer@ };
            let reveal = match assistant { Some(_) => usize::MAX, None => old.stream_reveal };
            let paint = message.len() > 0 || thinking.len() > 0;
            &&& new.reasoning_stage == stage
            &&& new.stream_reveal == reveal
            &&& (if paint { new.thinking_buffer@.len() == 0 && new.message_buffer@.len() == 0 } else {
                new.thinking_buffer@ == thinking && new.message_buffer@ == message
            })
            &&& new == (RenderState {
                reasoning_stage: new.reasoning_stage,
                thinking_buffer: new.thinking_buffer,
                message_buffer: new.message_buffer,
                stream_reveal: new.stream_reveal,
                ..old
            })
            &&& fx == (if paint {
                seq![EffectView::Repaint { thinking, message, reveal }, EffectView::EndStream]
            } else {
                seq![EffectView::EndStream]
            })
        },
        AgentEvent::ToolExecutionStart { tool_name, args } => {
            &&& stage_is(new.reasoning_stage, "tool: "@ + tool_name@)
            &&& match old.active_run {
                Some(r) => new.active_run matches Some(f) && f.tool_calls == r.tool_calls + 1
                    && f.turn == r.turn && f.started_at == r.started_at,
                None => new.active_run is None,
            }
            &&& new == (RenderState { reasoning_stage: new.reasoning_stage, active_run: new.active_run, ..old })
            &&& fx == tool_start_effects(tool_name@, args, pal, content_w)
        },
        AgentEvent::ToolExecutionEnd { tool_name, content, is_error } => {
            &&& stage_is(new.reasoning_stage, generating())
            &&& new == (RenderState { reasoning_stage: new.reasoning_stage, ..old })
            &&& fx == tool_end_effects(tool_name@, content@, is_error, pal, content_w)
        },
        AgentEvent::Error { message } => {
            &&& new == (RenderState { active_run: None, reasoning_stage: None, ..old })
            &&& fx == seq![
                EffectView::Append {
                    kind: InlineMessageKind::Error,
                    segs: seq![SegmentView { text: message@, style: InlineTextStyle::plain_spec() }],
                    new_block: false,
                },
                EffectView::InputEnabled(true),
                EffectView::InputStatus,
            ]
        },
        AgentEvent::Cancelled => {
            &&& new == (RenderState { active_run: None, reasoning_stage: None, ..old })
            &&& fx == seq![EffectView::InputEnabled(true), EffectView::InputStatus]
        },
        AgentEvent::AutoRetryStart { attempt, max_attempts } => {
            &&& stage_is(new.reasoning_stage, "retrying "@ + decimal(attempt as nat) + " of "@ + decimal(max_attempts as nat))
            &&& new == (RenderState { reasoning_stage: new.reasoning_stage, ..old })
            &&& fx == seq![EffectView::InputStatus]
        },
        AgentEvent::TurnEnd => {
            &&& new.queued_inputs@ == (if old.queued_inputs@.len() > 0 { old.queued_inputs@.drop_first() } else { old.queued_inputs@ })
            &&& new == (RenderState { queued_inputs: new.queued_inputs, ..old })
            &&& fx == (if old.active_run is None {
                seq![EffectView::Notify, EffectView::Stage(None)]
            } else {
                seq![EffectView::Notify]
            })
        },
        AgentEvent::Usage { input_tokens } => {
            &&& new == (RenderState { context_tokens: Some(input_tokens), ..old })
            &&& fx.len() == 0
        },
        AgentEvent::AgentEnd => {
            &&& new == (RenderState { active_run: None, reasoning_stage: None, ..old })
            &&& fx == seq![EffectView::Stage(None)]
        },
        AgentEvent::TodoReminder { open, attempt, max } => {
            &&& new == old
            &&& fx == seq![EffectView::Append {
                kind: InlineMessageKind::Warning,
                segs: seq![SegmentView { text: reminder_header(open@.len(), attempt, max), style: InlineTextStyle::plain_spec() }],
                new_block: false,
            }] + open@.map_values(|t: String| EffectView::Append {
                kind: InlineMessageKind::Warning,
                segs: seq![SegmentView { text: "  \u{2610} "@ + t@, style: InlineTextStyle::plain_spec() }],
                new_block: false,
            })
        },
        AgentEvent::Other => new == old && fx.len() == 0,
    }
}

/// One plain segment.
fn plain_row(text: &str) -> (row: Vec<InlineSegment>)
    ensures
        segs_view(row@) == seq![SegmentView { text: text@, style: InlineTextStyle::plain_spec() }],
{
    let mut row: Vec<InlineSegment> = Vec::new();
    row.push(plain_segment(text));
    assert(segs_view(row@) =~= seq![row@[0]@]);
    row
}

impl RenderState {
    /// Projects one agent event onto the transcript: updates the state and
    /// returns what must be drawn or done, in order (see `handled`).
    pub fn map_agent_event(&mut self, event: AgentEvent, pal: ToolPalette, content_w: usize) -> (fx: Vec<AgentEffect>)
        requires
            old(self).active_run matches Some(r) ==> r.turn < u32::MAX && r.tool_calls < u32::MAX,
        ensures
            handled(*old(self), *final(self), event, pal, content_w, effects_view(fx@)),
    {
        match event {
            AgentEvent::ToolExecutionStart { tool_name, args } => self.tool_started(tool_name, args, pal, content_w),
            AgentEvent::ToolExecutionEnd { tool_name, content, is_error } => self.tool_ended(tool_name, content, is_error, pal, content_w),
            AgentEvent::TextChunk { .. } | AgentEvent::MessageStart | AgentEvent::TextDelta(_)
            | AgentEvent::ThinkingDelta(_) | AgentEvent::StreamSync | AgentEvent::MessageEnd { .. } =>
                self.stream_event(event, pal, content_w),
            _ => self.lifecycle_event(event, pal, content_w),
        }
    }

    /// The events of a streamed message.
    #[verifier::spinoff_prover]
    #[verifier::rlimit(60)]
    fn stream_event(&mut self, event: AgentEvent, pal: ToolPalette, content_w: usize) -> (fx: Vec<AgentEffect>)
        requires
            event is TextChunk || event is MessageStart || event is TextDelta || event is ThinkingDelta
                || event is StreamSync || event is MessageEnd,
            old(self).active_run matches Some(r) ==> r.turn < u32::MAX,
        ensures
            handled(*old(self), *final(self), event, pal, content_w, effects_view(fx@)),
    {
        let mut fx: Vec<AgentEffect> = Vec::new();
        proof {
            reveal_strlit("generating response");
        }
        match event {
            AgentEvent::TextChunk { text } => {
                self.reasoning_stage = Some(String::from_str("generating response"));
                push_str(&mut self.message_buffer, text.as_str());
                push_cmd(&mut fx, InlineCommand::Inline { kind: InlineMessageKind::Agent, segment: plain_segment(text.as_str()) });
                assert(effects_view(fx@) =~= seq![EffectView::Inline { kind: InlineMessageKind::Agent, seg: SegmentView { text: text@, style: InlineTextStyle::plain_spec() } }]);
            },
            AgentEvent::MessageStart => {
                match &mut self.active_run {
                    Some(run) => {
                        run.turn = run.turn + 1;
                    },
                    None => {},
                }
                self.reasoning_stage = Some(String::from_str("generating response"));
                self.message_buffer = String::new();
                self.thinking_buffer = String::new();
                self.stream_reveal = 0;
                push_cmd(&mut fx, InlineCommand::BeginStream);
                assert(effects_view(fx@) =~= seq![EffectView::BeginStream]);
            },
            AgentEvent::TextDelta(t) => {
                self.reasoning_stage = Some(String::from_str("generating response"));
                push_str(&mut self.message_buffer, t.as_str());
                fx.push(AgentEffect::Repaint {
                    thinking: self.thinking_buffer.clone(),
                    message: self.message_buffer.clone(),
                    reveal: self.stream_reveal,
                });
                assert(effects_view(fx@) =~= seq![repaint_of(*self)]);
            },
            AgentEvent::ThinkingDelta(t) => {
                self.reasoning_stage = Some(String::from_str("thinking\u{2026}"));
                push_str(&mut self.thinking_buffer, t.as_str());
                fx.push(AgentEffect::Repaint {
                    thinking: self.thinking_buffer.clone(),
                    message: self.message_buffer.clone(),
                    reveal: self.stream_reveal,
                });
                assert(effects_view(fx@) =~= seq![repaint_of(*self)]);
            },
            AgentEvent::StreamSync => {
                if !self.message_buffer.as_str().is_empty() || !self.thinking_buffer.as_str().is_empty() {
                    fx.push(AgentEffect::Repaint {
                        thinking: self.thinking_buffer.clone(),
                        message: self.message_buffer.clone(),
                        reveal: self.stream_reveal,
                    });
                    assert(effects_view(fx@) =~= seq![repaint_of(*old(self))]);
                    self.message_buffer = String::new();
                    self.thinking_buffer = String::new();
                    self.stream_reveal = 0;
                }
            },
            AgentEvent::MessageEnd { assistant } => {
                if self.active_run.is_none() {
                    self.reasoning_stage = None;
                }
                match assistant {
                    Some(a) => {
                        self.thinking_buffer = a.thinking;
                        self.message_buffer = a.text;
                        self.stream_reveal = usize::MAX;
                    },
                    None => {},
                }
                let ghost snap = repaint_of(*self);
                if !self.message_buffer.as_str().is_empty() || !self.thinking_buffer.as_str().is_empty() {
                    fx.push(AgentEffect::Repaint {
                        thinking: self.thinking_buffer.clone(),
                        message: self.message_buffer.clone(),
                        reveal: self.stream_reveal,
                    });
                    self.message_buffer = String::new();
                    self.thinking_buffer = String::new();
                    push_cmd(&mut fx, InlineCommand::EndStream);
                    assert(effects_view(fx@) =~= seq![snap, EffectView::EndStream]);
                } else {
                    push_cmd(&mut fx, InlineCommand::EndStream);
                    assert(effects_view(fx@) =~= seq![EffectView::EndStream]);
                }
            },
            _ => {},
        }
        fx
    }

    /// The events of a run's life cycle.
    #[verifier::spinoff_prover]
    fn lifecycle_event(&mut self, event: AgentEvent, pal: ToolPalette, content_w: usize) -> (fx: Vec<AgentEffect>)
        requires
            !(event is TextChunk || event is MessageStart || event is TextDelta || event is ThinkingDelta
                || event is StreamSync || event is MessageEnd || event is ToolExecutionStart || event is ToolExecutionEnd),
        ensures
            handled(*old(self), *final(self), event, pal, content_w, effects_view(fx@)),
    {
        let mut fx: Vec<AgentEffect> = Vec::new();
        match event {
            AgentEvent::AgentStart => {
                self.active_run = Some(RunState::new());
            },
            AgentEvent::Error { message } => {
                push_cmd(&mut fx, InlineCommand::AppendLine { kind: InlineMessageKind::Error, segments: plain_row(message.as_str()) });
                self.active_run = None;
                self.reasoning_stage = None;
                push_cmd(&mut fx, InlineCommand::SetInputEnabled(true));
                push_cmd(&mut fx, InlineCommand::SetInputStatus);
                assert(effects_view(fx@) =~= seq![
                    EffectView::Append {
                        kind: InlineMessageKind::Error,
                        segs: seq![SegmentView { text: message@, style: InlineTextStyle::plain_spec() }],
                        new_block: false,
                    },
                    EffectView::InputEnabled(true),
                    EffectView::InputStatus,
                ]);
            },
            AgentEvent::Cancelled => {
                self.active_run = None;
                self.reasoning_stage = None;
                push_cmd(&mut fx, InlineCommand::SetInputEnabled(true));
                push_cmd(&mut fx, InlineCommand::SetInputStatus);
                assert(effects_view(fx@) =~= seq![EffectView::InputEnabled(true), EffectView::InputStatus]);
            },
            AgentEvent::AutoRetryStart { attempt, max_attempts } => {
                let mut st = String::from_str("retrying ");
                push_decimal(&mut st, attempt as u64);
                push_str(&mut st, " of ");
                push_decimal(&mut st, max_attempts as u64);
                self.reasoning_stage = Some(st);
                push_cmd(&mut fx, InlineCommand::SetInputStatus);
                assert(effects_view(fx@) =~= seq![EffectView::InputStatus]);
            },
            AgentEvent::TurnEnd => {
                fx.push(AgentEffect::Notify);
                self.drain_queue_head();
                if self.active_run.is_none() {
                    push_cmd(&mut fx, InlineCommand::SetReasoningStage(None));
                    assert(effects_view(fx@) =~= seq![EffectView::Notify, EffectView::Stage(None)]);
                } else {
                    assert(effects_view(fx@) =~= seq![EffectView::Notify]);
                }
            },
            AgentEvent::Usage { input_tokens } => {
                self.context_tokens = Some(input_tokens);
            },
            AgentEvent::AgentEnd => {
                self.active_run = None;
                self.reasoning_stage = None;
                push_cmd(&mut fx, InlineCommand::SetReasoningStage(None));
                assert(effects_view(fx@) =~= seq![EffectView::Stage(None)]);
            },
            AgentEvent::TodoReminder { open, attempt, max } => {
                let n = open.len();
                let mut header = String::from_str("\u{26A0} ");
                push_decimal(&mut header, n as u64);
                push_str(&mut header, " incomplete todo");
                push_str(&mut header, if n == 1 { "" } else { "s" });
                push_str(&mut header, " \u{2014} reminder ");
                push_decimal(&mut header, attempt as u64);
                push_str(&mut header, "/");
                push_decimal(&mut header, max as u64);
                assert(header@ == reminder_header(open@.len(), attempt, max));
                push_cmd(&mut fx, InlineCommand::AppendLine { kind: InlineMessageKind::Warning, segments: plain_row(header.as_str()) });
                let ghost first = effects_view(fx@);
                assert(first =~= seq![EffectView::Append {
                    kind: InlineMessageKind::Warning,
                    segs: seq![SegmentView { text: reminder_header(open@.len(), attempt, max), style: InlineTextStyle::plain_spec() }],
                    new_block: false,
                }]);
                let ghost items = open@.map_values(|t: String| EffectView::Append {
                    kind: InlineMessageKind::Warning,
                    segs: seq![SegmentView { text: "  \u{2610} "@ + t@, style: InlineTextStyle::plain_spec() }],
                    new_block: false,
                });
                let mut i: usize = 0;
                while i < open.len()
                    invariant
                        i <= open@.len(),
                        items == open@.map_values(|t: String| EffectView::Append {
                            kind: InlineMessageKind::Warning,
                            segs: seq![SegmentView { text: "  \u{2610} "@ + t@, style: InlineTextStyle::plain_spec() }],
                            new_block: false,
                        }),
                        effects_view(fx@) == first + items.take(i as int),
                    decreases open@.len() - i,
                {
                    let mut line = String::from_str("  \u{2610} ");
                    push_str(&mut line, open[i].as_str());
                    let ghost before = fx@;
                    push_cmd(&mut fx, InlineCommand::AppendLine { kind: InlineMessageKind::Warning, segments: plain_row(line.as_str()) });
                    assert(effects_view(fx@) =~= effects_view(before).push(items[i as int]));
                    i += 1;
                    assert(items.take(i as int) =~= items.take(i - 1).push(items[i - 1]));
                }
                assert(items.take(open@.len() as int) =~= items);
            },
            _ => {},
        }
        fx
    }
}

/// The session-level events the transcript reacts to.
#[derive(Debug, PartialEq, Eq)]
pub enum SessionEvent {
    Agent(AgentEvent),
    CompactionStart,
    /// Compaction finished, with its error message when it failed.
    CompactionEnd { error_message: Option<String> },
    /// The thinking level changed; `level` is the level's name.
    ThinkingLevelChanged { level: String },
    QueueUpdate,
    Advisor { body: String },
    SessionInfoChanged,
    /// A handoff wrote its document to `doc_path` and started a new
    /// session; `auto_continue` asks to continue from it at once.
    HandoffComplete { doc_path: String, auto_continue: bool },
    HandoffFailed { error: String },
}

/// The line asking for a missing API key of `provider`.
pub open spec fn auth_needed_text(provider: Seq<char>) -> Seq<char> {
    "Authentication is required for '"@ + provider + "'. Enter an API key to continue."@
}

/// `new` and the effects `fx` are what handling session event `e` makes of
/// `old`; `model_id` is the live session's model, when there is a session.
pub open spec fn session_handled(old: RenderState, new: RenderState, e: SessionEvent, model_id: Option<Seq<char>>, pal: ToolPalette, content_w: usize, fx: Seq<EffectView>) -> bool {
    match e {
        SessionEvent::Agent(ev) => {
            let asks_key = ev matches AgentEvent::Error { message } && missing_key_message(message@) && model_id is Some;
            if asks_key {
                let provider = provider_of(model_id.unwrap());
                exists|mid: RenderState, rest: Seq<EffectView>| #![trigger handled(mid, new, ev, pal, content_w, rest)] {
                    &&& mid.overlay matches Some(o) && is_key_prompt(o, provider)
                    &&& mid.secure_input_origin matches Some(SecureInputOrigin::SetKey { provider: p }) && p@ == provider
                    &&& mid == (RenderState { overlay: mid.overlay, secure_input_origin: mid.secure_input_origin, ..old })
                    &&& handled(mid, new, ev, pal, content_w, rest)
                    &&& fx == seq![EffectView::Append {
                        kind: InlineMessageKind::Info,
                        segs: seq![SegmentView { text: auth_needed_text(provider), style: InlineTextStyle::plain_spec() }],
                        new_block: false,
                    }] + rest
                }
            } else {
                handled(old, new, ev, pal, content_w, fx)
            }
        },
        SessionEvent::CompactionStart => new == old && fx == seq![EffectView::Stage(Some("Compacting\u{2026}"@))],
        SessionEvent::CompactionEnd { error_message } => new == old && fx == match error_message {
            Some(m) => seq![EffectView::Stage(None), EffectView::Append {
                kind: InlineMessageKind::Error,
                segs: seq![SegmentView { text: "Compaction failed: "@ + m@, style: InlineTextStyle::plain_spec() }],
                new_block: false,
            }],
            None => seq![EffectView::Stage(None)],
        },
        SessionEvent::ThinkingLevelChanged { level } => {
            &&& new.thinking_level@ == ascii_lower_seq(level@)
            &&& new == (RenderState { thinking_level: new.thinking_level, ..old })
            &&& fx.len() == 0
        },
        SessionEvent::QueueUpdate => new == old && fx == seq![EffectView::InputStatus],
        SessionEvent::Advisor { body } => new == old && fx == seq![EffectView::Append {
            kind: InlineMessageKind::Info,
            segs: seq![SegmentView { text: body@, style: InlineTextStyle::plain_spec() }],
            new_block: false,
        }],
        SessionEvent::HandoffFailed { error } => new == old && fx == seq![EffectView::Append {
            kind: InlineMessageKind::Error,
            segs: seq![SegmentView { text: "Handoff failed: "@ + error@, style: InlineTextStyle::plain_spec() }],
            new_block: false,
        }],
        _ => new == old && fx.len() == 0,
    }
}

impl RenderState {
    /// Projects one session event onto the transcript. A provider error
    /// about a missing API key first asks for the key of the session's
    /// provider (a line and the masked prompt), then is drawn like any
    /// agent event.
    pub fn handle_session_event(&mut self, event: SessionEvent, model_id: Option<&str>, pal: ToolPalette, content_w: usize) -> (fx: Vec<AgentEffect>)
        requires
            old(self).active_run matches Some(r) ==> r.turn < u32::MAX && r.tool_calls < u32::MAX,
        ensures
            session_handled(*old(self), *final(self), event, match model_id { Some(m) => Some(m@), None => None }, pal, content_w, effects_view(fx@)),
    {
        let mut fx: Vec<AgentEffect> = Vec::new();
        let ghost mut wit: Option<(RenderState, Seq<EffectView>, AgentEvent)> = None;
        match event {
            SessionEvent::Agent(ev) => {
                let asks_key = match (&ev, model_id) {
                    (AgentEvent::Error { message }, Some(_)) => is_missing_api_key_error(message.as_str()),
                    _ => false,
                };
                let ghost ev0 = ev;
                if asks_key {
                    let m = model_id.unwrap();
                    let provider = provider_from_model_id(m);
                    let mut line = String::from_str("Authentication is required for '");
                    push_str(&mut line, provider.as_str());
                    push_str(&mut line, "'. Enter an API key to continue.");
                    push_cmd(&mut fx, InlineCommand::AppendLine { kind: InlineMessageKind::Info, segments: plain_row(line.as_str()) });
                    let ghost head = effects_view(fx@);
                    assert(head =~= seq![EffectView::Append {
                        kind: InlineMessageKind::Info,
                        segs: seq![SegmentView { text: auth_needed_text(provider_of(m@)), style: InlineTextStyle::plain_spec() }],
                        new_block: false,
                    }]);
                    let ghost before = *self;
                    self.open_secure_prompt(SecureInputOrigin::SetKey { provider });
                    let ghost mid = *self;
                    let mut rest = self.map_agent_event(ev, pal, content_w);
                    let ghost restv = effects_view(rest@);
                    fx.append(&mut rest);
                    proof {
                        assert(effects_view(fx@) =~= head + restv);
                        wit = Some((mid, restv, ev0));
                    }
                } else {
                    fx = self.map_agent_event(ev, pal, content_w);
                }
            },
            SessionEvent::CompactionStart => {
                push_cmd(&mut fx, InlineCommand::SetReasoningStage(Some(String::from_str("Compacting\u{2026}"))));
                assert(effects_view(fx@) =~= seq![EffectView::Stage(Some("Compacting\u{2026}"@))]);
            },
            SessionEvent::CompactionEnd { error_message } => {
                push_cmd(&mut fx, InlineCommand::SetReasoningStage(None));
                match error_message {
                    Some(m) => {
                        let mut line = String::from_str("Compaction failed: ");
                        push_str(&mut line, m.as_str());
                        push_cmd(&mut fx, InlineCommand::AppendLine { kind: InlineMessageKind::Error, segments: plain_row(line.as_str()) });
                        assert(effects_view(fx@) =~= seq![EffectView::Stage(None), EffectView::Append {
                            kind: InlineMessageKind::Error,
                            segs: seq![SegmentView { text: "Compaction failed: "@ + m@, style: InlineTextStyle::plain_spec() }],
                            new_block: false,
                        }]);
                    },
                    None => {
                        assert(effects_view(fx@) =~= seq![EffectView::Stage(None)]);
                    },
                }
            },
            SessionEvent::ThinkingLevelChanged { level } => {
                let cs = chars_of(level.as_str());
                let lower = lower_chars(cs.as_slice());
                self.thinking_level = string_of(lower.as_slice());
            },
            SessionEvent::QueueUpdate => {
                push_cmd(&mut fx, InlineCommand::SetInputStatus);
                assert(effects_view(fx@) =~= seq![EffectView::InputStatus]);
            },
            SessionEvent::Advisor { body } => {
                push_cmd(&mut fx, InlineCommand::AppendLine { kind: InlineMessageKind::Info, segments: plain_row(body.as_str()) });
                assert(effects_view(fx@) =~= seq![EffectView::Append {
                    kind: InlineMessageKind::Info,
                    segs: seq![SegmentView { text: body@, style: InlineTextStyle::plain_spec() }],
                    new_block: false,
                }]);
            },
            SessionEvent::HandoffFailed { error } => {
                let mut line = String::from_str("Handoff failed: ");
                push_str(&mut line, error.as_str());
                push_cmd(&mut fx, InlineCommand::AppendLine { kind: InlineMessageKind::Error, segments: plain_row(line.as_str()) });
                assert(effects_view(fx@) =~= seq![EffectView::Append {
                    kind: InlineMessageKind::Error,
                    segs: seq![SegmentView { text: "Handoff failed: "@ + error@, style: InlineTextStyle::plain_spec() }],
                    new_block: false,
                }]);
            },
            SessionEvent::SessionInfoChanged | SessionEvent::HandoffComplete { .. } => {},
        }
        proof {
            if let Some((mid, restv, ev0)) = wit {
                assert(handled(mid, *self, ev0, pal, content_w, restv));
            }
        }
        fx
    }
}

/// A transcript row holding `text` in the plain style.
pub open spec fn plain_segs(text: Seq<char>) -> Seq<SegmentView> {
    seq![SegmentView { text, style: InlineTextStyle::plain_spec() }]
}

/// The line announcing a finished handoff.
pub open spec fn handoff_written_text(doc_path: Seq<char>) -> Seq<char> {
    "Handoff written to "@ + doc_path + ". New session started."@
}

/// The prompt that continues from a handoff document.
pub open spec fn handoff_prompt_text(doc_path: Seq<char>) -> Seq<char> {
    "Read the handoff document at "@ + doc_path + " and continue from where the previous session left off."@
}

/// The line saying why a handoff did not continue on its own.
pub open spec fn handoff_skipped_text() -> Seq<char> {
    "Handoff complete. Auto-continue skipped because input was non-empty \u{2014} press Enter to submit your message in the new session."@
}

/// What a finished handoff does: the transcript and the streamed answer
/// are cleared and the view follows the tail; one line names the handoff
/// document; the composer is emptied. When the composer held text (besides
/// white space) a second line says that auto-continue was skipped; else,
/// with `auto_continue`, the prompt continuing from the document is queued.
pub open spec fn handoff_done(old: RenderState, new: RenderState, q_old: Seq<String>, q_new: Seq<String>, doc_path: Seq<char>, auto_continue: bool) -> bool {
    let typed = trimmed(old.composer@).len() > 0;
    let (l1, n1) = append_spec(Seq::empty(), old.next_block_id, InlineMessageKind::Info, plain_segs(handoff_written_text(doc_path)));
    let (l2, n2) = if typed {
        append_spec(l1, n1, InlineMessageKind::Info, plain_segs(handoff_skipped_text()))
    } else {
        (l1, n1)
    };
    &&& new.lines() == l2
    &&& new.next_block_id == n2
    &&& new.message_buffer@.len() == 0
    &&& new.composer@.len() == 0
    &&& new.scroll_offset == usize::MAX
    &&& new == (RenderState {
        transcript: new.transcript,
        next_block_id: new.next_block_id,
        message_buffer: new.message_buffer,
        composer: new.composer,
        scroll_offset: new.scroll_offset,
        ..old
    })
    &&& if auto_continue && !typed {
        q_new.len() == q_old.len() + 1 && q_new.take(q_old.len() as int) == q_old && q_new.last()@ == handoff_prompt_text(doc_path)
    } else {
        q_new == q_old
    }
}

impl RenderState {
    /// Starts over after a finished handoff (see `handoff_done`); the
    /// continuing prompt, if any, goes to `queue`.
    pub fn complete_handoff(&mut self, doc_path: &str, auto_continue: bool, queue: &mut PromptQueue)
        requires
            old(self).next_block_id < usize::MAX - 1,
        ensures
            handoff_done(*old(self), *final(self), old(queue).view(), final(queue).view(), doc_path@, auto_continue),
    {
        let trimmed_text = trim(self.composer.as_str());
        let typed = !trimmed_text.as_str().is_empty();
        self.transcript = Vec::new();
        self.message_buffer = String::new();
        self.scroll_offset = usize::MAX;
        assert(self.lines() =~= Seq::<crate::transcript::LineView>::empty());
        let mut line = String::from_str("Handoff written to ");
        push_str(&mut line, doc_path);
        push_str(&mut line, ". New session started.");
        self.append_line(InlineMessageKind::Info, plain_row(line.as_str()));
        self.composer = String::new();
        if auto_continue && !typed {
            let mut prompt = String::from_str("Read the handoff document at ");
            push_str(&mut prompt, doc_path);
            push_str(&mut prompt, " and continue from where the previous session left off.");
            let ghost before = queue.view();
            queue.enqueue(prompt);
            assert(queue.view().take(before.len() as int) =~= before);
        } else if typed {
            self.append_line(InlineMessageKind::Info, plain_row(
                "Handoff complete. Auto-continue skipped because input was non-empty \u{2014} press Enter to submit your message in the new session.",
            ));
        }
    }
}

} // verus!
