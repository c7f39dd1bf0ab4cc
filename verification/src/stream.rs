//! The typewriter that reveals a streamed answer a little per frame, and
//! the plain rows drawn above the answer while it streams.
use vstd::prelude::*;
use vstd::string::StringSliceAdditionalSpecFns;

use crate::render_state::RenderState;
use crate::text::{byte_len, floor_char_boundary, is_floor_boundary, str_len};
use crate::transcript::{
    plain_segment, rows_view, segs_view, split_at_newlines, split_lines, InlineSegment, InlineTextStyle,
    SegmentView,
};

verus! {

/// The byte offset the typewriter aims for next: a sixth of what is left,
/// at least 8 bytes, never past the end.
pub open spec fn reveal_target(reveal: usize, len: int) -> usize {
    let remaining = len - reveal;
    let step = if remaining / 6 > 8 { remaining / 6 } else { 8 };
    if reveal + step < len {
        (reveal + step) as usize
    } else {
        len as usize
    }
}

/// The rows drawn above the answer: each line of the reasoning text in
/// `style`, then one blank row once the answer has started.
pub open spec fn thinking_rows(thinking: Seq<char>, answer_started: bool, style: InlineTextStyle) -> Seq<Seq<SegmentView>> {
    if thinking.len() == 0 {
        Seq::empty()
    } else {
        let body = split_lines(thinking).map_values(|l: Seq<char>| seq![SegmentView { text: l, style }]);
        if answer_started {
            body.push(seq![SegmentView { text: Seq::empty(), style: InlineTextStyle::plain_spec() }])
        } else {
            body
        }
    }
}

impl RenderState {
    /// Advances the typewriter by one frame. Nothing moves without an
    /// anchored stream or once everything is revealed; a reveal point at or
    /// past the end snaps to the end. Otherwise the reveal point moves to
    /// the last character boundary at or below `reveal_target`, and the
    /// caller repaints the streamed block.
    pub fn advance_stream_reveal(&mut self) -> (painted: bool)
        ensures
            ({
                let len = byte_len(old(self).message_buffer@);
                if old(self).stream_anchor is None || old(self).stream_reveal == usize::MAX {
                    !painted && *final(self) == *old(self)
                } else if old(self).stream_reveal >= len {
                    !painted && *final(self) == (RenderState { stream_reveal: len as usize, ..*old(self) })
                } else {
                    &&& painted
                    &&& is_floor_boundary(old(self).message_buffer@, reveal_target(old(self).stream_reveal, len), final(self).stream_reveal)
                    &&& *final(self) == (RenderState { stream_reveal: final(self).stream_reveal, ..*old(self) })
                }
            }),
    {
        if self.stream_anchor.is_none() || self.stream_reveal == usize::MAX {
            return false;
        }
        let len = str_len(self.message_buffer.as_str());
        if self.stream_reveal >= len {
            self.stream_reveal = len;
            return false;
        }
        let remaining = len - self.stream_reveal;
        let step = if remaining / 6 > 8 { remaining / 6 } else { 8 };
        let target = if step < remaining { self.stream_reveal + step } else { len };
        self.stream_reveal = floor_char_boundary(self.message_buffer.as_str(), target);
        true
    }

    /// The revealed part of the streamed answer (see `revealed_body`).
    pub fn revealed_stream_body(&self) -> (r: &str)
        ensures
            revealed_ok(self.message_buffer@, self.stream_reveal, r),
    {
        revealed_body(self.message_buffer.as_str(), self.stream_reveal)
    }

    /// The reasoning rows drawn above the streamed answer, in `style`.
    pub fn streamed_thinking_rows(&self, style: InlineTextStyle) -> (rows: Vec<Vec<InlineSegment>>)
        ensures
            rows_view(rows@) == thinking_rows(self.thinking_buffer@, self.message_buffer@.len() > 0, style),
    {
        thinking_rows_for(self.thinking_buffer.as_str(), !self.message_buffer.as_str().is_empty(), style)
    }
}

/// `r` is the revealed part of `message` at reveal point `reveal`: all of
/// it at `usize::MAX`, otherwise its bytes up to the last character
/// boundary at or below `reveal`.
pub open spec fn revealed_ok(message: Seq<char>, reveal: usize, r: &str) -> bool {
    &&& reveal == usize::MAX ==> r@ == message
    &&& reveal != usize::MAX ==> exists|k: usize| #![trigger is_floor_boundary(message, reveal, k)]
        is_floor_boundary(message, reveal, k)
        && r.spec_bytes() == vstd::utf8::encode_utf8(message).subrange(0, k as int)
}

/// The revealed part of a streamed answer.
pub fn revealed_body(message: &str, reveal: usize) -> (r: &str)
    ensures
        revealed_ok(message@, reveal, r),
{
    if reveal == usize::MAX {
        return message;
    }
    let k = floor_char_boundary(message, reveal);
    proof {
        vstd::utf8::encode_utf8_valid_utf8(message@);
        vstd::utf8::is_char_boundary_start_end_of_seq(message.spec_bytes());
    }
    let (head, _tail) = message.split_at(k);
    head
}

/// The reasoning rows drawn above a streamed answer, in `style`.
pub fn thinking_rows_for(thinking: &str, answer_started: bool, style: InlineTextStyle) -> (rows: Vec<Vec<InlineSegment>>)
    ensures
        rows_view(rows@) == thinking_rows(thinking@, answer_started, style),
{
    let mut rows: Vec<Vec<InlineSegment>> = Vec::new();
    if thinking.is_empty() {
        assert(rows_view(rows@) =~= Seq::<Seq<SegmentView>>::empty());
        return rows;
    }
    let parts = split_at_newlines(thinking);
    let ghost pv = parts@.map_values(|p: Vec<char>| p@);
    let ghost body = pv.map_values(|l: Seq<char>| seq![SegmentView { text: l, style }]);
    let mut i: usize = 0;
    while i < parts.len()
        invariant
            i <= parts.len(),
            pv == parts@.map_values(|p: Vec<char>| p@),
            body == pv.map_values(|l: Seq<char>| seq![SegmentView { text: l, style }]),
            rows_view(rows@) == body.take(i as int),
        decreases parts.len() - i,
    {
        let text = crate::text::string_of(parts[i].as_slice());
        let mut row: Vec<InlineSegment> = Vec::new();
        row.push(InlineSegment { text, style });
        assert(segs_view(row@) =~= seq![SegmentView { text: pv[i as int], style }]);
        let ghost before = rows@;
        rows.push(row);
        assert(rows@ == before.push(row));
        assert(rows_view(rows@) =~= rows_view(before).push(segs_view(row@)));
        i += 1;
        assert(rows_view(rows@) =~= body.take(i as int));
    }
    assert(body.take(parts.len() as int) =~= body);
    if answer_started {
        let mut blank: Vec<InlineSegment> = Vec::new();
        blank.push(plain_segment(""));
        proof {
            reveal_strlit("");
        }
        assert(blank@[0]@.text =~= Seq::<char>::empty());
        assert(segs_view(blank@) =~= seq![SegmentView { text: Seq::empty(), style: InlineTextStyle::plain_spec() }]);
        let ghost before = rows@;
        rows.push(blank);
        assert(rows_view(rows@) =~= rows_view(before).push(segs_view(blank@)));
        assert(rows_view(rows@) =~= body.push(seq![SegmentView { text: Seq::empty(), style: InlineTextStyle::plain_spec() }]));
    }
    rows
}

} // verus!
