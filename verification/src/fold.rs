//! Folded blocks: the one-line activity that describes a block, and text
//! clamped to the cells left on a row.
use vstd::prelude::*;

use crate::text::{chars_of, push_char, push_str, string_of, trim, trimmed};
use crate::tool_box::{cells_or_zero, char_width_or_zero, sat_sub, str_cells, str_width};
use crate::transcript::{
    kind_label, kind_label_spec, lines_view, InlineMessageKind, LineView, SegmentView, TranscriptLine,
};

verus! {

/// How many leading characters of `cs` fit in `cap` cells, stopping at the
/// first character that does not fit.
pub open spec fn fit_count(cs: Seq<char>, cap: int) -> int
    decreases cs.len(),
{
    if cs.len() == 0 {
        0
    } else if cells_or_zero(cs[0]) > cap {
        0
    } else {
        1 + fit_count(cs.drop_first(), cap - cells_or_zero(cs[0]))
    }
}

/// `text` fitted into `width` cells after a prefix `prefix_w` cells wide:
/// nothing when no cell is left, the whole text when it fits, otherwise the
/// longest prefix that leaves room for `ellipsis`, followed by it.
pub open spec fn clamped(text: Seq<char>, prefix_w: int, width: int, ellipsis: Seq<char>) -> Seq<char> {
    let budget = sat_sub(width, prefix_w);
    if budget == 0 || width == 0 {
        Seq::empty()
    } else if str_cells(text) <= budget {
        text
    } else {
        let cap = sat_sub(budget, str_cells(ellipsis) as int);
        text.take(fit_count(text, cap)) + ellipsis
    }
}

proof fn lemma_fit_count_bounds(cs: Seq<char>, cap: int)
    ensures
        0 <= fit_count(cs, cap) <= cs.len(),
    decreases cs.len(),
{
    if cs.len() > 0 && cells_or_zero(cs[0]) <= cap {
        lemma_fit_count_bounds(cs.drop_first(), cap - cells_or_zero(cs[0]));
    }
}

/// Truncates `text` so that it fits in `width` cells after a `prefix_w`
/// cells wide prefix, replacing the overflow by `ellipsis`.
pub fn clamp_fold_text(text: &str, prefix_w: usize, width: usize, ellipsis: &str) -> (out: String)
    ensures
        out@ == clamped(text@, prefix_w as int, width as int, ellipsis@),
{
    let budget = if width > prefix_w { width - prefix_w } else { 0 };
    if budget == 0 || width == 0 {
        return String::new();
    }
    if str_width(text) <= budget {
        return String::from_str(text);
    }
    let ell_w = str_width(ellipsis);
    let cap = if budget > ell_w { budget - ell_w } else { 0 };
    let cs = chars_of(text);
    let mut used: usize = 0;
    let mut i: usize = 0;
    let mut going = true;
    proof {
        lemma_fit_count_bounds(cs@, cap as int);
        assert(cs@.skip(0) =~= cs@);
    }
    while going && i < cs.len()
        invariant
            i <= cs@.len(),
            used <= cap,
            going ==> fit_count(cs@, cap as int) == i + fit_count(cs@.skip(i as int), cap - used),
            !going ==> fit_count(cs@, cap as int) == i,
        decreases cs@.len() - i + (if going { 1int } else { 0int }),
    {
        let w = char_width_or_zero(cs[i]);
        assert(cs@.skip(i as int)[0] == cs@[i as int]);
        assert(cs@.skip(i as int).drop_first() =~= cs@.skip(i + 1));
        if w > cap - used {
            going = false;
        } else {
            used = used + w;
            i += 1;
        }
    }
    if going {
        assert(cs@.skip(i as int).len() == 0);
    }
    let mut out = string_of(&cs.as_slice()[0..i]);
    push_str(&mut out, ellipsis);
    out
}

/// The first segment text that is not blank, trimmed.
pub open spec fn first_text(segs: Seq<SegmentView>) -> Option<Seq<char>>
    decreases segs.len(),
{
    if segs.len() == 0 {
        None
    } else if trimmed(segs[0].text).len() > 0 {
        Some(trimmed(segs[0].text))
    } else {
        first_text(segs.drop_first())
    }
}

/// The first non-blank segment text among the lines of block `bid`.
pub open spec fn block_text(lines: Seq<LineView>, bid: usize) -> Option<Seq<char>>
    decreases lines.len(),
{
    if lines.len() == 0 {
        None
    } else if lines[0].block_id == bid && first_text(lines[0].segments) is Some {
        first_text(lines[0].segments)
    } else {
        block_text(lines.drop_first(), bid)
    }
}

/// The kind of the first line of block `bid`.
pub open spec fn block_kind(lines: Seq<LineView>, bid: usize) -> Option<InlineMessageKind>
    decreases lines.len(),
{
    if lines.len() == 0 {
        None
    } else if lines[0].block_id == bid {
        Some(lines[0].kind)
    } else {
        block_kind(lines.drop_first(), bid)
    }
}

/// What a block is about: its first non-blank text, else its kind's
/// label, else `block` for a block with no lines.
pub open spec fn activity_of(lines: Seq<LineView>, bid: usize) -> Seq<char> {
    match block_text(lines, bid) {
        Some(t) => t,
        None => match block_kind(lines, bid) {
            Some(k) => kind_label_spec(k),
            None => "block"@,
        },
    }
}

fn segments_text(segs: &Vec<crate::transcript::InlineSegment>) -> (r: Option<String>)
    ensures
        match r {
            Some(t) => first_text(crate::transcript::segs_view(segs@)) == Some(t@),
            None => first_text(crate::transcript::segs_view(segs@)) is None,
        },
{
    let ghost sv = crate::transcript::segs_view(segs@);
    let mut k: usize = 0;
    assert(sv.skip(0) =~= sv);
    while k < segs.len()
        invariant
            k <= segs@.len(),
            sv == crate::transcript::segs_view(segs@),
            first_text(sv) == first_text(sv.skip(k as int)),
        decreases segs@.len() - k,
    {
        assert(sv.skip(k as int)[0] == sv[k as int]);
        assert(sv.skip(k as int).drop_first() =~= sv.skip(k + 1));
        let t = trim(segs[k].text.as_str());
        if !t.as_str().is_empty() {
            return Some(t);
        }
        k += 1;
    }
    None
}

/// The one-line activity of block `block_id`, used where a folded block
/// still has to say what it was.
pub fn block_activity(transcript: &[TranscriptLine], block_id: usize) -> (out: String)
    ensures
        out@ == activity_of(lines_view(transcript@), block_id),
{
    let ghost lv = lines_view(transcript@);
    let mut i: usize = 0;
    assert(lv.skip(0) =~= lv);
    while i < transcript.len()
        invariant
            i <= transcript@.len(),
            lv == lines_view(transcript@),
            block_text(lv, block_id) == block_text(lv.skip(i as int), block_id),
        decreases transcript@.len() - i,
    {
        assert(lv.skip(i as int)[0] == lv[i as int]);
        assert(lv.skip(i as int).drop_first() =~= lv.skip(i + 1));
        if transcript[i].block_id == block_id {
            match segments_text(&transcript[i].segments) {
                Some(t) => return t,
                None => {},
            }
        }
        i += 1;
    }
    let mut j: usize = 0;
    while j < transcript.len()
        invariant
            j <= transcript@.len(),
            lv == lines_view(transcript@),
            block_text(lv, block_id) is None,
            block_kind(lv, block_id) == block_kind(lv.skip(j as int), block_id),
        decreases transcript@.len() - j,
    {
        assert(lv.skip(j as int)[0] == lv[j as int]);
        assert(lv.skip(j as int).drop_first() =~= lv.skip(j + 1));
        if transcript[j].block_id == block_id {
            return kind_label(transcript[j].kind);
        }
        j += 1;
    }
    String::from_str("block")
}

} // verus!
