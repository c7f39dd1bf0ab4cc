//! What a finished tool call shows: a bounded preview of its output, a
//! colored diff when the output is one, the one-line summary of its
//! arguments, and an embedded generated image.
use vstd::prelude::*;

use base64::Engine;

use crate::numfmt::{decimal, push_decimal};
use crate::text::{
    chars_of, matches_at, occurs_at, push_char, push_str, seq_starts_with, string_of, trim, trimmed,
};
use crate::tool_box::strings_view;
use crate::transcript::{split_at_newlines, split_lines, Color, InlineTextStyle};

verus! {

/// At most this many characters of a tool result are shown.
pub const MAX_PREVIEW_CHARS: usize = 500;

/// A tool result cut to its first 500 characters, with an ellipsis when
/// something was cut.
pub open spec fn preview_of(content: Seq<char>) -> Seq<char> {
    if content.len() <= MAX_PREVIEW_CHARS {
        content
    } else {
        content.take(MAX_PREVIEW_CHARS as int).push('\u{2026}')
    }
}

/// The shown part of a tool result.
pub fn preview_tool_result(content: &str) -> (out: String)
    ensures
        out@ == preview_of(content@),
{
    let cs = chars_of(content);
    if cs.len() <= MAX_PREVIEW_CHARS {
        return String::from_str(content);
    }
    let mut out = string_of(&cs.as_slice()[0..MAX_PREVIEW_CHARS]);
    push_char(&mut out, '\u{2026}');
    out
}

/// A line with its trailing carriage return, if any, removed.
pub open spec fn strip_cr(l: Seq<char>) -> Seq<char> {
    if l.len() > 0 && l.last() == '\r' {
        l.drop_last()
    } else {
        l
    }
}

/// The lines of `s` (`str::lines`): split at `\n`, a `\r` right before a
/// `\n` dropped, and no empty line after a final `\n`.
pub open spec fn text_lines(s: Seq<char>) -> Seq<Seq<char>> {
    let p = split_lines(s);
    let body = p.drop_last().map_values(|l: Seq<char>| strip_cr(l));
    if p.last().len() == 0 {
        body
    } else {
        body.push(p.last())
    }
}

/// The lines of `s` (`str::lines`).
pub fn lines_of(s: &str) -> (out: Vec<Vec<char>>)
    ensures
        out@.map_values(|l: Vec<char>| l@) == text_lines(s@),
{
    let parts = split_at_newlines(s);
    let ghost pv = parts@.map_values(|p: Vec<char>| p@);
    proof {
        crate::transcript::lemma_split_lines_nonempty(s@);
    }
    let n = parts.len();
    let mut out: Vec<Vec<char>> = Vec::new();
    let mut i: usize = 0;
    while i + 1 < n
        invariant
            i < n,
            n == parts@.len(),
            pv == parts@.map_values(|p: Vec<char>| p@),
            out@.map_values(|l: Vec<char>| l@) == pv.take(i as int).map_values(|l: Seq<char>| strip_cr(l)),
        decreases n - i,
    {
        let p = &parts[i];
        let mut l: Vec<char> = Vec::new();
        let m = if p.len() > 0 && p[p.len() - 1] == '\r' { p.len() - 1 } else { p.len() };
        let mut k: usize = 0;
        while k < m
            invariant
                k <= m <= p@.len(),
                l@ == p@.take(k as int),
            decreases m - k,
        {
            l.push(p[k]);
            k += 1;
            assert(l@ =~= p@.take(k as int));
        }
        assert(l@ =~= strip_cr(pv[i as int]));
        let ghost before = out@;
        out.push(l);
        assert(out@.map_values(|l: Vec<char>| l@) =~= before.map_values(|l: Vec<char>| l@).push(strip_cr(pv[i as int])));
        i += 1;
        assert(pv.take(i as int) =~= pv.take(i - 1).push(pv[i - 1]));
        assert(out@.map_values(|l: Vec<char>| l@) =~= pv.take(i as int).map_values(|l: Seq<char>| strip_cr(l)));
    }
    assert(pv.take(i as int) =~= pv.drop_last());
    let last = &parts[n - 1];
    if last.len() > 0 {
        let mut l: Vec<char> = Vec::new();
        let mut k: usize = 0;
        while k < last.len()
            invariant
                k <= last@.len(),
                l@ == last@.take(k as int),
            decreases last@.len() - k,
        {
            l.push(last[k]);
            k += 1;
            assert(l@ =~= last@.take(k as int));
        }
        assert(l@ =~= last@);
        let ghost before = out@;
        out.push(l);
        assert(out@.map_values(|l: Vec<char>| l@) =~= before.map_values(|l: Vec<char>| l@).push(pv.last()));
    }
    out
}

/// `n` copies of `c`.
pub open spec fn run(c: char, n: nat) -> Seq<char> {
    Seq::new(n, |_i: int| c)
}

/// Whether `l` begins with `n` copies of `c`.
fn starts_with_run(l: &[char], c: char, n: usize) -> (r: bool)
    ensures
        r == seq_starts_with(l@, run(c, n as nat)),
{
    if l.len() < n {
        return false;
    }
    let mut k: usize = 0;
    while k < n
        invariant
            k <= n <= l@.len(),
            forall|j: int| 0 <= j < k ==> l@[j] == c,
        decreases n - k,
    {
        if l[k] != c {
            assert(l@.subrange(0, n as int)[k as int] != run(c, n as nat)[k as int]);
            return false;
        }
        k += 1;
    }
    assert(l@.subrange(0, n as int) =~= run(c, n as nat));
    true
}

/// A diff line that adds text (`+`, but not the `+++` file header).
pub open spec fn is_addition(l: Seq<char>) -> bool {
    seq_starts_with(l, run('+', 1)) && !seq_starts_with(l, run('+', 3))
}

/// A diff line that removes text (`-`, but not the `---` file header).
pub open spec fn is_deletion(l: Seq<char>) -> bool {
    seq_starts_with(l, run('-', 1)) && !seq_starts_with(l, run('-', 3))
}

/// Number of lines among `ls` that satisfy `p`.
pub open spec fn count_where(ls: Seq<Seq<char>>, p: spec_fn(Seq<char>) -> bool) -> nat
    decreases ls.len(),
{
    if ls.len() == 0 {
        0
    } else {
        count_where(ls.drop_last(), p) + if p(ls.last()) { 1nat } else { 0nat }
    }
}

proof fn lemma_count_bound(ls: Seq<Seq<char>>, p: spec_fn(Seq<char>) -> bool)
    ensures
        count_where(ls, p) <= ls.len(),
    decreases ls.len(),
{
    if ls.len() > 0 {
        lemma_count_bound(ls.drop_last(), p);
    }
}

/// At most this many diff lines are shown.
pub const MAX_DIFF_LINES: usize = 30;

/// The dimmed style of headers and context lines.
pub open spec fn dim_style() -> InlineTextStyle {
    InlineTextStyle { dimmed: true, ..InlineTextStyle::plain_spec() }
}

/// The style of one diff line: additions in `green`, deletions in `red`,
/// anything else dimmed.
pub open spec fn diff_line_style(l: Seq<char>, green: Option<Color>, red: Option<Color>) -> InlineTextStyle {
    if is_addition(l) {
        InlineTextStyle { color: green, ..InlineTextStyle::plain_spec() }
    } else if is_deletion(l) {
        InlineTextStyle { color: red, ..InlineTextStyle::plain_spec() }
    } else {
        dim_style()
    }
}

/// The diff rows of `content`, or `None` when it is not a diff: a diff has
/// a `@@` hunk header and at least two added or removed lines. The rows are
/// a `diff +A -D` stat line, the first 30 lines styled, and a
/// `… +N lines` note for the rest.
pub open spec fn diff_rows_spec(content: Seq<char>, green: Option<Color>, red: Option<Color>) -> Option<Seq<(Seq<char>, InlineTextStyle)>> {
    let ls = text_lines(content);
    let adds = count_where(ls, |l: Seq<char>| is_addition(l));
    let dels = count_where(ls, |l: Seq<char>| is_deletion(l));
    if !(exists|i: int| 0 <= i < ls.len() && seq_starts_with(#[trigger] ls[i], run('@', 2))) {
        None
    } else if adds + dels < 2 {
        None
    } else {
        let shown = if ls.len() <= MAX_DIFF_LINES { ls } else { ls.take(MAX_DIFF_LINES as int) };
        let header = ("diff +"@ + decimal(adds) + " -"@ + decimal(dels), dim_style());
        let body = shown.map_values(|l: Seq<char>| (l, diff_line_style(l, green, red)));
        let rows = seq![header] + body;
        if ls.len() > MAX_DIFF_LINES {
            Some(rows.push(("\u{2026} +"@ + decimal((ls.len() - MAX_DIFF_LINES) as nat) + " lines"@, dim_style())))
        } else {
            Some(rows)
        }
    }
}

/// The views of styled rows.
pub open spec fn styled_view(rows: Seq<(String, InlineTextStyle)>) -> Seq<(Seq<char>, InlineTextStyle)> {
    rows.map_values(|r: (String, InlineTextStyle)| (r.0@, r.1))
}

/// Diff rows for a tool box, in the theme's `green` and `red`; `None` when
/// the content is not a recognizable diff.
pub fn diff_rows(content: &str, green: Option<Color>, red: Option<Color>) -> (out: Option<Vec<(String, InlineTextStyle)>>)
    ensures
        match out {
            Some(v) => diff_rows_spec(content@, green, red) == Some(styled_view(v@)),
            None => diff_rows_spec(content@, green, red) is None,
        },
{
    let ls = lines_of(content);
    let ghost lv = ls@.map_values(|l: Vec<char>| l@);
    let mut hunk = false;
    let mut adds: usize = 0;
    let mut dels: usize = 0;
    let mut i: usize = 0;
    while i < ls.len()
        invariant
            i <= ls@.len(),
            lv == ls@.map_values(|l: Vec<char>| l@),
            hunk <==> exists|j: int| 0 <= j < i && seq_starts_with(#[trigger] lv[j], run('@', 2)),
            adds == count_where(lv.take(i as int), |l: Seq<char>| is_addition(l)),
            dels == count_where(lv.take(i as int), |l: Seq<char>| is_deletion(l)),
            adds <= i && dels <= i,
        decreases ls@.len() - i,
    {
        let l = ls[i].as_slice();
        assert(lv.take(i + 1).drop_last() =~= lv.take(i as int));
        assert(l@ == lv[i as int]);
        if starts_with_run(l, '@', 2) {
            hunk = true;
        }
        let is_add = starts_with_run(l, '+', 1) && !starts_with_run(l, '+', 3);
        let is_del = starts_with_run(l, '-', 1) && !starts_with_run(l, '-', 3);
        proof {
            assert(is_add == is_addition(lv[i as int]));
            assert(is_del == is_deletion(lv[i as int]));
            assert(lv.take(i + 1).last() == lv[i as int]);
            assert(count_where(lv.take(i + 1), |l: Seq<char>| is_addition(l)) == count_where(lv.take(i as int), |l: Seq<char>| is_addition(l)) + (if is_add { 1nat } else { 0nat }));
            assert(count_where(lv.take(i + 1), |l: Seq<char>| is_deletion(l)) == count_where(lv.take(i as int), |l: Seq<char>| is_deletion(l)) + (if is_del { 1nat } else { 0nat }));
        }
        if is_add {
            adds += 1;
        }
        if is_del {
            dels += 1;
        }
        i += 1;
    }
    assert(lv.take(ls@.len() as int) =~= lv);
    assert(lv == text_lines(content@));
    if !hunk {
        return None;
    }
    if adds < 2 && dels < 2 && adds + dels < 2 {
        return None;
    }
    let mut rows: Vec<(String, InlineTextStyle)> = Vec::new();
    let dim = InlineTextStyle { color: None, bold: false, italic: false, dimmed: true, strikethrough: false };
    let mut hdr = String::from_str("diff +");
    push_decimal(&mut hdr, adds as u64);
    push_str(&mut hdr, " -");
    push_decimal(&mut hdr, dels as u64);
    rows.push((hdr, dim));
    let shown = if ls.len() <= MAX_DIFF_LINES { ls.len() } else { MAX_DIFF_LINES };
    let ghost sh = if lv.len() <= MAX_DIFF_LINES { lv } else { lv.take(MAX_DIFF_LINES as int) };
    let ghost head = seq![("diff +"@ + decimal(adds as nat) + " -"@ + decimal(dels as nat), dim_style())];
    assert(styled_view(rows@) =~= head);
    let mut k: usize = 0;
    while k < shown
        invariant
            k <= shown,
            shown as int == sh.len(),
            shown <= ls@.len(),
            lv == ls@.map_values(|l: Vec<char>| l@),
            sh == (if lv.len() <= MAX_DIFF_LINES { lv } else { lv.take(MAX_DIFF_LINES as int) }),
            styled_view(rows@) == head + sh.take(k as int).map_values(|l: Seq<char>| (l, diff_line_style(l, green, red))),
        decreases shown - k,
    {
        let l = ls[k].as_slice();
        assert(l@ == sh[k as int]);
        let style = if starts_with_run(l, '+', 1) && !starts_with_run(l, '+', 3) {
            InlineTextStyle { color: green, bold: false, italic: false, dimmed: false, strikethrough: false }
        } else if starts_with_run(l, '-', 1) && !starts_with_run(l, '-', 3) {
            InlineTextStyle { color: red, bold: false, italic: false, dimmed: false, strikethrough: false }
        } else {
            InlineTextStyle { color: None, bold: false, italic: false, dimmed: true, strikethrough: false }
        };
        assert(style == diff_line_style(sh[k as int], green, red));
        let text = string_of(l);
        let ghost before = rows@;
        rows.push((text, style));
        assert(rows@.last() == (text, style));
        assert(styled_view(rows@) =~= styled_view(before).push((sh[k as int], diff_line_style(sh[k as int], green, red))));
        k += 1;
        assert(sh.take(k as int) =~= sh.take(k - 1).push(sh[k - 1]));
        assert(styled_view(rows@) =~= head + sh.take(k as int).map_values(|l: Seq<char>| (l, diff_line_style(l, green, red))));
    }
    assert(sh.take(shown as int) =~= sh);
    if ls.len() > MAX_DIFF_LINES {
        let mut more = String::from_str("\u{2026} +");
        push_decimal(&mut more, (ls.len() - MAX_DIFF_LINES) as u64);
        push_str(&mut more, " lines");
        let ghost before = rows@;
        rows.push((more, dim));
        assert(styled_view(rows@) =~= styled_view(before).push((
            "\u{2026} +"@ + decimal((lv.len() - MAX_DIFF_LINES) as nat) + " lines"@,
            dim_style(),
        )));
    }
    Some(rows)
}

/// A tool call's arguments, as far as the one-line summary reads them:
/// JSON `null`, a JSON string, an object (its keys in order, each value
/// kept only when it is a string), or any other value by its JSON text.
#[derive(Debug, Clone, PartialEq, Eq)]
pub enum ToolArgs {
    Null,
    Str(String),
    Object(Vec<(String, Option<String>)>),
    Other(String),
}

/// The string value of the first entry named `command`, if it is a string.
pub open spec fn command_entry(m: Seq<(String, Option<String>)>) -> Option<Seq<char>>
    decreases m.len(),
{
    if m.len() == 0 {
        None
    } else if m[0].0@ == "command"@ {
        match m[0].1 {
            Some(v) => Some(v@),
            None => None,
        }
    } else {
        command_entry(m.drop_first())
    }
}

/// `key=value` for every entry whose value is a string, in order.
pub open spec fn string_pairs(m: Seq<(String, Option<String>)>) -> Seq<Seq<char>>
    decreases m.len(),
{
    if m.len() == 0 {
        Seq::empty()
    } else {
        let rest = string_pairs(m.drop_first());
        match m[0].1 {
            Some(v) => seq![m[0].0@ + "="@ + v@] + rest,
            None => rest,
        }
    }
}

/// The parts joined with single spaces.
pub open spec fn join_spaced(parts: Seq<Seq<char>>) -> Seq<char>
    decreases parts.len(),
{
    if parts.len() == 0 {
        Seq::empty()
    } else if parts.len() == 1 {
        parts[0]
    } else {
        parts[0] + " "@ + join_spaced(parts.drop_first())
    }
}

/// The summary text before it is cut to length: the command for shell
/// tools, otherwise up to three `key=value` pairs.
pub open spec fn args_summary(a: ToolArgs) -> Seq<char> {
    match a {
        ToolArgs::Null => Seq::empty(),
        ToolArgs::Str(s) => s@,
        ToolArgs::Object(m) => match command_entry(m@) {
            Some(c) => c,
            None => {
                let p = string_pairs(m@);
                join_spaced(if p.len() <= 3 { p } else { p.take(3) })
            },
        },
        ToolArgs::Other(t) => t@,
    }
}

/// The one-line preview: the summary, cut to 71 characters and an
/// ellipsis when it is longer than 72.
pub open spec fn args_preview(a: ToolArgs) -> Seq<char> {
    let raw = args_summary(a);
    if raw.len() > 72 {
        raw.take(71).push('\u{2026}')
    } else {
        raw
    }
}

/// The string value of the entry named `command`, if any.
pub fn command_of_entries(m: &Vec<(String, Option<String>)>) -> (r: Option<String>)
    ensures
        match r {
            Some(c) => command_entry(m@) == Some(c@),
            None => command_entry(m@) is None,
        },
{
    let mut i: usize = 0;
    assert(m@.skip(0) =~= m@);
    while i < m.len()
        invariant
            i <= m@.len(),
            command_entry(m@) == command_entry(m@.skip(i as int)),
        decreases m@.len() - i,
    {
        assert(m@.skip(i as int).drop_first() =~= m@.skip(i + 1));
        let key = chars_of(m[i].0.as_str());
        let is_command = key.len() == 7 && key[0] == 'c' && key[1] == 'o' && key[2] == 'm' && key[3] == 'm'
            && key[4] == 'a' && key[5] == 'n' && key[6] == 'd';
        proof {
            reveal_strlit("command");
            if is_command {
                assert(key@ =~= "command"@);
            } else if key@ == "command"@ {
                assert(key@[0] == 'c' && key@[1] == 'o' && key@[2] == 'm' && key@[3] == 'm');
            }
        }
        if is_command {
            return match &m[i].1 {
                Some(v) => Some(v.clone()),
                None => None,
            };
        }
        i += 1;
    }
    None
}

/// The one-line human preview of a tool call's arguments: "which command
/// ran" is the most useful fact about a tool call.
pub fn tool_args_preview(args: &ToolArgs) -> (out: String)
    ensures
        out@ == args_preview(*args),
{
    let raw = match args {
        ToolArgs::Null => String::new(),
        ToolArgs::Str(s) => s.clone(),
        ToolArgs::Object(m) => match command_of_entries(m) {
            Some(c) => c,
            None => {
                let mut i: usize = m.len();
                let ghost all = string_pairs(m@);
                // Walk from the back so each step prepends one entry.
                proof {
                    assert(m@.skip(m@.len() as int) =~= Seq::<(String, Option<String>)>::empty());
                }
                let mut pairs: Vec<String> = Vec::new();
                assert(strings_view(pairs@) =~= Seq::<Seq<char>>::empty());
                while i > 0
                    invariant
                        i <= m@.len(),
                        all == string_pairs(m@),
                        strings_view(pairs@) == string_pairs(m@.skip(i as int)),
                    decreases i,
                {
                    i -= 1;
                    assert(m@.skip(i as int).drop_first() =~= m@.skip(i + 1));
                    match &m[i].1 {
                        Some(v) => {
                            let mut kv = m[i].0.clone();
                            push_str(&mut kv, "=");
                            push_str(&mut kv, v.as_str());
                            let ghost before = pairs@;
                            pairs.insert(0, kv);
                            assert(strings_view(pairs@) =~= seq![kv@] + strings_view(before));
                        },
                        None => {},
                    }
                }
                assert(m@.skip(0) =~= m@);
                let n = if pairs.len() <= 3 { pairs.len() } else { 3 };
                let ghost chosen = if all.len() <= 3 { all } else { all.take(3) };
                assert(strings_view(pairs@).take(n as int) =~= chosen);
                // Join the chosen pairs from the back as well.
                let mut k: usize = n;
                let mut joined = String::new();
                while k > 0
                    invariant
                        k <= n <= pairs@.len(),
                        k < n ==> joined@ == join_spaced(strings_view(pairs@).subrange(k as int, n as int)),
                        k == n ==> joined@.len() == 0,
                    decreases k,
                {
                    k -= 1;
                    let mut piece = pairs[k].clone();
                    let ghost tail = strings_view(pairs@).subrange(k + 1, n as int);
                    assert(strings_view(pairs@).subrange(k as int, n as int).drop_first() =~= tail);
                    if k + 1 < n {
                        push_str(&mut piece, " ");
                        push_str(&mut piece, joined.as_str());
                    }
                    joined = piece;
                }
                assert(strings_view(pairs@).subrange(0, n as int) =~= chosen);
                if n == 0 {
                    assert(chosen.len() == 0);
                }
                joined
            },
        },
        ToolArgs::Other(t) => t.clone(),
    };
    assert(raw@ == args_summary(*args));
    let cs = chars_of(raw.as_str());
    if cs.len() > 72 {
        let mut head = string_of(&cs.as_slice()[0..71]);
        push_char(&mut head, '\u{2026}');
        head
    } else {
        raw
    }
}

/// What the standard base64 alphabet (with padding) decodes `text` to,
/// or `None` when it is not valid base64.
pub uninterp spec fn base64_standard(text: Seq<char>) -> Option<Seq<u8>>;

/// `base64::engine::general_purpose::STANDARD.decode`: the bytes `text`
/// encodes, or `None` where the crate reports a decode error; the result
/// is the name `base64_standard` applied to `text`.
#[verifier::external_body]
fn decode_base64(text: &str) -> (r: Option<Vec<u8>>)
    ensures
        match r {
            Some(v) => base64_standard(text@) == Some(v@),
            None => base64_standard(text@) is None,
        },
{
    base64::engine::general_purpose::STANDARD.decode(text).ok()
}

/// The marker that precedes an embedded image in a tool result.
pub open spec fn image_marker() -> Seq<char> {
    "base64):"@
}

/// Where `needle` first occurs in `hay` at or after position `k`.
pub open spec fn occurrence_from(hay: Seq<char>, needle: Seq<char>, k: int) -> Option<int>
    decreases hay.len() - k,
{
    if k < 0 || k > hay.len() {
        None
    } else if occurs_at(hay, needle, k) {
        Some(k)
    } else if k == hay.len() {
        None
    } else {
        occurrence_from(hay, needle, k + 1)
    }
}

/// Where `needle` first occurs in `hay` (`str::find`).
pub open spec fn first_occurrence(hay: Seq<char>, needle: Seq<char>) -> Option<int> {
    occurrence_from(hay, needle, 0)
}

/// The first line of `ls` that is not empty after trimming, trimmed.
pub open spec fn first_filled(ls: Seq<Seq<char>>) -> Option<Seq<char>>
    decreases ls.len(),
{
    if ls.len() == 0 {
        None
    } else if trimmed(ls[0]).len() > 0 {
        Some(trimmed(ls[0]))
    } else {
        first_filled(ls.drop_first())
    }
}

/// The base64 text of the first image embedded in a tool result: the first
/// non-blank line after the first `base64):` marker.
pub open spec fn image_blob(content: Seq<char>) -> Option<Seq<char>> {
    match first_occurrence(content, image_marker()) {
        None => None,
        Some(i) => first_filled(text_lines(content.subrange(i + image_marker().len(), content.len() as int))),
    }
}

/// The image bytes a tool result embeds: the decoded base64 text after the
/// first marker, when it decodes to at least the 8 bytes of a PNG header.
pub open spec fn generated_png(content: Seq<char>) -> Option<Seq<u8>> {
    match image_blob(content) {
        None => None,
        Some(b) => match base64_standard(b) {
            Some(d) => if d.len() >= 8 { Some(d) } else { None },
            None => None,
        },
    }
}

/// Keeps decoded image bytes only when they can hold a PNG header (8
/// bytes); shorter payloads are parse noise.
pub fn png_from_decoded(decoded: Option<Vec<u8>>) -> (r: Option<Vec<u8>>)
    ensures
        r == (match decoded {
            Some(v) => if v@.len() >= 8 { Some(v) } else { None },
            None => None,
        }),
{
    match decoded {
        Some(v) => if v.len() >= 8 { Some(v) } else { None },
        None => None,
    }
}

fn find_marker(cs: &Vec<char>) -> (r: Option<usize>)
    ensures
        match r {
            Some(i) => first_occurrence(cs@, image_marker()) == Some(i as int)
                && i + image_marker().len() <= cs@.len(),
            None => first_occurrence(cs@, image_marker()) is None,
        },
{
    let marker = chars_of("base64):");
    let mut i: usize = 0;
    while i < cs.len()
        invariant
            i <= cs@.len(),
            marker@ == image_marker(),
            first_occurrence(cs@, image_marker()) == occurrence_from(cs@, image_marker(), i as int),
        decreases cs@.len() - i,
    {
        if matches_at(cs.as_slice(), marker.as_slice(), i) {
            return Some(i);
        }
        i += 1;
    }
    proof {
        reveal_strlit("base64):");
        assert(!occurs_at(cs@, image_marker(), cs@.len() as int));
    }
    None
}

/// The bytes of the first image a `generate_image` result embeds as
/// `Image N (<bytes> bytes, base64):` followed by the base64 text: `None`
/// without a marker or payload, when the payload does not decode, or when
/// it decodes to fewer than 8 bytes.
pub fn extract_generated_png(content: &str) -> (r: Option<Vec<u8>>)
    ensures
        match generated_png(content@) {
            Some(d) => r matches Some(v) && v@ == d,
            None => r is None,
        },
{
    let cs = chars_of(content);
    let n = cs.len();
    let at = match find_marker(&cs) {
        Some(i) => i,
        None => return None,
    };
    proof {
        reveal_strlit("base64):");
        assert(image_marker().len() == 8);
    }
    let start = at + 8;
    let rest = string_of(&cs.as_slice()[start..n]);
    let ls = lines_of(rest.as_str());
    let ghost lv = ls@.map_values(|l: Vec<char>| l@);
    assert(lv.skip(0) =~= lv);
    assert(rest@ == content@.subrange(at + image_marker().len(), content@.len() as int));
    assert(image_blob(content@) == first_filled(lv));
    let mut i: usize = 0;
    while i < ls.len()
        invariant
            i <= ls@.len(),
            lv == ls@.map_values(|l: Vec<char>| l@),
            image_blob(content@) == first_filled(lv),
            first_filled(lv) == first_filled(lv.skip(i as int)),
        decreases ls@.len() - i,
    {
        assert(lv.skip(i as int).drop_first() =~= lv.skip(i + 1));
        let line = string_of(ls[i].as_slice());
        let t = trim(line.as_str());
        assert(lv.skip(i as int)[0] == lv[i as int]);
        if !t.as_str().is_empty() {
            let decoded = decode_base64(t.as_str());
            return png_from_decoded(decoded);
        }
        i += 1;
    }
    None
}

} // verus!
