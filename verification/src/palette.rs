//! The command palette: every built-in slash command, sorted by title.
use vstd::prelude::*;

use crate::overlay::{ListSelection, OverlayListItem, OverlaySearchState, OverlayState};
use crate::slash::{strs_view, SlashCommand};
use crate::text::{chars_of, push_str};

verus! {

/// Code-point lexicographic order on character sequences (`String`'s
/// `Ord`): `a` sorts strictly before `b`.
pub open spec fn lex_lt(a: Seq<char>, b: Seq<char>) -> bool
    decreases a.len(),
{
    if a.len() == 0 {
        b.len() > 0
    } else if b.len() == 0 {
        false
    } else if a[0] != b[0] {
        (a[0] as u32) < (b[0] as u32)
    } else {
        lex_lt(a.drop_first(), b.drop_first())
    }
}

proof fn lemma_lex_irrefl(a: Seq<char>)
    ensures
        !lex_lt(a, a),
    decreases a.len(),
{
    if a.len() > 0 {
        lemma_lex_irrefl(a.drop_first());
    }
}

proof fn lemma_lex_trans(a: Seq<char>, b: Seq<char>, c: Seq<char>)
    requires
        lex_lt(a, b),
        lex_lt(b, c),
    ensures
        lex_lt(a, c),
    decreases a.len(),
{
    if a.len() > 0 && b.len() > 0 && c.len() > 0 {
        if a[0] == b[0] && b[0] == c[0] {
            lemma_lex_trans(a.drop_first(), b.drop_first(), c.drop_first());
        }
    }
}

proof fn lemma_lex_total(a: Seq<char>, b: Seq<char>)
    requires
        a != b,
    ensures
        lex_lt(a, b) || lex_lt(b, a),
    decreases a.len(),
{
    if a.len() == 0 && b.len() == 0 {
        assert(a =~= b);
    }
    if a.len() > 0 && b.len() > 0 && a[0] == b[0] {
        if a.drop_first() =~= b.drop_first() {
            assert(a =~= b) by {
                assert forall|k: int| 0 <= k < a.len() implies a[k] == b[k] by {
                    if k > 0 {
                        assert(a[k] == a.drop_first()[k - 1]);
                        assert(b[k] == b.drop_first()[k - 1]);
                    }
                }
            }
        }
        lemma_lex_total(a.drop_first(), b.drop_first());
    }
    if a.len() > 0 && b.len() > 0 && a[0] != b[0] {
        vstd::utf8::char_u32_cast(a[0], a[0] as u32);
        vstd::utf8::char_u32_cast(b[0], b[0] as u32);
    }
}

/// Whether `a` sorts strictly before `b`.
fn lex_less(a: &Vec<char>, b: &Vec<char>) -> (r: bool)
    ensures
        r == lex_lt(a@, b@),
{
    let mut i: usize = 0;
    assert(a@.skip(0) =~= a@);
    assert(b@.skip(0) =~= b@);
    while i < a.len() && i < b.len() && a[i] == b[i]
        invariant
            i <= a@.len(),
            i <= b@.len(),
            lex_lt(a@, b@) == lex_lt(a@.skip(i as int), b@.skip(i as int)),
        decreases a@.len() - i,
    {
        assert(a@.skip(i as int).drop_first() =~= a@.skip(i + 1));
        assert(b@.skip(i as int).drop_first() =~= b@.skip(i + 1));
        i += 1;
    }
    if i == a.len() {
        i < b.len()
    } else if i == b.len() {
        false
    } else {
        assert(a@.skip(i as int)[0] == a@[i as int]);
        assert(b@.skip(i as int)[0] == b@[i as int]);
        (a[i] as u32) < (b[i] as u32)
    }
}

/// Entry `i` sorts before entry `j`: by title, equal titles keeping their
/// catalog order.
pub open spec fn sorts_before(titles: Seq<Seq<char>>, i: int, j: int) -> bool {
    lex_lt(titles[i], titles[j]) || (titles[i] == titles[j] && i < j)
}

/// `order` lists `0..n`, each once, sorted by `sorts_before`.
pub open spec fn sorted_order(titles: Seq<Seq<char>>, order: Seq<usize>, n: int) -> bool {
    &&& order.len() == n
    &&& forall|a: int| 0 <= a < n ==> order[a] < n
    &&& forall|v: usize| 0 <= v < n ==> #[trigger] order.contains(v)
    &&& forall|a: int, b: int| 0 <= a < b < n ==> sorts_before(titles, #[trigger] order[a] as int, #[trigger] order[b] as int)
}

/// The palette title of a command: `/name`, with its aliases in
/// parentheses when it has any.
pub open spec fn palette_title(name: Seq<char>, aliases: Seq<Seq<char>>) -> Seq<char> {
    if aliases.len() == 0 { "/"@ + name } else { "/"@ + name + " ("@ + alias_list(aliases) + ")"@ }
}

/// `/a, /b, …`.
pub open spec fn alias_list(aliases: Seq<Seq<char>>) -> Seq<char>
    decreases aliases.len(),
{
    if aliases.len() == 0 {
        Seq::empty()
    } else if aliases.len() == 1 {
        "/"@ + aliases[0]
    } else {
        alias_list(aliases.drop_last()) + ", /"@ + aliases.last()
    }
}

fn title_of(cmd: &SlashCommand) -> (t: String)
    ensures
        t@ == palette_title(cmd.name@, strs_view(cmd.aliases@)),
{
    let mut t = String::from_str("/");
    push_str(&mut t, cmd.name.as_str());
    if cmd.aliases.len() == 0 {
        return t;
    }
    push_str(&mut t, " (");
    let ghost head = t@;
    let mut k: usize = 0;
    while k < cmd.aliases.len()
        invariant
            k <= cmd.aliases@.len(),
            t@ == head + alias_list(strs_view(cmd.aliases@).take(k as int)),
        decreases cmd.aliases@.len() - k,
    {
        let ghost before = t@;
        if k > 0 {
            push_str(&mut t, ", ");
        }
        push_str(&mut t, "/");
        push_str(&mut t, cmd.aliases[k].as_str());
        proof {
            reveal_strlit(", ");
            reveal_strlit("/");
            reveal_strlit(", /");
            let al = strs_view(cmd.aliases@);
            assert(al.take(k + 1).drop_last() =~= al.take(k as int));
            assert(al.take(k + 1).last() == cmd.aliases@[k as int]@);
            if k == 0 {
                assert(al.take(1)[0] == cmd.aliases@[0]@);
            }
        }
        k += 1;
    }
    assert(strs_view(cmd.aliases@).take(cmd.aliases@.len() as int) =~= strs_view(cmd.aliases@));
    push_str(&mut t, ")");
    t
}

/// The palette titles of the commands, in catalog order.
pub open spec fn palette_titles(cmds: Seq<SlashCommand>) -> Seq<Seq<char>> {
    cmds.map_values(|c: SlashCommand| palette_title(c.name@, strs_view(c.aliases@)))
}

/// The palette row of a command.
pub open spec fn palette_item_ok(item: OverlayListItem, cmd: SlashCommand) -> bool {
    &&& item.title@ == palette_title(cmd.name@, strs_view(cmd.aliases@))
    &&& item.subtitle matches Some(s) && s@ == cmd.description@
    &&& item.badge is None
    &&& item.indent == 0
    &&& item.search_value matches Some(v) && v@ == cmd.name@ + " "@ + cmd.description@
    &&& item.selection matches Some(ListSelection::SlashCommand(n)) && n@ == cmd.name@
}

/// The indices `0..keys.len()` sorted by their keys in code-point order,
/// equal keys keeping their order (an insertion sort).
pub fn sorted_order_of(keys: &Vec<Vec<char>>) -> (order: Vec<usize>)
    ensures
        sorted_order(keys@.map_values(|k: Vec<char>| k@), order@, keys@.len() as int),
{
    let n = keys.len();
    let ghost titles = keys@.map_values(|k: Vec<char>| k@);
    assert forall|k: int| 0 <= k < n implies (#[trigger] keys@[k])@ == titles[k] by {}
    let mut order: Vec<usize> = Vec::new();
    let mut i: usize = 0;
    while i < n
        invariant
            i <= n == keys@.len(),
            forall|k: int| 0 <= k < n ==> (#[trigger] keys@[k])@ == titles[k],
            sorted_order(titles, order@, i as int),
        decreases n - i,
    {
        let mut p: usize = 0;
        while p < order.len() && !lex_less(&keys[i], &keys[order[p]])
            invariant
                p <= order@.len() == i,
                i < n == keys@.len(),
                forall|k: int| 0 <= k < n ==> (#[trigger] keys@[k])@ == titles[k],
                sorted_order(titles, order@, i as int),
                forall|q: int| 0 <= q < p ==> sorts_before(titles, #[trigger] order@[q] as int, i as int),
            decreases i - p,
        {
            proof {
                let o = order@[p as int] as int;
                if titles[o] != titles[i as int] {
                    lemma_lex_total(titles[o], titles[i as int]);
                }
            }
            p += 1;
        }
        let ghost old_order = order@;
        proof {
            assert forall|q: int| p <= q < i implies sorts_before(titles, i as int, #[trigger] old_order[q] as int) by {
                let o0 = old_order[p as int] as int;
                assert(lex_lt(titles[i as int], titles[o0]));
                if q > p {
                    let oq = old_order[q] as int;
                    assert(sorts_before(titles, old_order[p as int] as int, old_order[q] as int));
                    if lex_lt(titles[o0], titles[oq]) {
                        lemma_lex_trans(titles[i as int], titles[o0], titles[oq]);
                    }
                }
            }
        }
        order.insert(p, i);
        proof {
            let no = order@;
            assert(no == old_order.insert(p as int, i));
            assert forall|a: int, b: int| 0 <= a < b < i + 1 implies sorts_before(titles, #[trigger] no[a] as int, #[trigger] no[b] as int) by {
                if a < p && b < p {
                    assert(no[a] == old_order[a] && no[b] == old_order[b]);
                } else if a < p && b == p {
                } else if a < p && b > p {
                    assert(no[a] == old_order[a] && no[b] == old_order[b - 1]);
                } else if a == p {
                    assert(no[b] == old_order[b - 1]);
                } else {
                    assert(no[a] == old_order[a - 1] && no[b] == old_order[b - 1]);
                }
            }
            assert forall|v: usize| 0 <= v < i + 1 implies #[trigger] no.contains(v) by {
                if v == i {
                    assert(no[p as int] == i);
                } else {
                    assert(old_order.contains(v));
                    let k = choose|k: int| 0 <= k < old_order.len() && old_order[k] == v;
                    if k < p {
                        assert(no[k] == v);
                    } else {
                        assert(no[k + 1] == v);
                    }
                }
            }
        }
        i += 1;
    }
    order
}

/// The command palette: a searchable list of the built-in commands
/// `cmds`, sorted by title (ties keep their order).
pub fn build_command_palette(cmds: &Vec<SlashCommand>) -> (o: OverlayState)
    ensures
        o.title@ == "Command Palette"@,
        o.lines@.len() == 1 && o.lines@[0]@ == "Type to filter, Enter to select"@,
        o.selected == 0 && o.secure_input is None && o.key_capture is None,
        o.tabs@.len() == 0 && o.active_tab == 0 && o.sections@.len() == 0 && o.active_section == 0,
        o.search matches Some(s) && s.label@ == "search"@ && s.value@.len() == 0
            && (s.placeholder matches Some(p) && p@ == "filter commands\u{2026}"@),
        exists|order: Seq<usize>| #![trigger sorted_order(palette_titles(cmds@), order, cmds@.len() as int)] {
            &&& sorted_order(palette_titles(cmds@), order, cmds@.len() as int)
            &&& o.items@.len() == cmds@.len()
            &&& forall|i: int| 0 <= i < cmds@.len() ==> palette_item_ok(#[trigger] o.items@[i], cmds@[order[i] as int])
        },
{
    let n = cmds.len();
    let ghost titles = palette_titles(cmds@);
    let mut keys: Vec<Vec<char>> = Vec::new();
    let mut i: usize = 0;
    while i < n
        invariant
            i <= n == cmds@.len(),
            titles == palette_titles(cmds@),
            keys@.len() == i,
            forall|k: int| 0 <= k < i ==> (#[trigger] keys@[k])@ == titles[k],
        decreases n - i,
    {
        let t = title_of(&cmds[i]);
        keys.push(chars_of(t.as_str()));
        i += 1;
    }
    let order = sorted_order_of(&keys);
    assert(keys@.map_values(|k: Vec<char>| k@) =~= titles);
    let mut items: Vec<OverlayListItem> = Vec::new();
    let mut k: usize = 0;
    while k < n
        invariant
            k <= n == cmds@.len() == order@.len(),
            sorted_order(titles, order@, n as int),
            items@.len() == k,
            forall|j: int| 0 <= j < k ==> palette_item_ok(#[trigger] items@[j], cmds@[order@[j] as int]),
        decreases n - k,
    {
        let c = &cmds[order[k]];
        let mut search = c.name.clone();
        push_str(&mut search, " ");
        push_str(&mut search, c.description.as_str());
        items.push(OverlayListItem {
            title: title_of(c),
            subtitle: Some(c.description.clone()),
            badge: None,
            indent: 0,
            search_value: Some(search),
            selection: Some(ListSelection::SlashCommand(c.name.clone())),
        });
        k += 1;
    }
    let mut lines: Vec<String> = Vec::new();
    lines.push(String::from_str("Type to filter, Enter to select"));
    assert(sorted_order(palette_titles(cmds@), order@, cmds@.len() as int));
    OverlayState {
        title: String::from_str("Command Palette"),
        lines,
        items,
        selected: 0,
        search: Some(OverlaySearchState {
            label: String::from_str("search"),
            placeholder: Some(String::from_str("filter commands\u{2026}")),
            value: String::new(),
        }),
        secure_input: None,
        tabs: Vec::new(),
        active_tab: 0,
        sections: Vec::new(),
        active_section: 0,
        key_capture: None,
    }
}

} // verus!
