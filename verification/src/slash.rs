//! The `/`-command autocomplete popup: prefix filtering over built-in and
//! user-defined commands, and the popup state derived from the composer.
use vstd::prelude::*;

use crate::text::{chars_of, push_str, seq_starts_with, starts_with};

verus! {

/// A slash command: canonical name (no leading `/`), description, aliases.
/// Built-in commands and user-defined file commands share this shape.
#[derive(Debug)]
pub struct SlashCommand {
    pub name: String,
    pub description: String,
    pub aliases: Vec<String>,
}

/// A user-defined command loaded from a commands directory.
#[derive(Debug)]
pub struct FileCommand {
    pub name: String,
    pub description: String,
    pub aliases: Vec<String>,
    pub body: String,
}

/// One filtered entry in the popup.
#[derive(Debug)]
pub struct SlashPopupItem {
    /// Display label, e.g. `"/quit, /exit, /q"`.
    pub label: String,
    pub description: String,
    /// Canonical command name, used for completion.
    pub name: String,
}

/// Popup state: open while the composer holds a bare `/token`.
#[derive(Debug)]
pub struct SlashPopup {
    pub open: bool,
    pub items: Vec<SlashPopupItem>,
    pub selected: usize,
}

/// The views of a list of strings.
pub open spec fn strs_view(v: Seq<String>) -> Seq<Seq<char>> {
    v.map_values(|s: String| s@)
}

/// The value of a popup item: label, description, name.
pub open spec fn item_view(i: SlashPopupItem) -> (Seq<char>, Seq<char>, Seq<char>) {
    (i.label@, i.description@, i.name@)
}

/// `, /a` for every alias `a`, in order.
pub open spec fn alias_suffix(aliases: Seq<Seq<char>>) -> Seq<char>
    decreases aliases.len(),
{
    if aliases.len() == 0 {
        Seq::empty()
    } else {
        alias_suffix(aliases.drop_last()) + ", /"@ + aliases.last()
    }
}

/// The popup label of a command.
pub open spec fn label_of(name: Seq<char>, aliases: Seq<Seq<char>>) -> Seq<char> {
    "/"@ + name + alias_suffix(aliases)
}

/// A command matches the typed token when the token is empty or prefixes
/// its name or one of its aliases.
pub open spec fn command_matches(token: Seq<char>, name: Seq<char>, aliases: Seq<Seq<char>>) -> bool {
    token.len() == 0 || seq_starts_with(name, token) || exists|k: int|
        0 <= k < aliases.len() && seq_starts_with(#[trigger] aliases[k], token)
}

/// The popup items for the built-in commands `cmds[..n]`.
pub open spec fn builtin_items(token: Seq<char>, cmds: Seq<SlashCommand>, n: int) -> Seq<(Seq<char>, Seq<char>, Seq<char>)>
    decreases n,
{
    if n <= 0 {
        Seq::empty()
    } else {
        let prev = builtin_items(token, cmds, n - 1);
        let c = cmds[n - 1];
        if command_matches(token, c.name@, strs_view(c.aliases@)) {
            prev.push((label_of(c.name@, strs_view(c.aliases@)), c.description@, c.name@))
        } else {
            prev
        }
    }
}

/// A file command is shadowed when its name or one of its aliases is the
/// name of a built-in.
pub open spec fn shadowed(fc: FileCommand, cmds: Seq<SlashCommand>) -> bool {
    (exists|b: int| 0 <= b < cmds.len() && (#[trigger] cmds[b]).name@ == fc.name@) || (exists|a: int, b: int|
        0 <= a < fc.aliases@.len() && 0 <= b < cmds.len() && (#[trigger] cmds[b]).name@ == (#[trigger] fc.aliases@[a])@)
}

/// The popup items for the file commands `fcs[..n]`.
pub open spec fn file_items(token: Seq<char>, cmds: Seq<SlashCommand>, fcs: Seq<FileCommand>, n: int) -> Seq<(Seq<char>, Seq<char>, Seq<char>)>
    decreases n,
{
    if n <= 0 {
        Seq::empty()
    } else {
        let prev = file_items(token, cmds, fcs, n - 1);
        let f = fcs[n - 1];
        if !shadowed(f, cmds) && command_matches(token, f.name@, strs_view(f.aliases@)) {
            prev.push((label_of(f.name@, strs_view(f.aliases@)), f.description@, f.name@))
        } else {
            prev
        }
    }
}

/// The full popup list: matching built-ins first, then the matching file
/// commands that no built-in shadows.
pub open spec fn popup_items(token: Seq<char>, cmds: Seq<SlashCommand>, fcs: Seq<FileCommand>) -> Seq<(Seq<char>, Seq<char>, Seq<char>)> {
    builtin_items(token, cmds, cmds.len() as int) + file_items(token, cmds, fcs, fcs.len() as int)
}

fn label_for(name: &String, aliases: &Vec<String>) -> (l: String)
    ensures
        l@ == label_of(name@, strs_view(aliases@)),
{
    let mut l = String::from_str("/");
    push_str(&mut l, name.as_str());
    let ghost base = l@;
    let mut k: usize = 0;
    while k < aliases.len()
        invariant
            k <= aliases.len(),
            base == "/"@ + name@,
            l@ == base + alias_suffix(strs_view(aliases@).take(k as int)),
        decreases aliases.len() - k,
    {
        push_str(&mut l, ", /");
        push_str(&mut l, aliases[k].as_str());
        proof {
            let av = strs_view(aliases@);
            assert(av.take(k + 1).drop_last() == av.take(k as int));
        }
        k += 1;
    }
    assert(strs_view(aliases@).take(aliases.len() as int) == strs_view(aliases@));
    l
}

fn matches_token(token: &[char], name: &String, aliases: &Vec<String>) -> (r: bool)
    ensures
        r == command_matches(token@, name@, strs_view(aliases@)),
{
    if token.len() == 0 {
        return true;
    }
    let nc = chars_of(name.as_str());
    if starts_with(nc.as_slice(), token) {
        return true;
    }
    let mut k: usize = 0;
    while k < aliases.len()
        invariant
            k <= aliases.len(),
            forall|j: int| 0 <= j < k ==> !seq_starts_with(#[trigger] strs_view(aliases@)[j], token@),
        decreases aliases.len() - k,
    {
        let ac = chars_of(aliases[k].as_str());
        if starts_with(ac.as_slice(), token) {
            assert(seq_starts_with(strs_view(aliases@)[k as int], token@));
            return true;
        }
        k += 1;
    }
    false
}

fn is_builtin_name(cmds: &[SlashCommand], s: &String) -> (r: bool)
    ensures
        r == exists|b: int| 0 <= b < cmds@.len() && (#[trigger] cmds@[b]).name@ == s@,
{
    let mut b: usize = 0;
    while b < cmds.len()
        invariant
            b <= cmds.len(),
            forall|j: int| 0 <= j < b ==> (#[trigger] cmds@[j]).name@ != s@,
        decreases cmds.len() - b,
    {
        if cmds[b].name == *s {
            return true;
        }
        b += 1;
    }
    false
}

fn is_shadowed(cmds: &[SlashCommand], fc: &FileCommand) -> (r: bool)
    ensures
        r == shadowed(*fc, cmds@),
{
    if is_builtin_name(cmds, &fc.name) {
        return true;
    }
    let mut a: usize = 0;
    while a < fc.aliases.len()
        invariant
            a <= fc.aliases.len(),
            forall|x: int, b: int| 0 <= x < a && 0 <= b < cmds@.len() ==> (#[trigger] cmds@[b]).name@ != (#[trigger] fc.aliases@[x])@,
        decreases fc.aliases.len() - a,
    {
        if is_builtin_name(cmds, &fc.aliases[a]) {
            return true;
        }
        a += 1;
    }
    false
}

/// Filter slash commands by `token` (the text after `/`): an empty token
/// lists every command; otherwise a command matches when the token
/// prefixes its name or an alias. Built-ins come first; file commands
/// follow, minus any whose name or alias shadows a built-in (built-ins
/// always win).
pub fn slash_filter(token: &str, builtins: &[SlashCommand], file_commands: &[FileCommand]) -> (items: Vec<SlashPopupItem>)
    ensures
        items@.map_values(|i: SlashPopupItem| item_view(i)) == popup_items(token@, builtins@, file_commands@),
{
    let t = chars_of(token);
    let mut items: Vec<SlashPopupItem> = Vec::new();
    let mut i: usize = 0;
    while i < builtins.len()
        invariant
            i <= builtins.len(),
            t@ == token@,
            items@.map_values(|x: SlashPopupItem| item_view(x)) == builtin_items(token@, builtins@, i as int),
        decreases builtins.len() - i,
    {
        let c = &builtins[i];
        if matches_token(t.as_slice(), &c.name, &c.aliases) {
            let item = SlashPopupItem {
                label: label_for(&c.name, &c.aliases),
                description: c.description.clone(),
                name: c.name.clone(),
            };
            let ghost before = items@;
            items.push(item);
            assert(items@.map_values(|x: SlashPopupItem| item_view(x)) =~= before.map_values(|x: SlashPopupItem| item_view(x)).push(item_view(item)));
        }
        i += 1;
    }
    let ghost head = items@.map_values(|x: SlashPopupItem| item_view(x));
    let mut f: usize = 0;
    assert(items@.map_values(|x: SlashPopupItem| item_view(x)) =~= head + file_items(token@, builtins@, file_commands@, 0));
    while f < file_commands.len()
        invariant
            f <= file_commands.len(),
            t@ == token@,
            head == builtin_items(token@, builtins@, builtins@.len() as int),
            items@.map_values(|x: SlashPopupItem| item_view(x)) == head + file_items(token@, builtins@, file_commands@, f as int),
        decreases file_commands.len() - f,
    {
        let fc = &file_commands[f];
        if !is_shadowed(builtins, fc) && matches_token(t.as_slice(), &fc.name, &fc.aliases) {
            let item = SlashPopupItem {
                label: label_for(&fc.name, &fc.aliases),
                description: fc.description.clone(),
                name: fc.name.clone(),
            };
            let ghost before = items@;
            items.push(item);
            assert(items@.map_values(|x: SlashPopupItem| item_view(x)) =~= before.map_values(|x: SlashPopupItem| item_view(x)).push(item_view(item)));
        }
        f += 1;
    }
    items
}

} // verus!
