//! The keyboard-shortcuts overlay.
use vstd::prelude::*;

use crate::overlay::OverlayState;
use crate::tool_box::strings_view;

verus! {

/// The lines of the keyboard-shortcuts cheatsheet.
pub open spec fn cheatsheet_text() -> Seq<Seq<char>> {
    seq![
        ""@,
        "  Navigation"@,
        "  j / ↓        Scroll down"@,
        "  k / ↑        Scroll up"@,
        "  J (Shift+j)  Next turn"@,
        "  K (Shift+k)  Previous turn"@,
        "  PgDn / PgUp  Page scroll"@,
        "  g / G        Top / bottom"@,
        ""@,
        "  Blocks"@,
        "  e            Cycle block (collapse/truncate/expand)"@,
        "  E            Expand all blocks"@,
        "  Ctrl+E       Collapse all blocks"@,
        ""@,
        "  Search"@,
        "  /find <q>    Search transcript"@,
        "  n / N        Next / previous match"@,
        ""@,
        "  Commands"@,
        "  /theme       Cycle color theme"@,
        "  /model       Pick a model"@,
        "  /vim         Toggle vim mode"@,
        "  /compact     Compact context"@,
        "  /clear       Clear conversation"@,
        "  Ctrl+C       Cancel run (then y to quit)"@,
        "  Ctrl+Enter   Send now (abort + submit)"@,
        "  Ctrl+M       Toggle multiline input"@,
        "  Shift+Tab    Toggle Auto mode (no questions, runs to end)"@,
        "  Ctrl+;       Toggle queue panel"@,
        ""@,
        "  Special Input"@,
        "  @           File picker (fuzzy search)"@,
        "  @!          Toggle hidden files in picker"@,
        "  !           Shell mode (bash command)"@,
    ]
}

/// The lines of the keyboard-shortcuts cheatsheet.
pub fn cheatsheet_lines() -> (v: Vec<String>)
    ensures
        strings_view(v@) == cheatsheet_text(),
{
    let mut v: Vec<String> = Vec::new();
    v.push(String::from_str(""));
    v.push(String::from_str("  Navigation"));
    v.push(String::from_str("  j / ↓        Scroll down"));
    v.push(String::from_str("  k / ↑        Scroll up"));
    v.push(String::from_str("  J (Shift+j)  Next turn"));
    v.push(String::from_str("  K (Shift+k)  Previous turn"));
    v.push(String::from_str("  PgDn / PgUp  Page scroll"));
    v.push(String::from_str("  g / G        Top / bottom"));
    v.push(String::from_str(""));
    v.push(String::from_str("  Blocks"));
    v.push(String::from_str("  e            Cycle block (collapse/truncate/expand)"));
    v.push(String::from_str("  E            Expand all blocks"));
    v.push(String::from_str("  Ctrl+E       Collapse all blocks"));
    v.push(String::from_str(""));
    v.push(String::from_str("  Search"));
    v.push(String::from_str("  /find <q>    Search transcript"));
    v.push(String::from_str("  n / N        Next / previous match"));
    v.push(String::from_str(""));
    v.push(String::from_str("  Commands"));
    v.push(String::from_str("  /theme       Cycle color theme"));
    v.push(String::from_str("  /model       Pick a model"));
    v.push(String::from_str("  /vim         Toggle vim mode"));
    v.push(String::from_str("  /compact     Compact context"));
    v.push(String::from_str("  /clear       Clear conversation"));
    v.push(String::from_str("  Ctrl+C       Cancel run (then y to quit)"));
    v.push(String::from_str("  Ctrl+Enter   Send now (abort + submit)"));
    v.push(String::from_str("  Ctrl+M       Toggle multiline input"));
    v.push(String::from_str("  Shift+Tab    Toggle Auto mode (no questions, runs to end)"));
    v.push(String::from_str("  Ctrl+;       Toggle queue panel"));
    v.push(String::from_str(""));
    v.push(String::from_str("  Special Input"));
    v.push(String::from_str("  @           File picker (fuzzy search)"));
    v.push(String::from_str("  @!          Toggle hidden files in picker"));
    v.push(String::from_str("  !           Shell mode (bash command)"));
    assert(strings_view(v@) =~= cheatsheet_text());
    v
}

/// The keyboard-shortcuts overlay: a titled, read-only panel of the
/// cheatsheet lines.
pub fn cheatsheet_overlay() -> (o: OverlayState)
    ensures
        o.title@ == "Keyboard Shortcuts"@,
        strings_view(o.lines@) == cheatsheet_text(),
        o.items@.len() == 0 && o.selected == 0 && o.search is None && o.secure_input is None,
        o.tabs@.len() == 0 && o.active_tab == 0 && o.sections@.len() == 0 && o.active_section == 0,
        o.key_capture is None,
{
    OverlayState {
        title: String::from_str("Keyboard Shortcuts"),
        lines: cheatsheet_lines(),
        items: Vec::new(),
        selected: 0,
        search: None,
        secure_input: None,
        tabs: Vec::new(),
        active_tab: 0,
        sections: Vec::new(),
        active_section: 0,
        key_capture: None,
    }
}

} // verus!
