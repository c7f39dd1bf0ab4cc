//! Overlay (modal list / prompt) state and its keyboard handling.
use vstd::prelude::*;

use crate::provider::AuthAction;
use crate::text::{chars_of, contains, lowercase, seq_contains, unicode_lower};

verus! {

/// A key press, as the input thread hands it to the library.
#[derive(Debug, Clone, Copy, PartialEq, Eq, Structural)]
pub enum KeyInput {
    Char(char),
    Enter,
    Esc,
    Backspace,
    Delete,
    Left,
    Right,
    Up,
    Down,
    Tab,
    BackTab,
    PageUp,
    PageDown,
    Other,
}

/// What a list-overlay row reports back when it is submitted.
#[derive(Debug, PartialEq, Eq)]
pub enum ListSelection {
    Model(usize),
    Theme(String),
    SlashCommand(String),
    ConfigAction(String),
    SettingsTab(usize),
    SettingsSection(usize),
    SettingKeyCapture(String),
    SettingTextEdit(String),
    SettingSubmenuOpen(String),
    SettingMultiselect(String),
    Session(String),
    CatalogModel(usize),
    ProviderRow(usize),
    ProviderAction { provider: String, action: AuthAction },
}

impl Clone for ListSelection {
    fn clone(&self) -> (c: Self)
        ensures
            c == *self,
    {
        match self {
            ListSelection::Model(i) => ListSelection::Model(*i),
            ListSelection::Theme(s) => ListSelection::Theme(s.clone()),
            ListSelection::SlashCommand(s) => ListSelection::SlashCommand(s.clone()),
            ListSelection::ConfigAction(s) => ListSelection::ConfigAction(s.clone()),
            ListSelection::SettingsTab(i) => ListSelection::SettingsTab(*i),
            ListSelection::SettingsSection(i) => ListSelection::SettingsSection(*i),
            ListSelection::SettingKeyCapture(s) => ListSelection::SettingKeyCapture(s.clone()),
            ListSelection::SettingTextEdit(s) => ListSelection::SettingTextEdit(s.clone()),
            ListSelection::SettingSubmenuOpen(s) => ListSelection::SettingSubmenuOpen(s.clone()),
            ListSelection::SettingMultiselect(s) => ListSelection::SettingMultiselect(s.clone()),
            ListSelection::Session(s) => ListSelection::Session(s.clone()),
            ListSelection::CatalogModel(i) => ListSelection::CatalogModel(*i),
            ListSelection::ProviderRow(i) => ListSelection::ProviderRow(*i),
            ListSelection::ProviderAction { provider, action } => ListSelection::ProviderAction {
                provider: provider.clone(),
                action: *action,
            },
        }
    }
}

/// One item rendered inside a list overlay.
#[derive(Debug, Clone)]
pub struct OverlayListItem {
    pub title: String,
    pub subtitle: Option<String>,
    pub badge: Option<String>,
    pub indent: u8,
    pub search_value: Option<String>,
    /// Echoed back on submit; `None` marks a read-only row.
    pub selection: Option<ListSelection>,
}

/// The search bar of an overlay.
#[derive(Debug, Clone)]
pub struct OverlaySearchState {
    pub label: String,
    pub placeholder: Option<String>,
    pub value: String,
}

/// A single-line (optionally masked) text prompt carried by an overlay:
/// the edited characters and the caret position between them.
#[derive(Debug, Clone)]
pub struct OverlaySecureInput {
    pub label: String,
    pub placeholder: Option<String>,
    pub mask_input: bool,
    pub chars: Vec<char>,
    pub cursor: usize,
}

/// Overlay modal/list state.
#[derive(Debug, Clone)]
pub struct OverlayState {
    pub title: String,
    pub lines: Vec<String>,
    pub items: Vec<OverlayListItem>,
    pub selected: usize,
    pub search: Option<OverlaySearchState>,
    pub secure_input: Option<OverlaySecureInput>,
    /// Tab-bar labels (settings panel only; empty means no tab bar).
    pub tabs: Vec<String>,
    pub active_tab: usize,
    /// Sidebar section labels for the active tab.
    pub sections: Vec<String>,
    pub active_section: usize,
    /// `Some(action name)` while the "press a key combo" prompt is up.
    pub key_capture: Option<String>,
}

/// What the user submitted from an overlay.
#[derive(Debug, Clone, PartialEq, Eq)]
pub enum OverlaySubmission {
    Selection(ListSelection),
    SecureInput(String),
}

/// The event an overlay key sends to the event loop.
#[derive(Debug, Clone, PartialEq, Eq)]
pub enum OverlayEvent {
    Submitted(OverlaySubmission),
    Cancelled,
}

/// An item is a match for the (lowercased) filter `needle`.
pub open spec fn item_matches(item: OverlayListItem, needle: Seq<char>) -> bool {
    seq_contains(unicode_lower(item.title@), needle) || (match item.search_value {
        Some(v) => seq_contains(unicode_lower(v@), needle),
        None => false,
    })
}

/// The lowercased search filter of an overlay (empty without a search bar).
pub open spec fn overlay_needle(o: OverlayState) -> Seq<char> {
    match o.search {
        Some(s) => unicode_lower(s.value@),
        None => Seq::empty(),
    }
}

/// The indices of the items that match the filter, in order.
pub open spec fn filtered_from(items: Seq<OverlayListItem>, needle: Seq<char>, n: int) -> Seq<usize>
    decreases n,
{
    if n <= 0 {
        Seq::empty()
    } else {
        let prev = filtered_from(items, needle, n - 1);
        if needle.len() == 0 || item_matches(items[n - 1], needle) {
            prev.push((n - 1) as usize)
        } else {
            prev
        }
    }
}

/// The indices of `o.items` that match its search filter, in order; every
/// index when the filter is empty or absent.
pub open spec fn filtered_indices(o: OverlayState) -> Seq<usize> {
    filtered_from(o.items@, overlay_needle(o), o.items@.len() as int)
}

pub proof fn lemma_filtered_from_bounds(items: Seq<OverlayListItem>, needle: Seq<char>, n: int)
    requires
        n <= items.len(),
    ensures
        forall|k: int| 0 <= k < filtered_from(items, needle, n).len() ==> (filtered_from(items, needle, n)[k] as int) < n,
        filtered_from(items, needle, n).len() <= if n < 0 { 0 } else { n },
    decreases n,
{
    if n > 0 {
        lemma_filtered_from_bounds(items, needle, n - 1);
    }
}

/// Return the indices of `overlay.items` that match the current search
/// filter (title or search value contains the lowercased filter). Without a
/// filter, every index.
pub fn overlay_filtered_indices(overlay: &OverlayState) -> (v: Vec<usize>)
    ensures
        v@ == filtered_indices(*overlay),
{
    let needle_s = match &overlay.search {
        Some(s) => lowercase(s.value.as_str()),
        None => String::new(),
    };
    let needle = chars_of(needle_s.as_str());
    assert(needle@ == overlay_needle(*overlay));
    let mut v: Vec<usize> = Vec::new();
    let mut i: usize = 0;
    while i < overlay.items.len()
        invariant
            i <= overlay.items.len(),
            needle@ == overlay_needle(*overlay),
            v@ == filtered_from(overlay.items@, needle@, i as int),
        decreases overlay.items.len() - i,
    {
        let hit = if needle.len() == 0 {
            true
        } else {
            let item = &overlay.items[i];
            let t = lowercase(item.title.as_str());
            let tc = chars_of(t.as_str());
            let title_hit = contains(tc.as_slice(), needle.as_slice());
            let sv_hit = match &item.search_value {
                Some(sv) => {
                    let l = lowercase(sv.as_str());
                    let lc = chars_of(l.as_str());
                    contains(lc.as_slice(), needle.as_slice())
                },
                None => false,
            };
            title_hit || sv_hit
        };
        if hit {
            v.push(i);
        }
        i += 1;
    }
    v
}

/// The position of `x` in `s`, or `0` when absent.
pub open spec fn position_or_zero(s: Seq<usize>, x: usize) -> int {
    if exists|k: int| 0 <= k < s.len() && s[k] == x {
        choose|k: int| 0 <= k < s.len() && s[k] == x && forall|j: int| 0 <= j < k ==> s[j] != x
    } else {
        0
    }
}

pub(crate) fn position_of(s: &Vec<usize>, x: usize) -> (p: usize)
    ensures
        p == position_or_zero(s@, x),
        s@.len() > 0 ==> p < s@.len(),
{
    let mut k: usize = 0;
    while k < s.len()
        invariant
            k <= s.len(),
            forall|j: int| 0 <= j < k ==> s@[j] != x,
        decreases s.len() - k,
    {
        if s[k] == x {
            proof {
                let w = choose|w: int| 0 <= w < s@.len() && s@[w] == x && forall|j: int| 0 <= j < w ==> s@[j] != x;
                if w < k {
                } else if w > k {
                    assert(s@[k as int] == x);
                }
            }
            return k;
        }
        k += 1;
    }
    0
}

/// Move the selection of `o` one filtered row up (`up`) or down, wrapping
/// around; the row is found among the filtered indices (the first one when
/// the selection is filtered out). No change without filtered rows.
pub open spec fn moved_selection(o: OverlayState, up: bool) -> usize {
    let f = filtered_indices(o);
    let len = f.len();
    if len == 0 {
        o.selected
    } else {
        let pos = position_or_zero(f, o.selected);
        if up {
            if pos == 0 { f[len - 1] } else { f[pos - 1] }
        } else {
            if pos + 1 >= len { f[0] } else { f[pos + 1] }
        }
    }
}

/// Up/Down navigation inside a list overlay.
pub fn overlay_move_selection(overlay: &mut OverlayState, up: bool)
    ensures
        final(overlay).selected == moved_selection(*old(overlay), up),
        final(overlay).items@ == old(overlay).items@,
        final(overlay).search == old(overlay).search,
        final(overlay).title == old(overlay).title,
        final(overlay).tabs@ == old(overlay).tabs@,
        final(overlay).active_tab == old(overlay).active_tab,
{
    let filtered = overlay_filtered_indices(overlay);
    let len = filtered.len();
    if len == 0 {
        return;
    }
    let pos = position_of(&filtered, overlay.selected);
    assert(pos < len);
    let new_sel = if up {
        if pos == 0 { filtered[len - 1] } else { filtered[pos - 1] }
    } else {
        if pos + 1 >= len { filtered[0] } else { filtered[pos + 1] }
    };
    overlay.selected = new_sel;
}

/// The outcome of one key press while an overlay is open.
#[derive(Debug, Clone, PartialEq, Eq)]
pub struct OverlayKeyOutcome {
    /// The key was consumed by the overlay.
    pub consumed: bool,
    /// The overlay must close.
    pub close: bool,
    /// The event to send to the event loop.
    pub event: Option<OverlayEvent>,
    /// The settings-panel tab to rebuild the overlay for.
    pub switch_tab: Option<usize>,
}

} // verus!

verus! {

/// A printable character the single-line prompt accepts: ASCII graphic or
/// space.
pub open spec fn prompt_accepts(c: char) -> bool {
    ('!' <= c && c <= '~') || c == ' '
}

/// `n` and `out` are the effect of `key` on the prompt `o`.
pub open spec fn secure_key_ok(o: OverlaySecureInput, n: OverlaySecureInput, key: KeyInput, out: OverlayKeyOutcome) -> bool {
    &&& n.cursor <= n.chars@.len()
    &&& n.label == o.label
    &&& n.mask_input == o.mask_input
    &&& out.consumed
    &&& out.switch_tab is None
    &&& match key {
        KeyInput::Backspace => !out.close && out.event is None && if o.cursor > 0 {
            &&& n.chars@ == o.chars@.remove(o.cursor - 1)
            &&& n.cursor == o.cursor - 1
        } else {
            n.chars@ == o.chars@ && n.cursor == 0
        },
        KeyInput::Left => !out.close && out.event is None && n.chars@ == o.chars@
            && n.cursor == (if o.cursor > 0 { o.cursor - 1 } else { 0 }),
        KeyInput::Right => !out.close && out.event is None && n.chars@ == o.chars@
            && n.cursor == (if o.cursor < o.chars@.len() { o.cursor + 1 } else { o.cursor as int }),
        KeyInput::Enter => out.close && n.chars@ == o.chars@
            && (out.event matches Some(OverlayEvent::Submitted(OverlaySubmission::SecureInput(t))) && t@ == o.chars@),
        KeyInput::Esc => out.close && out.event == Some(OverlayEvent::Cancelled)
            && n.chars@ == o.chars@,
        KeyInput::Char(c) => !out.close && out.event is None && if prompt_accepts(c) {
            &&& n.chars@ == o.chars@.insert(o.cursor as int, c)
            &&& n.cursor == o.cursor + 1
        } else {
            n.chars@ == o.chars@ && n.cursor == o.cursor
        },
        _ => !out.close && out.event is None && n.chars@ == o.chars@
            && n.cursor == o.cursor,
    }
}

/// The effect of one key on a single-line prompt: caret moves, character
/// insertion and deletion before the caret, submission and cancellation.
pub fn secure_input_key(input: &mut OverlaySecureInput, key: KeyInput) -> (out: OverlayKeyOutcome)
    requires
        old(input).cursor <= old(input).chars@.len(),
        old(input).chars@.len() < usize::MAX,
    ensures
        secure_key_ok(*old(input), *final(input), key, out),
{
    let none = OverlayKeyOutcome { consumed: true, close: false, event: None, switch_tab: None };
    match key {
        KeyInput::Backspace => {
            if input.cursor > 0 {
                input.chars.remove(input.cursor - 1);
                input.cursor = input.cursor - 1;
            }
            none
        },
        KeyInput::Left => {
            if input.cursor > 0 {
                input.cursor = input.cursor - 1;
            }
            none
        },
        KeyInput::Right => {
            if input.cursor < input.chars.len() {
                input.cursor = input.cursor + 1;
            }
            none
        },
        KeyInput::Enter => {
            let text = crate::text::string_of(input.chars.as_slice());
            OverlayKeyOutcome {
                consumed: true,
                close: true,
                event: Some(OverlayEvent::Submitted(OverlaySubmission::SecureInput(text))),
                switch_tab: None,
            }
        },
        KeyInput::Esc => OverlayKeyOutcome {
            consumed: true,
            close: true,
            event: Some(OverlayEvent::Cancelled),
            switch_tab: None,
        },
        KeyInput::Char(c) => {
            if ('!' <= c && c <= '~') || c == ' ' {
                input.chars.insert(input.cursor, c);
                input.cursor = input.cursor + 1;
            }
            none
        },
        _ => none,
    }
}

/// `s` without its trailing newlines.
pub open spec fn without_trailing_newlines(s: Seq<char>) -> Seq<char>
    decreases s.len(),
{
    if s.len() > 0 && s.last() == '\n' { without_trailing_newlines(s.drop_last()) } else { s }
}

/// The characters of `s` a prompt accepts, in order.
pub open spec fn accepted_chars(s: Seq<char>) -> Seq<char>
    decreases s.len(),
{
    if s.len() == 0 {
        s
    } else if prompt_accepts(s.last()) {
        accepted_chars(s.drop_last()).push(s.last())
    } else {
        accepted_chars(s.drop_last())
    }
}

proof fn lemma_accepted_len(s: Seq<char>)
    ensures
        accepted_chars(s).len() <= s.len(),
    decreases s.len(),
{
    if s.len() > 0 {
        lemma_accepted_len(s.drop_last());
    }
}

/// A paste into a single-line prompt: the trailing newlines are dropped,
/// then the characters the prompt accepts go in at the caret, in order,
/// and the caret follows them.
pub fn paste_into_prompt(input: &mut OverlaySecureInput, text: &str)
    requires
        old(input).cursor <= old(input).chars@.len(),
        old(input).chars@.len() + text@.len() < usize::MAX,
    ensures
        ({
            let kept = accepted_chars(without_trailing_newlines(text@));
            let c = old(input).cursor as int;
            &&& final(input).chars@ == old(input).chars@.take(c) + kept + old(input).chars@.skip(c)
            &&& final(input).cursor == c + kept.len()
            &&& final(input).label == old(input).label
            &&& final(input).placeholder == old(input).placeholder
            &&& final(input).mask_input == old(input).mask_input
        }),
{
    let cs = chars_of(text);
    let mut end = cs.len();
    assert(cs@.take(cs@.len() as int) =~= cs@);
    while end > 0 && cs[end - 1] == '\n'
        invariant
            end <= cs@.len(),
            without_trailing_newlines(cs@.take(end as int)) == without_trailing_newlines(cs@),
        decreases end,
    {
        assert(cs@.take(end as int).drop_last() =~= cs@.take(end - 1));
        end -= 1;
    }
    assert(cs@.take(cs@.len() as int) =~= cs@);
    let ghost t = cs@.take(end as int);
    assert(without_trailing_newlines(t) == t);
    let ghost c0 = input.cursor as int;
    let ghost before = input.chars@;
    let mut i: usize = 0;
    proof {
        lemma_accepted_len(t);
        assert(t.take(0) =~= Seq::<char>::empty());
        assert(before.take(c0) + Seq::<char>::empty() + before.skip(c0) =~= before);
    }
    while i < end
        invariant
            i <= end <= cs@.len(),
            t == cs@.take(end as int),
            before.len() + cs@.len() < usize::MAX,
            0 <= c0 <= before.len(),
            input.chars@ == before.take(c0) + accepted_chars(t.take(i as int)) + before.skip(c0),
            input.cursor == c0 + accepted_chars(t.take(i as int)).len(),
            input.label == old(input).label,
            input.placeholder == old(input).placeholder,
            input.mask_input == old(input).mask_input,
        decreases end - i,
    {
        proof {
            lemma_accepted_len(t.take(i as int));
        }
        let ch = cs[i];
        assert(t.take(i + 1).drop_last() =~= t.take(i as int));
        assert(t.take(i + 1).last() == ch);
        if ('!' <= ch && ch <= '~') || ch == ' ' {
            let ghost prev = input.chars@;
            input.chars.insert(input.cursor, ch);
            input.cursor = input.cursor + 1;
            proof {
                let a = accepted_chars(t.take(i as int));
                assert(input.chars@ =~= before.take(c0) + a.push(ch) + before.skip(c0));
            }
        }
        i += 1;
    }
    assert(t.take(end as int) =~= t);
}

/// `n` and `out` are the effect of `key` on the list overlay `o`.
pub open spec fn list_key_ok(o: OverlayState, n: OverlayState, key: KeyInput, out: OverlayKeyOutcome) -> bool {
    &&& out.consumed
    &&& n.items@ == o.items@
    &&& n.tabs@ == o.tabs@
    &&& n.active_tab == o.active_tab
    &&& match key {
        KeyInput::Esc => out.close && out.event == Some(OverlayEvent::Cancelled) && out.switch_tab is None,
        KeyInput::Enter => out.switch_tab is None && if o.selected < o.items@.len() {
            match o.items@[o.selected as int].selection {
                Some(sel) => out.close && out.event == Some(OverlayEvent::Submitted(OverlaySubmission::Selection(sel))),
                None => !out.close && out.event is None,
            }
        } else {
            out.close && out.event == Some(OverlayEvent::Cancelled)
        },
        KeyInput::Up => !out.close && out.event is None && out.switch_tab is None
            && n.selected == moved_selection(o, true),
        KeyInput::Down => !out.close && out.event is None && out.switch_tab is None
            && n.selected == moved_selection(o, false),
        KeyInput::Backspace => !out.close && out.event is None && out.switch_tab is None && match o.search {
            Some(s) => n.search matches Some(t) && t.value@ == (if s.value@.len() > 0 { s.value@.drop_last() } else { s.value@ })
                && n.selected == 0,
            None => n.search is None && n.selected == o.selected,
        },
        KeyInput::Char(c) => !out.close && out.event is None && out.switch_tab is None && match o.search {
            Some(s) => n.search matches Some(t) && t.value@ == s.value@.push(c)
                && n.selected == 0,
            None => n.search is None && n.selected == o.selected,
        },
        KeyInput::Left | KeyInput::Right => !out.close && out.event is None && {
            let len = o.tabs@.len();
            let cur = o.active_tab;
            if len > 1 {
                out.switch_tab == Some(if key == KeyInput::Right { ((cur + 1) % (len as int)) as usize } else if cur >= 1 { (cur - 1) as usize } else { (len - 1) as usize })
            } else {
                out.switch_tab is None
            }
        },
        _ => !out.close && out.event is None && out.switch_tab is None && n.selected == o.selected,
    }
}

/// The effect of one key on a list overlay: Esc cancels; Enter submits the
/// selected row (a read-only row keeps the overlay open; an empty list
/// cancels); Up/Down move among the filtered rows; Backspace and characters
/// edit the search filter and reset the selection; Left/Right cycle the tab
/// bar of a tabbed overlay; every other key is swallowed.
pub fn list_overlay_key(overlay: &mut OverlayState, key: KeyInput) -> (out: OverlayKeyOutcome)
    ensures
        list_key_ok(*old(overlay), *final(overlay), key, out),
{
    let none = OverlayKeyOutcome { consumed: true, close: false, event: None, switch_tab: None };
    match key {
        KeyInput::Esc => OverlayKeyOutcome {
            consumed: true,
            close: true,
            event: Some(OverlayEvent::Cancelled),
            switch_tab: None,
        },
        KeyInput::Enter => {
            if overlay.selected < overlay.items.len() {
                match &overlay.items[overlay.selected].selection {
                    Some(sel) => OverlayKeyOutcome {
                        consumed: true,
                        close: true,
                        event: Some(OverlayEvent::Submitted(OverlaySubmission::Selection(sel.clone()))),
                        switch_tab: None,
                    },
                    None => none,
                }
            } else {
                OverlayKeyOutcome {
                    consumed: true,
                    close: true,
                    event: Some(OverlayEvent::Cancelled),
                    switch_tab: None,
                }
            }
        },
        KeyInput::Up => {
            overlay_move_selection(overlay, true);
            none
        },
        KeyInput::Down => {
            overlay_move_selection(overlay, false);
            none
        },
        KeyInput::Backspace => {
            match &mut overlay.search {
                Some(s) => {
                    let _ = crate::text::pop_char(&mut s.value);
                    overlay.selected = 0;
                },
                None => {},
            }
            none
        },
        KeyInput::Char(c) => {
            match &mut overlay.search {
                Some(s) => {
                    crate::text::push_char(&mut s.value, c);
                    overlay.selected = 0;
                },
                None => {},
            }
            none
        },
        KeyInput::Left | KeyInput::Right => {
            let n = overlay.tabs.len();
            if n > 1 {
                let next = if key == KeyInput::Right {
                    let r = overlay.active_tab % n;
                    proof {
                        vstd::arithmetic::div_mod::lemma_add_mod_noop(overlay.active_tab as int, 1, n as int);
                        vstd::arithmetic::div_mod::lemma_small_mod(1, n as nat);
                        assert((r + 1) % (n as int) == (overlay.active_tab + 1) % (n as int));
                    }
                    (r + 1) % n
                } else if overlay.active_tab >= 1 {
                    overlay.active_tab - 1
                } else {
                    n - 1
                };
                OverlayKeyOutcome { consumed: true, close: false, event: None, switch_tab: Some(next) }
            } else {
                none
            }
        },
        _ => none,
    }
}

/// The text prompt a modal asks for.
#[derive(Debug, Clone)]
pub struct SecurePromptConfig {
    pub label: String,
    pub placeholder: Option<String>,
    pub mask_input: bool,
}

/// The search bar a list asks for.
#[derive(Debug, Clone)]
pub struct SearchConfig {
    pub label: String,
    pub placeholder: Option<String>,
}

/// One step of a multi-step flow.
#[derive(Debug)]
pub struct WizardStep {
    pub items: Vec<OverlayListItem>,
}

/// An overlay the harness asks the front end to show.
#[derive(Debug)]
pub enum OverlayRequest {
    Modal { title: String, lines: Vec<String>, secure_prompt: Option<SecurePromptConfig> },
    List { title: String, lines: Vec<String>, items: Vec<OverlayListItem>, search: Option<SearchConfig> },
    /// Multi-step flows are shown by their first step.
    Wizard { title: String, steps: Vec<WizardStep>, search: Option<SearchConfig> },
}

/// A search bar built from `cfg`, empty.
pub open spec fn search_from(s: Option<OverlaySearchState>, cfg: Option<SearchConfig>) -> bool {
    match (s, cfg) {
        (None, None) => true,
        (Some(st), Some(c)) => st.label == c.label && st.placeholder == c.placeholder && st.value@.len() == 0,
        _ => false,
    }
}

/// `o` is the overlay state for request `r`: a modal with its optional
/// empty prompt, a list with its items and optional empty search bar, or
/// a flow's first step. Nothing is selected and nothing else is set.
pub open spec fn materialized(r: OverlayRequest, o: OverlayState) -> bool {
    &&& o.selected == 0
    &&& o.tabs@.len() == 0 && o.active_tab == 0 && o.sections@.len() == 0 && o.active_section == 0
    &&& o.key_capture is None
    &&& match r {
        OverlayRequest::Modal { title, lines, secure_prompt } => {
            &&& o.title == title && o.lines == lines && o.items@.len() == 0 && o.search is None
            &&& match (o.secure_input, secure_prompt) {
                (None, None) => true,
                (Some(si), Some(cfg)) => si.label == cfg.label && si.placeholder == cfg.placeholder
                    && si.mask_input == cfg.mask_input && si.chars@.len() == 0 && si.cursor == 0,
                _ => false,
            }
        },
        OverlayRequest::List { title, lines, items, search } => {
            &&& o.title == title && o.lines == lines && o.items == items && o.secure_input is None
            &&& search_from(o.search, search)
        },
        OverlayRequest::Wizard { title, steps, search } => {
            &&& o.title == title && o.lines@.len() == 0 && o.secure_input is None
            &&& (if steps@.len() > 0 { o.items == steps@[0].items } else { o.items@.len() == 0 })
            &&& search_from(o.search, search)
        },
    }
}

fn search_state(cfg: Option<SearchConfig>) -> (s: Option<OverlaySearchState>)
    ensures
        search_from(s, cfg),
{
    match cfg {
        Some(c) => Some(OverlaySearchState { label: c.label, placeholder: c.placeholder, value: String::new() }),
        None => None,
    }
}

/// The overlay state for an overlay request.
pub fn materialize_overlay(request: OverlayRequest) -> (o: OverlayState)
    ensures
        materialized(request, o),
{
    match request {
        OverlayRequest::Modal { title, lines, secure_prompt } => {
            let secure_input = match secure_prompt {
                Some(cfg) => Some(OverlaySecureInput {
                    label: cfg.label,
                    placeholder: cfg.placeholder,
                    mask_input: cfg.mask_input,
                    chars: Vec::new(),
                    cursor: 0,
                }),
                None => None,
            };
            OverlayState {
                title,
                lines,
                items: Vec::new(),
                selected: 0,
                search: None,
                secure_input,
                tabs: Vec::new(),
                active_tab: 0,
                sections: Vec::new(),
                active_section: 0,
                key_capture: None,
            }
        },
        OverlayRequest::List { title, lines, items, search } => OverlayState {
            title,
            lines,
            items,
            selected: 0,
            search: search_state(search),
            secure_input: None,
            tabs: Vec::new(),
            active_tab: 0,
            sections: Vec::new(),
            active_section: 0,
            key_capture: None,
        },
        OverlayRequest::Wizard { title, steps, search } => {
            let mut steps = steps;
            let items = if steps.len() > 0 { steps.remove(0).items } else { Vec::new() };
            OverlayState {
                title,
                lines: Vec::new(),
                items,
                selected: 0,
                search: search_state(search),
                secure_input: None,
                tabs: Vec::new(),
                active_tab: 0,
                sections: Vec::new(),
                active_section: 0,
                key_capture: None,
            }
        },
    }
}

} // verus!
