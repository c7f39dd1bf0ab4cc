//! The settings panel's definition table (key name, label, editor) and the
//! editors a row opens: the value picker of a submenu setting, the text
//! prompt of a free-form setting, and the tool list of the disabled-tools
//! setting.
use vstd::prelude::*;

use crate::controls::GlobalAction;
use crate::overlay::{ListSelection, OverlayListItem, OverlayState};
use crate::palette::{sorted_order, sorted_order_of};
use crate::render_state::{RenderState, SecureInputOrigin};
use crate::secure::{is_text_prompt, text_prompt_overlay};
use crate::text::{chars_of, push_str, str_eq};
use crate::tool_box::strings_view;

verus! {

/// The tabs of the settings panel.
#[derive(Debug, Clone, Copy, PartialEq, Eq, Structural)]
pub enum SettingsTab {
    General,
    Model,
    Interaction,
    Tools,
    Ui,
    AdvisorMemory,
    Advanced,
    Keybindings,
}

/// The position of a tab in the panel's tab bar: General, Model,
/// Interaction, Tools, UI, Advisor & Memory, Keybindings, Advanced.
pub open spec fn tab_position(tab: SettingsTab) -> usize {
    match tab {
        SettingsTab::General => 0,
        SettingsTab::Model => 1,
        SettingsTab::Interaction => 2,
        SettingsTab::Tools => 3,
        SettingsTab::Ui => 4,
        SettingsTab::AdvisorMemory => 5,
        SettingsTab::Keybindings => 6,
        SettingsTab::Advanced => 7,
    }
}

/// The position of `tab` in the tab bar (see `tab_position`).
pub fn settings_tab_index(tab: SettingsTab) -> (i: usize)
    ensures
        i == tab_position(tab),
{
    match tab {
        SettingsTab::General => 0,
        SettingsTab::Model => 1,
        SettingsTab::Interaction => 2,
        SettingsTab::Tools => 3,
        SettingsTab::Ui => 4,
        SettingsTab::AdvisorMemory => 5,
        SettingsTab::Keybindings => 6,
        SettingsTab::Advanced => 7,
    }
}

/// A selection only a settings-panel row carries.
pub open spec fn is_settings_selection(s: ListSelection) -> bool {
    ||| s is ConfigAction
    ||| s is SettingsTab
    ||| s is SettingsSection
    ||| s is SettingKeyCapture
    ||| s is SettingTextEdit
    ||| s is SettingSubmenuOpen
    ||| s is SettingMultiselect
}

/// The row carries a settings selection.
pub open spec fn row_is_settings(item: OverlayListItem) -> bool {
    match item.selection {
        Some(s) => is_settings_selection(s),
        None => false,
    }
}

/// The overlay is the settings list: some row carries a settings selection.
pub open spec fn is_settings_list(o: OverlayState) -> bool {
    exists|i: int| 0 <= i < o.items@.len() && row_is_settings(#[trigger] o.items@[i])
}

/// Whether a shown overlay is the settings list, which the host replaces
/// by the full tabbed settings panel (see `is_settings_list`).
pub fn is_settings_overlay(o: &OverlayState) -> (r: bool)
    ensures
        r == is_settings_list(*o),
{
    let mut i: usize = 0;
    while i < o.items.len()
        invariant
            i <= o.items@.len(),
            forall|j: int| 0 <= j < i ==> !row_is_settings(#[trigger] o.items@[j]),
        decreases o.items@.len() - i,
    {
        let hit = match &o.items[i].selection {
            Some(ListSelection::ConfigAction(_)) | Some(ListSelection::SettingsTab(_)) | Some(ListSelection::SettingsSection(_))
            | Some(ListSelection::SettingKeyCapture(_)) | Some(ListSelection::SettingTextEdit(_))
            | Some(ListSelection::SettingSubmenuOpen(_)) | Some(ListSelection::SettingMultiselect(_)) => true,
            _ => false,
        };
        assert(hit == row_is_settings(o.items@[i as int]));
        if hit {
            return true;
        }
        i += 1;
    }
    false
}

/// A settings-panel row that edits one entry of a map setting.
#[derive(Debug, PartialEq, Eq)]
pub enum SettingsMapRow {
    /// One combo bound to a global shortcut.
    KeybindingCombo(GlobalAction, String),
    /// A named model role.
    ModelRole(String),
}

/// How a setting row is edited.
#[derive(Debug)]
pub enum SettingWidget {
    /// A boolean flipped in place.
    Toggle,
    /// A value stepped to the next one in place.
    Cycle,
    /// A free-form value typed into a prompt.
    Text,
    /// One of a fixed list of values, picked from a child list.
    SubmenuSelect(Vec<String>),
    /// A set of items toggled in a child list.
    Multiselect,
    /// A map of named entries edited row by row.
    MapEditor,
}

/// One row of the settings table: the key's name, the label the panel
/// shows, and its editor.
#[derive(Debug)]
pub struct SettingDef {
    pub key: String,
    pub label: String,
    pub widget: SettingWidget,
}

/// The index of the first definition at or after `i` whose key is `key`.
pub open spec fn def_from(defs: Seq<SettingDef>, key: Seq<char>, i: int) -> Option<int>
    decreases defs.len() - i,
{
    if i < 0 || i >= defs.len() {
        None
    } else if defs[i].key@ == key {
        Some(i)
    } else {
        def_from(defs, key, i + 1)
    }
}

/// The index of the first definition of `key`.
pub open spec fn def_of(defs: Seq<SettingDef>, key: Seq<char>) -> Option<int> {
    def_from(defs, key, 0)
}

proof fn lemma_def_from_bounds(defs: Seq<SettingDef>, key: Seq<char>, i: int)
    ensures
        def_from(defs, key, i) matches Some(j) ==> i <= j < defs.len() && defs[j].key@ == key,
    decreases defs.len() - i,
{
    if 0 <= i < defs.len() && defs[i].key@ != key {
        lemma_def_from_bounds(defs, key, i + 1);
    }
}

/// Looks a setting up by its key name: the index of its first definition,
/// or `None` for a name the table does not know.
pub fn parse_setting_key(defs: &Vec<SettingDef>, name: &str) -> (r: Option<usize>)
    ensures
        match r {
            Some(i) => def_of(defs@, name@) == Some(i as int),
            None => def_of(defs@, name@) is None,
        },
{
    let mut i: usize = 0;
    while i < defs.len()
        invariant
            i <= defs@.len(),
            def_of(defs@, name@) == def_from(defs@, name@, i as int),
        decreases defs@.len() - i,
    {
        if str_eq(defs[i].key.as_str(), name) {
            return Some(i);
        }
        i += 1;
    }
    None
}

/// The label of a setting as the panel shows it (`setting` for a key the
/// table does not know).
pub open spec fn label_of(defs: Seq<SettingDef>, key: Seq<char>) -> Seq<char> {
    match def_of(defs, key) {
        Some(i) => defs[i].label@,
        None => "setting"@,
    }
}

/// The human label of setting `key`.
pub fn label_for_setting(defs: &Vec<SettingDef>, key: &str) -> (l: String)
    ensures
        l@ == label_of(defs@, key@),
{
    proof {
        lemma_def_from_bounds(defs@, key@, 0);
    }
    match parse_setting_key(defs, key) {
        Some(i) => defs[i].label.clone(),
        None => String::from_str("setting"),
    }
}

/// A copy of a list of strings.
fn copy_strings(v: &Vec<String>) -> (c: Vec<String>)
    ensures
        strings_view(c@) == strings_view(v@),
{
    let mut c: Vec<String> = Vec::new();
    let mut k: usize = 0;
    while k < v.len()
        invariant
            k <= v@.len(),
            strings_view(c@) == strings_view(v@).take(k as int),
        decreases v@.len() - k,
    {
        let ghost before = c@;
        c.push(v[k].clone());
        assert(strings_view(c@) =~= strings_view(before).push(v@[k as int]@));
        k += 1;
        assert(strings_view(v@).take(k as int) =~= strings_view(v@).take(k - 1).push(v@[k - 1]@));
    }
    assert(strings_view(v@).take(v@.len() as int) =~= strings_view(v@));
    c
}

/// The allowed values of a submenu setting; `None` for any other key.
pub fn submenu_options_for(defs: &Vec<SettingDef>, key: &str) -> (r: Option<Vec<String>>)
    ensures
        match def_of(defs@, key@) {
            Some(i) => match defs@[i].widget {
                SettingWidget::SubmenuSelect(opts) => r matches Some(v) && strings_view(v@) == strings_view(opts@),
                _ => r is None,
            },
            None => r is None,
        },
{
    proof {
        lemma_def_from_bounds(defs@, key@, 0);
    }
    match parse_setting_key(defs, key) {
        Some(i) => match &defs[i].widget {
            SettingWidget::SubmenuSelect(opts) => Some(copy_strings(opts)),
            _ => None,
        },
        None => None,
    }
}

/// The thinking levels, in the order the cycle steps through them.
pub open spec fn thinking_levels() -> Seq<Seq<char>> {
    seq!["off"@, "minimal"@, "low"@, "medium"@, "high"@, "xhigh"@]
}

/// The level after `current` (an unknown level counts as the first).
pub open spec fn level_after(current: Seq<char>) -> Seq<char> {
    let l = thinking_levels();
    if current == l[0] {
        l[1]
    } else if current == l[1] {
        l[2]
    } else if current == l[2] {
        l[3]
    } else if current == l[3] {
        l[4]
    } else if current == l[4] {
        l[5]
    } else if current == l[5] {
        l[0]
    } else {
        l[1]
    }
}

/// The glyph set after `current`: unicode, then ascii, then nerd, then
/// back to unicode.
pub open spec fn glyph_set_after(current: Seq<char>) -> Seq<char> {
    if current == "ascii"@ {
        "nerd"@
    } else if current == "nerd"@ {
        "unicode"@
    } else {
        "ascii"@
    }
}

/// The value a cycle row steps to from its displayed value `current`;
/// `None` for keys that do not cycle.
pub open spec fn cycled(key: Seq<char>, current: Seq<char>) -> Option<Seq<char>> {
    if key == "ThinkingLevel"@ {
        Some(level_after(current))
    } else if key == "GlyphSet"@ {
        Some(glyph_set_after(current))
    } else if key == "EditFormat"@ {
        Some(if current == "hashline"@ { "str_replace"@ } else { "hashline"@ })
    } else {
        None
    }
}

/// The next value of a cycle setting `key` whose displayed value is
/// `current`.
pub fn next_cycle_value(key: &str, current: &str) -> (r: Option<String>)
    ensures
        match cycled(key@, current@) {
            Some(v) => r matches Some(s) && s@ == v,
            None => r is None,
        },
{
    proof {
        reveal_strlit("ThinkingLevel");
        reveal_strlit("GlyphSet");
        reveal_strlit("EditFormat");
        reveal_strlit("off");
        reveal_strlit("minimal");
        reveal_strlit("low");
        reveal_strlit("medium");
        reveal_strlit("high");
        reveal_strlit("xhigh");
        reveal_strlit("ascii");
        reveal_strlit("nerd");
        reveal_strlit("unicode");
        reveal_strlit("hashline");
        reveal_strlit("str_replace");
    }
    if str_eq(key, "ThinkingLevel") {
        let next = if str_eq(current, "off") {
            "minimal"
        } else if str_eq(current, "minimal") {
            "low"
        } else if str_eq(current, "low") {
            "medium"
        } else if str_eq(current, "medium") {
            "high"
        } else if str_eq(current, "high") {
            "xhigh"
        } else if str_eq(current, "xhigh") {
            "off"
        } else {
            "minimal"
        };
        Some(String::from_str(next))
    } else if str_eq(key, "GlyphSet") {
        let next = if str_eq(current, "ascii") {
            "nerd"
        } else if str_eq(current, "nerd") {
            "unicode"
        } else {
            "ascii"
        };
        Some(String::from_str(next))
    } else if str_eq(key, "EditFormat") {
        Some(String::from_str(if str_eq(current, "hashline") { "str_replace" } else { "hashline" }))
    } else {
        None
    }
}

/// The selection a submenu row commits: `SubmenuCommit:<key>:<value>`.
pub open spec fn submenu_payload(key: Seq<char>, value: Seq<char>) -> Seq<char> {
    "SubmenuCommit:"@ + key + ":"@ + value
}

/// The position of the first `current` among `opts`, or 0.
pub open spec fn position_or_zero(opts: Seq<Seq<char>>, current: Seq<char>, i: int) -> int
    decreases opts.len() - i,
{
    if i < 0 || i >= opts.len() {
        0
    } else if opts[i] == current {
        i
    } else {
        position_or_zero(opts, current, i + 1)
    }
}

/// One value row of a submenu picker.
pub open spec fn submenu_item_ok(item: OverlayListItem, key: Seq<char>, opt: Seq<char>, current: Seq<char>) -> bool {
    &&& item.title@ == opt
    &&& item.subtitle is None
    &&& (if opt == current { item.badge matches Some(b) && b@ == "current"@ } else { item.badge is None })
    &&& item.indent == 0
    &&& item.search_value is None
    &&& item.selection matches Some(ListSelection::ConfigAction(p)) && p@ == submenu_payload(key, opt)
}

/// The value picker of submenu setting `key` (shown as `label`): one row
/// per allowed value, the `current` one badged and selected.
pub fn submenu_select_overlay(key: &str, label: &str, options: &Vec<String>, current: &str) -> (o: OverlayState)
    ensures
        o.title@ == "Pick value for "@ + label@,
        strings_view(o.lines@) == seq!["Esc cancels \u{2014} current: "@ + current@],
        o.items@.len() == options@.len(),
        forall|i: int| 0 <= i < options@.len() ==> submenu_item_ok(#[trigger] o.items@[i], key@, options@[i]@, current@),
        o.selected as int == position_or_zero(strings_view(options@), current@, 0),
        o.search is None && o.secure_input is None && o.key_capture is None,
        o.tabs@.len() == 0 && o.active_tab == 0 && o.sections@.len() == 0 && o.active_section == 0,
{
    let ghost opts = strings_view(options@);
    let mut items: Vec<OverlayListItem> = Vec::new();
    let mut selected: usize = 0;
    let mut found = false;
    let mut i: usize = 0;
    while i < options.len()
        invariant
            i <= options@.len(),
            opts == strings_view(options@),
            items@.len() == i,
            forall|k: int| 0 <= k < i ==> submenu_item_ok(#[trigger] items@[k], key@, options@[k]@, current@),
            found ==> selected as int == position_or_zero(opts, current@, 0),
            !found ==> position_or_zero(opts, current@, 0) == position_or_zero(opts, current@, i as int) && selected == 0,
        decreases options@.len() - i,
    {
        let opt = options[i].as_str();
        let is_current = str_eq(opt, current);
        if is_current && !found {
            found = true;
            selected = i;
        }
        let mut payload = String::from_str("SubmenuCommit:");
        push_str(&mut payload, key);
        push_str(&mut payload, ":");
        push_str(&mut payload, opt);
        items.push(OverlayListItem {
            title: String::from_str(opt),
            subtitle: None,
            badge: if is_current { Some(String::from_str("current")) } else { None },
            indent: 0,
            search_value: None,
            selection: Some(ListSelection::ConfigAction(payload)),
        });
        i += 1;
    }
    if !found {
        assert(position_or_zero(opts, current@, options@.len() as int) == 0);
    }
    let mut title = String::from_str("Pick value for ");
    push_str(&mut title, label);
    let mut line = String::from_str("Esc cancels \u{2014} current: ");
    push_str(&mut line, current);
    let mut lines: Vec<String> = Vec::new();
    lines.push(line);
    assert(strings_view(lines@) =~= seq!["Esc cancels \u{2014} current: "@ + current@]);
    OverlayState {
        title,
        lines,
        items,
        selected,
        search: None,
        secure_input: None,
        tabs: Vec::new(),
        active_tab: 0,
        sections: Vec::new(),
        active_section: 0,
        key_capture: None,
    }
}

/// The explanation shown above the text prompt of a setting.
pub open spec fn text_edit_line(label: Seq<char>) -> Seq<char> {
    "Enter the new value for "@ + label
        + " (Esc to cancel). Empty clears the override              when the field supports it."@
}

impl RenderState {
    /// Opens the text prompt editing setting `key` (shown as `label`),
    /// prefilled with its displayed value `current` unless that is
    /// `default`, and remembers that the submitted text edits `key`.
    pub fn open_text_edit_prompt(&mut self, key: &str, label: &str, current: &str)
        ensures
            final(self).overlay matches Some(o) && is_text_prompt(
                o,
                "Edit "@ + label@,
                text_edit_line(label@),
                "value"@,
                None,
                if current@ == "default"@ { Seq::empty() } else { current@ },
                false,
            ),
            final(self).secure_input_origin matches Some(SecureInputOrigin::TextEdit(k)) && k@ == key@,
            *final(self) == (RenderState {
                overlay: final(self).overlay,
                secure_input_origin: final(self).secure_input_origin,
                ..*old(self)
            }),
    {
        self.secure_input_origin = Some(SecureInputOrigin::TextEdit(String::from_str(key)));
        let mut title = String::from_str("Edit ");
        push_str(&mut title, label);
        let mut line = String::from_str("Enter the new value for ");
        push_str(&mut line, label);
        push_str(&mut line, " (Esc to cancel). Empty clears the override              when the field supports it.");
        let is_default = str_eq(current, "default");
        self.overlay = Some(text_prompt_overlay(title, line, "value", None, if is_default { None } else { Some(current) }));
    }
}

/// A tool as the disabled-tools editor lists it.
#[derive(Debug)]
pub struct ToolInfo {
    pub name: String,
    pub description: String,
    /// Essential tools cannot be disabled.
    pub essential: bool,
}

/// The badge of a tool row.
pub open spec fn tool_badge(essential: bool, disabled: bool) -> Seq<char> {
    if essential {
        if disabled { "essential \u{2014} locked"@ } else { "essential"@ }
    } else if disabled {
        "disabled"@
    } else {
        "enabled"@
    }
}

/// One row of the disabled-tools editor.
pub open spec fn tool_item_ok(item: OverlayListItem, t: ToolInfo, disabled: Seq<Seq<char>>) -> bool {
    &&& item.title@ == t.name@
    &&& item.subtitle matches Some(s) && s@ == t.description@
    &&& item.badge matches Some(b) && b@ == tool_badge(t.essential, disabled.contains(t.name@))
    &&& item.indent == 0
    &&& item.search_value is None
    &&& item.selection matches Some(ListSelection::ConfigAction(p)) && p@ == "DisabledToolToggle:"@ + t.name@
}

/// How many of the first `n` tools are disabled.
pub open spec fn disabled_count(tools: Seq<ToolInfo>, disabled: Seq<Seq<char>>, n: int) -> nat
    decreases n,
{
    if n <= 0 || n > tools.len() {
        0
    } else {
        disabled_count(tools, disabled, n - 1) + if disabled.contains(tools[n - 1].name@) { 1nat } else { 0nat }
    }
}

/// The names of the tools.
pub open spec fn tool_names(tools: Seq<ToolInfo>) -> Seq<Seq<char>> {
    tools.map_values(|t: ToolInfo| t.name@)
}

/// Whether `name` is among `list`.
fn listed(list: &Vec<String>, name: &str) -> (r: bool)
    ensures
        r == strings_view(list@).contains(name@),
{
    let mut i: usize = 0;
    while i < list.len()
        invariant
            i <= list@.len(),
            forall|k: int| 0 <= k < i ==> list@[k]@ != name@,
        decreases list@.len() - i,
    {
        if str_eq(list[i].as_str(), name) {
            assert(strings_view(list@)[i as int] == name@);
            return true;
        }
        i += 1;
    }
    proof {
        if strings_view(list@).contains(name@) {
            let k = choose|k: int| 0 <= k < strings_view(list@).len() && strings_view(list@)[k] == name@;
            assert(list@[k]@ == name@);
        }
    }
    false
}

/// The disabled-tools editor: every tool sorted by name (ties keep their
/// order) with its description and a badge for its state, and a header
/// counting the disabled ones.
pub fn disabled_tools_overlay(tools: &Vec<ToolInfo>, disabled: &Vec<String>) -> (o: OverlayState)
    requires
        tools@.len() < usize::MAX,
    ensures
        o.title@ == "Disabled tools"@,
        o.lines@.len() == 1,
        o.lines@[0]@ == crate::numfmt::decimal(disabled_count(tools@, strings_view(disabled@), tools@.len() as int))
            + " disabled \u{2014} Enter/Space toggles, Esc closes"@,
        exists|order: Seq<usize>| #![trigger sorted_order(tool_names(tools@), order, tools@.len() as int)] {
            &&& sorted_order(tool_names(tools@), order, tools@.len() as int)
            &&& o.items@.len() == tools@.len()
            &&& forall|i: int| 0 <= i < tools@.len() ==> tool_item_ok(#[trigger] o.items@[i], tools@[order[i] as int], strings_view(disabled@))
        },
        o.selected == 0 && o.search is None && o.secure_input is None && o.key_capture is None,
        o.tabs@.len() == 0 && o.active_tab == 0 && o.sections@.len() == 0 && o.active_section == 0,
{
    let n = tools.len();
    let ghost names = tool_names(tools@);
    let ghost dis = strings_view(disabled@);
    let mut keys: Vec<Vec<char>> = Vec::new();
    let mut count: usize = 0;
    let mut i: usize = 0;
    while i < n
        invariant
            i <= n == tools@.len() < usize::MAX,
            names == tool_names(tools@),
            dis == strings_view(disabled@),
            keys@.len() == i,
            forall|k: int| 0 <= k < i ==> (#[trigger] keys@[k])@ == names[k],
            count as int == disabled_count(tools@, dis, i as int),
            count <= i,
        decreases n - i,
    {
        keys.push(chars_of(tools[i].name.as_str()));
        if listed(disabled, tools[i].name.as_str()) {
            count += 1;
        }
        i += 1;
    }
    let order = sorted_order_of(&keys);
    assert(keys@.map_values(|k: Vec<char>| k@) =~= names);
    let mut items: Vec<OverlayListItem> = Vec::new();
    let mut k: usize = 0;
    while k < n
        invariant
            k <= n == tools@.len() == order@.len(),
            names == tool_names(tools@),
            dis == strings_view(disabled@),
            sorted_order(names, order@, n as int),
            items@.len() == k,
            forall|j: int| 0 <= j < k ==> tool_item_ok(#[trigger] items@[j], tools@[order@[j] as int], dis),
        decreases n - k,
    {
        let t = &tools[order[k]];
        let is_disabled = listed(disabled, t.name.as_str());
        let badge = if t.essential {
            if is_disabled { "essential \u{2014} locked" } else { "essential" }
        } else if is_disabled {
            "disabled"
        } else {
            "enabled"
        };
        let mut payload = String::from_str("DisabledToolToggle:");
        push_str(&mut payload, t.name.as_str());
        items.push(OverlayListItem {
            title: t.name.clone(),
            subtitle: Some(t.description.clone()),
            badge: Some(String::from_str(badge)),
            indent: 0,
            search_value: None,
            selection: Some(ListSelection::ConfigAction(payload)),
        });
        k += 1;
    }
    let mut line = crate::numfmt::decimal_string(count as u64);
    push_str(&mut line, " disabled \u{2014} Enter/Space toggles, Esc closes");
    let mut lines: Vec<String> = Vec::new();
    lines.push(line);
    OverlayState {
        title: String::from_str("Disabled tools"),
        lines,
        items,
        selected: 0,
        search: None,
        secure_input: None,
        tabs: Vec::new(),
        active_tab: 0,
        sections: Vec::new(),
        active_section: 0,
        key_capture: None,
    }
}

/// What toggling a tool in the disabled-tools editor does.
#[derive(Debug, PartialEq, Eq)]
pub enum ToolToggle {
    /// Essential tools are never disabled: show this error line.
    Refuse(String),
    /// Save the tool as enabled (`true`) or disabled (`false`); on success
    /// show the line.
    Save { enable: bool, line: String },
}

/// Decides a toggle of `tool` in setting `label`: essential tools are
/// refused, any other flips between enabled and disabled.
pub fn tool_toggle_decision(label: &str, tool: &str, essential: bool, currently_disabled: bool) -> (d: ToolToggle)
    ensures
        essential ==> (d matches ToolToggle::Refuse(m) && m@ == "'"@ + tool@ + "' is essential and cannot be disabled"@),
        !essential ==> (d matches ToolToggle::Save { enable, line } && enable == currently_disabled
            && line@ == label@ + ": '"@ + tool@ + "' "@ + (if currently_disabled { "enabled"@ } else { "disabled"@ })),
{
    if essential {
        let mut m = String::from_str("'");
        push_str(&mut m, tool);
        push_str(&mut m, "' is essential and cannot be disabled");
        return ToolToggle::Refuse(m);
    }
    let mut line = String::from_str(label);
    push_str(&mut line, ": '");
    push_str(&mut line, tool);
    push_str(&mut line, "' ");
    push_str(&mut line, if currently_disabled { "enabled" } else { "disabled" });
    ToolToggle::Save { enable: currently_disabled, line }
}

} // verus!
