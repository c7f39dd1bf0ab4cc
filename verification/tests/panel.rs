use oxicode_tui::overlay::{paste_into_prompt, ListSelection, OverlayListItem, OverlaySearchState, OverlaySecureInput, OverlayState};
use oxicode_tui::panel::{render_overlay, Area, Look, PanelView, Tone};

/// A painted screen: one character and look per cell.
struct Screen {
    cells: Vec<Vec<(char, Option<Look>)>>,
}

impl Screen {
    fn put(&mut self, x: u16, y: u16, c: char, look: Option<Look>) {
        if let Some(row) = self.cells.get_mut(y as usize) {
            if let Some(cell) = row.get_mut(x as usize) {
                *cell = (c, look);
            }
        }
    }

    fn text(&self) -> String {
        self.cells.iter().map(|r| r.iter().map(|c| c.0).collect::<String>()).collect::<Vec<_>>().join("\n")
    }

    /// All (y, x) where `needle` starts.
    fn occurrences(&self, needle: &str) -> Vec<(usize, usize)> {
        let mut hits = Vec::new();
        for (y, row) in self.cells.iter().enumerate() {
            let line: Vec<char> = row.iter().map(|c| c.0).collect();
            let n: Vec<char> = needle.chars().collect();
            for x in 0..line.len() {
                if line[x..].starts_with(&n) {
                    hits.push((y, x));
                }
            }
        }
        hits
    }
}

/// Paint a panel view as the terminal would: clear and border the frame,
/// title in the top border, then each row's spans clipped to its area.
fn paint(v: &PanelView, width: u16, height: u16) -> Screen {
    let mut s = Screen { cells: vec![vec![(' ', None); width as usize]; height as usize] };
    let f = v.frame;
    for y in f.y..f.y + f.height {
        for x in f.x..f.x + f.width {
            let edge_y = y == f.y || y + 1 == f.y + f.height;
            let edge_x = x == f.x || x + 1 == f.x + f.width;
            let c = if edge_y { '-' } else if edge_x { '|' } else { ' ' };
            s.put(x, y, c, None);
        }
    }
    for (i, c) in v.title.chars().enumerate() {
        if f.width >= 2 && (i as u16) < f.width - 2 {
            s.put(f.x + 1 + i as u16, f.y, c, None);
        }
    }
    for row in &v.rows {
        let mut x = row.area.x;
        let right = row.area.x + row.area.width;
        for span in &row.spans {
            for c in span.text.chars() {
                if x < right {
                    s.put(x, row.area.y, c, Some(span.look));
                }
                x = x.saturating_add(1);
            }
        }
    }
    s
}

fn screen_area() -> Area {
    Area { x: 0, y: 0, width: 80, height: 24 }
}

fn prompt(chars: &str, placeholder: Option<&str>) -> OverlayState {
    let chars: Vec<char> = chars.chars().collect();
    OverlayState {
        title: "OpenAI key".into(),
        lines: vec!["Paste your API key".into()],
        items: Vec::new(),
        selected: 0,
        search: None,
        secure_input: Some(OverlaySecureInput {
            label: "Key".into(),
            placeholder: placeholder.map(|p| p.to_string()),
            mask_input: true,
            cursor: chars.len(),
            chars,
        }),
        tabs: Vec::new(),
        active_tab: 0,
        sections: Vec::new(),
        active_section: 0,
        key_capture: None,
    }
}

fn render_secure_to_text(o: &OverlayState) -> String {
    paint(&render_overlay(screen_area(), o), 80, 24).text()
}

#[test]
fn render_overlay_secure_input_shows_label_mask_value_and_placeholder() {
    let text = render_secure_to_text(&prompt("sk-abc", Some("sk-...")));
    assert!(text.contains("Key:"));
    assert!(text.contains("******"));
    assert!(!text.contains("sk-abc"));
}

#[test]
fn render_overlay_secure_input_placeholder_when_empty() {
    let text = render_secure_to_text(&prompt("", Some("sk-...")));
    assert!(text.contains("sk-..."));
}

#[test]
fn masked_render_shows_asterisks_not_value() {
    let rendered = render_secure_to_text(&prompt("ABCDE", Some("sk-...")));
    assert!(rendered.contains("*****"), "mask must render asterisks");
    assert!(!rendered.contains("ABCDE"), "masked render must NEVER carry the real value");
    assert!(rendered.contains("Key:"), "label prefix must still render");
}

#[test]
fn masked_render_caret_lands_after_mask() {
    let v = render_overlay(screen_area(), &prompt("ABCD", Some("sk-...")));
    let field = v.rows.iter().find(|r| r.spans.iter().any(|s| s.text == "****")).expect("masked field");
    let caret = v.cursor.expect("caret must be visible");
    // The mask covers the whole value: the caret sits at its end.
    assert_eq!(caret.0 - field.area.x, 4);
    assert_eq!(caret.1, field.area.y);
}

#[test]
fn empty_editor_renders_placeholder_not_asterisks() {
    let rendered = render_secure_to_text(&prompt("", Some("sk-...")));
    assert!(rendered.contains("sk-..."));
    assert!(!rendered.contains("*"));
}

#[test]
fn prompt_geometry_is_centered_and_exact() {
    let v = render_overlay(screen_area(), &prompt("ABCD", None));
    // one line + input row + borders = 4 rows, 80 wide, centered.
    assert_eq!(v.frame, Area { x: 0, y: 10, width: 80, height: 4 });
    assert_eq!(v.title, " OpenAI key ");
    assert_eq!(v.rows.len(), 3);
    assert_eq!(v.rows[0].area, Area { x: 1, y: 11, width: 78, height: 1 });
    assert_eq!(v.rows[1].area, Area { x: 1, y: 12, width: 5, height: 1 });
    assert_eq!(v.rows[1].spans[0].text, "Key: ");
    assert_eq!(v.rows[2].area, Area { x: 6, y: 12, width: 73, height: 1 });
    assert_eq!(v.cursor, Some((10, 12)));
    // A caret at the very start stays at the start of the field.
    let mut o = prompt("ABCD", None);
    o.secure_input.as_mut().unwrap().cursor = 0;
    assert_eq!(render_overlay(screen_area(), &o).cursor, Some((6, 12)));
    // Unmasked input shows the value itself.
    o.secure_input.as_mut().unwrap().mask_input = false;
    let v = render_overlay(screen_area(), &o);
    assert_eq!(v.rows[2].spans[0].text, "ABCD");
}

fn sample_overlay_items() -> Vec<OverlayListItem> {
    vec![
        OverlayListItem {
            title: "model-a".to_string(),
            subtitle: Some("first".to_string()),
            badge: Some("ready".to_string()),
            indent: 0,
            search_value: None,
            selection: Some(ListSelection::Model(0)),
        },
        OverlayListItem {
            title: "model-b".to_string(),
            subtitle: None,
            badge: None,
            indent: 0,
            search_value: None,
            selection: Some(ListSelection::Model(1)),
        },
        OverlayListItem {
            title: "model-c".to_string(),
            subtitle: None,
            badge: None,
            indent: 0,
            search_value: None,
            selection: Some(ListSelection::Model(2)),
        },
    ]
}

fn list(title: &str, lines: Vec<String>, items: Vec<OverlayListItem>, search: Option<OverlaySearchState>) -> OverlayState {
    OverlayState {
        title: title.to_string(),
        lines,
        items,
        selected: 0,
        search,
        secure_input: None,
        tabs: Vec::new(),
        active_tab: 0,
        sections: Vec::new(),
        active_section: 0,
        key_capture: None,
    }
}

#[test]
fn overlay_renders_title_and_items() {
    let o = list("Select model", vec!["Pick one".to_string()], sample_overlay_items(), None);
    let rendered = paint(&render_overlay(screen_area(), &o), 80, 24).text();
    assert!(rendered.contains("Select model"), "overlay title must render");
    assert!(rendered.contains("model-a"), "first item must render");
    assert!(rendered.contains("model-b"), "second item must render");
    assert!(rendered.contains("model-c"), "third item must render");
    assert!(rendered.contains("Pick one"), "descriptive line must render");
    assert!(rendered.contains("> model-a  ready  first"));
    assert!(rendered.contains("Enter select | Up/Down move | Esc close"));
}

#[test]
fn overlay_search_filters_items() {
    let search = OverlaySearchState { label: "filter".to_string(), placeholder: Some("type".to_string()), value: "model-b".to_string() };
    let o = list("Select", Vec::new(), sample_overlay_items(), Some(search));
    let rendered = paint(&render_overlay(screen_area(), &o), 80, 24).text();
    assert!(rendered.contains("model-b"), "matching item must render");
    assert!(!rendered.contains("model-a"), "non-matching item must not render (got: {})", rendered);
    assert!(!rendered.contains("model-c"), "non-matching item must not render");
    assert!(rendered.contains("filter: model-b"));
}

#[test]
fn empty_lists_say_so_and_key_capture_shows_only_its_prompt() {
    let o = list("Pick", Vec::new(), Vec::new(), None);
    let v = render_overlay(screen_area(), &o);
    let texts: Vec<String> = v.rows.iter().map(|r| r.spans.iter().map(|s| s.text.as_str()).collect()).collect();
    assert_eq!(texts, vec!["  (no items)".to_string(), "Esc close".to_string()]);
    let search = OverlaySearchState { label: "Search".into(), placeholder: None, value: "zz".into() };
    let o = list("Pick", Vec::new(), sample_overlay_items(), Some(search));
    let v = render_overlay(screen_area(), &o);
    let texts: Vec<String> = v.rows.iter().map(|r| r.spans.iter().map(|s| s.text.as_str()).collect()).collect();
    assert_eq!(texts[1], "  (no matches)");
    let mut o = list("Press a key", vec!["Press the new combo".into()], Vec::new(), None);
    o.key_capture = Some("Submit".into());
    let v = render_overlay(screen_area(), &o);
    assert_eq!(v.rows.len(), 1);
    assert!(v.cursor.is_none());
}

#[test]
fn long_lists_scroll_around_the_selection() {
    let items: Vec<OverlayListItem> = (0..40)
        .map(|i| OverlayListItem {
            title: format!("item-{i}"),
            subtitle: None,
            badge: None,
            indent: 0,
            search_value: None,
            selection: Some(ListSelection::Model(i)),
        })
        .collect();
    let mut o = list("Many", Vec::new(), items, None);
    o.selected = 20;
    let v = render_overlay(screen_area(), &o);
    // 24 rows leave 17 item rows; the window centers the selection.
    let titles: Vec<String> = v.rows.iter().map(|r| r.spans.iter().map(|s| s.text.as_str()).collect()).collect();
    assert_eq!(titles.len(), 18);
    assert_eq!(titles[0], "  item-12");
    assert_eq!(titles[8], "> item-20");
    assert_eq!(titles[16], "  item-28");
    assert_eq!(v.frame.height, 20);
    // Near the end the window stops at the last item.
    o.selected = 39;
    let v = render_overlay(screen_area(), &o);
    assert_eq!(v.rows[16].spans[2].text, "item-39");
}

fn heading(title: &str) -> OverlayListItem {
    OverlayListItem { title: title.into(), subtitle: None, badge: None, indent: 0, search_value: None, selection: None }
}

fn row(title: &str, badge: &str, selection: Option<ListSelection>) -> OverlayListItem {
    OverlayListItem { title: title.into(), subtitle: None, badge: Some(badge.into()), indent: 0, search_value: None, selection }
}

#[test]
fn render_overlay_tabbed_settings_shows_tab_bar_and_sidebar() {
    let overlay = OverlayState {
        title: "Settings".into(),
        lines: Vec::new(),
        items: vec![
            heading("Defaults"),
            row("Thinking level", "medium", Some(ListSelection::ConfigAction("ThinkingLevel".into()))),
            row("Model roles", "0", None),
            heading("Pointers"),
            row("Theme", "dark", None),
        ],
        selected: 1,
        search: None,
        secure_input: None,
        tabs: vec!["General".into(), "Model".into(), "Interaction".into()],
        active_tab: 1,
        sections: vec!["Defaults".into(), "Pointers".into()],
        active_section: 0,
        key_capture: None,
    };
    let screen = paint(&render_overlay(screen_area(), &overlay), 80, 24);

    let general = screen.occurrences("General");
    let interaction = screen.occurrences("Interaction");
    assert!(general.iter().any(|(gy, _)| interaction.iter().any(|(iy, _)| gy == iy)), "tab bar must list tabs on one row");

    for name in ["Defaults", "Pointers"] {
        let hits = screen.occurrences(name);
        assert!(hits.len() >= 2, "{name} must render in sidebar AND list");
        assert!(hits.iter().any(|(_, x)| *x < 13), "{name} must render in the sidebar column");
        assert!(hits.iter().any(|(_, x)| *x >= 13), "{name} must render in the item column");
    }

    let look_at = |name: &str| {
        let (y, x) = screen.occurrences(name).into_iter().find(|(_, x)| *x >= 13).expect("items-column heading");
        screen.cells[y][x].1.expect("painted")
    };
    assert!(look_at("Pointers").dim, "out-of-section rows must be dimmed");
    assert!(!look_at("Defaults").dim, "active-section rows must not be dimmed");
    // The active tab is accented, the others faint.
    let (y, x) = screen.occurrences("Model").into_iter().next().unwrap();
    assert_eq!(screen.cells[y][x].1, Some(Look { tone: Tone::Primary, bold: true, dim: false }));
    assert!(screen.text().contains("Enter select | Up/Down move | \u{2190}/\u{2192} tabs | Esc close"));
}

#[test]
fn paste_filter_drops_newline_and_non_ascii_via_edit_command() {
    let mut input = OverlaySecureInput { label: "Key".into(), placeholder: None, mask_input: true, chars: Vec::new(), cursor: 0 };
    paste_into_prompt(&mut input, "sk-xyz\nABC\u{1F600}");
    assert_eq!(input.chars.iter().collect::<String>(), "sk-xyzABC");
    assert_eq!(input.cursor, 9);
}

#[test]
fn paste_goes_in_at_the_caret_without_trailing_newlines() {
    let mut input = OverlaySecureInput { label: "Key".into(), placeholder: None, mask_input: false, chars: "ad".chars().collect(), cursor: 1 };
    paste_into_prompt(&mut input, "b c\n\n");
    assert_eq!(input.chars.iter().collect::<String>(), "ab cd");
    assert_eq!(input.cursor, 4);
}
