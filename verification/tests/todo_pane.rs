use oxicode_tui::panel::Tone;
use oxicode_tui::todo::{TodoItem, TodoPhase, TodoStatus};
use oxicode_tui::todo_pane::{render_todo_pane, roman_numeral, TodoSpan};

fn item(content: &str, status: TodoStatus) -> TodoItem {
    TodoItem { content: content.into(), status, notes: None, block_reason: None }
}

fn text(lines: &[Vec<TodoSpan>]) -> Vec<String> {
    lines.iter().map(|l| l.iter().map(|s| s.text.as_str()).collect()).collect()
}

fn unmatched(phases: &[TodoPhase]) -> Vec<Vec<bool>> {
    phases.iter().map(|p| vec![false; p.tasks.len()]).collect()
}

#[test]
fn render_todo_pane_multi_phase_shows_roman_header_and_progress() {
    let phases = vec![
        TodoPhase { name: "Foundation".into(), tasks: vec![item("a", TodoStatus::Completed), item("b", TodoStatus::Completed)] },
        TodoPhase {
            name: "Auth".into(),
            tasks: vec![item("c", TodoStatus::Completed), item("d", TodoStatus::InProgress), item("e", TodoStatus::Pending)],
        },
    ];
    let lines = render_todo_pane(&phases, false, &unmatched(&phases), &vec![1, 2], &None);
    let t = text(&lines);
    assert!(t.iter().any(|l| l.contains("II. Auth")), "multi-phase HUD must show the roman-numeral phase header");
    assert!(t.iter().any(|l| l.contains("1/3")), "active phase must show its done/total progress");
    assert_eq!(
        t,
        vec![
            "TODO".to_string(),
            " \u{251c}\u{2500}II. Auth \u{b7} 1/3".to_string(),
            " \u{2502} \u{25b8} d".to_string(),
            " \u{2502} \u{2610} e".to_string(),
            " \u{2514}".to_string(),
        ]
    );
    // 3 of 5 closed over a path of 4 cells: two cells lit, the hook is not.
    assert_eq!(lines[1][0].look.tone, Tone::Primary);
    assert_eq!(lines[2][0].look.tone, Tone::Primary);
    assert_eq!(lines[3][0].look.tone, Tone::Secondary);
    assert_eq!(lines[4][0].look.tone, Tone::Secondary);
    assert!(lines[1][1].look.bold, "the active phase header is accented");
}

#[test]
fn render_todo_pane_single_phase_has_no_roman_header() {
    let phases = vec![TodoPhase { name: "Todos".into(), tasks: vec![item("a", TodoStatus::Pending)] }];
    let t = text(&render_todo_pane(&phases, false, &unmatched(&phases), &vec![0], &None));
    assert!(!t.iter().any(|l| l.contains("I. Todos")), "single phase must skip roman header");
    assert!(t.iter().any(|l| l.contains("Todos")), "single-phase name must render");
}

#[test]
fn expanded_pane_lists_every_phase_and_task_and_counts_hidden_stages() {
    let phases: Vec<TodoPhase> = (0..7)
        .map(|i| TodoPhase { name: format!("P{i}"), tasks: vec![item("t", if i == 0 { TodoStatus::Completed } else { TodoStatus::Pending })] })
        .collect();
    let expanded = text(&render_todo_pane(&phases, true, &unmatched(&phases), &Vec::new(), &None));
    assert_eq!(expanded.len(), 1 + 14 + 1);
    assert_eq!(expanded[1], " \u{251c}\u{2500}I. P0 \u{b7} 1/1");
    assert_eq!(expanded[2], " \u{2502} \u{2713} t");
    // Collapsed: the active phase (P1) and four after it; one stage hidden.
    let collapsed = text(&render_todo_pane(&phases, false, &unmatched(&phases), &vec![0], &Some("+ more".into())));
    assert_eq!(collapsed[1], " \u{251c}\u{2500}II. P1 \u{b7} 0/1");
    assert_eq!(collapsed[3], " \u{2502} + more");
    assert_eq!(collapsed[collapsed.len() - 2], " \u{2502} \u{2026} 1 more stage");
    // Empty phases do not count and an empty list draws nothing.
    let none: Vec<TodoPhase> = vec![TodoPhase { name: "x".into(), tasks: Vec::new() }];
    assert!(render_todo_pane(&none, false, &unmatched(&none), &Vec::new(), &None).is_empty());
}

#[test]
fn matched_pending_tasks_light_up_and_closed_ones_are_struck() {
    let phases = vec![TodoPhase { name: "W".into(), tasks: vec![item("a", TodoStatus::Pending), item("b", TodoStatus::Abandoned)] }];
    let lines = render_todo_pane(&phases, true, &vec![vec![true, false]], &Vec::new(), &None);
    assert_eq!(lines[2][2].look.tone, Tone::Primary);
    assert!(lines[3][2].look.strike && lines[3][2].look.tone == Tone::Error);
    assert!(!lines[3][1].look.strike, "the marker is not struck");
}

#[test]
fn roman_numerals() {
    for (n, r) in [(1, "I"), (2, "II"), (4, "IV"), (9, "IX"), (14, "XIV"), (40, "XL"), (1994, "MCMXCIV")] {
        assert_eq!(roman_numeral(n), r);
    }
    assert_eq!(roman_numeral(0), "");
}
