use oxicode_tui::slash::{slash_filter, FileCommand, SlashCommand};

fn cmd(name: &str, description: &str, aliases: &[&str]) -> SlashCommand {
    SlashCommand {
        name: name.to_string(),
        description: description.to_string(),
        aliases: aliases.iter().map(|a| a.to_string()).collect(),
    }
}

/// The built-in command table the popup filters over.
fn builtins() -> Vec<SlashCommand> {
    vec![
        cmd("quit", "Exit the session", &["exit", "q"]),
        cmd("clear", "Clear the transcript", &["cls"]),
        cmd("model", "Switch the active model", &[]),
        cmd("compact", "Summarize older turns", &[]),
        cmd("help", "Show the keyboard cheatsheet", &["?"]),
        cmd("new", "Start a fresh session", &[]),
        cmd("sessions", "Resume a saved session", &[]),
    ]
}

fn file_command(name: &str, description: &str, aliases: &[&str]) -> FileCommand {
    FileCommand {
        name: name.to_string(),
        description: description.to_string(),
        aliases: aliases.iter().map(|a| a.to_string()).collect(),
        body: "body".to_string(),
    }
}

#[test]
fn empty_token_lists_all_commands() {
    let items = slash_filter("", &builtins(), &[]);
    assert!(items.len() >= 7);
    assert!(items.iter().any(|i| i.name == "quit"));
    assert!(items.iter().any(|i| i.name == "clear"));
    assert!(items.iter().any(|i| i.name == "model"));
}

#[test]
fn prefix_filter_matches_name() {
    let items = slash_filter("qu", &builtins(), &[]);
    assert_eq!(items.len(), 1);
    assert_eq!(items[0].name, "quit");
    assert!(items[0].label.contains("/quit"));
}

#[test]
fn prefix_filter_matches_alias() {
    let items = slash_filter("cl", &builtins(), &[]);
    let names: Vec<&str> = items.iter().map(|i| i.name.as_str()).collect();
    assert!(names.contains(&"clear"));
}

#[test]
fn file_commands_appear_in_filter() {
    let fc = file_command("review", "proj cmd", &["cr"]);
    let items = slash_filter("", &builtins(), &[fc]);
    assert!(items.iter().any(|i| i.name == "review"));
    assert!(items.iter().any(|i| i.name == "quit"));
}

#[test]
fn file_commands_filtered_by_prefix() {
    let fc = file_command("review", "x", &[]);
    let items = slash_filter("rev", &builtins(), &[fc]);
    assert!(items.iter().any(|i| i.name == "review"));
}

#[test]
fn file_commands_shadowed_by_builtins_are_dropped() {
    let fc = file_command("quit", "hijack", &[]);
    let items = slash_filter("", &builtins(), &[fc]);
    let quit_count = items.iter().filter(|i| i.name == "quit").count();
    assert_eq!(quit_count, 1, "shadowed file command must not appear");
    assert!(items
        .iter()
        .any(|i| i.name == "quit" && !i.description.contains("hijack")));
}

#[test]
fn file_commands_with_builtin_aliases_are_dropped() {
    let fc = file_command("review", "hijack", &["quit"]);
    let items = slash_filter("", &builtins(), &[fc]);
    assert!(!items.iter().any(|item| item.name == "review"));
}

#[test]
fn labels_list_every_alias_in_order() {
    let items = slash_filter("q", &builtins(), &[]);
    assert_eq!(items.len(), 1);
    assert_eq!(items[0].label, "/quit, /exit, /q");
    assert_eq!(items[0].description, "Exit the session");
}

#[test]
fn file_command_matches_by_alias_prefix_and_keeps_order() {
    let fcs = vec![file_command("review", "r", &["cr"]), file_command("deploy", "d", &[])];
    let items = slash_filter("c", &builtins(), &fcs);
    let names: Vec<&str> = items.iter().map(|i| i.name.as_str()).collect();
    assert_eq!(names, vec!["clear", "compact", "review"]);
    assert_eq!(items[2].label, "/review, /cr");
}

#[test]
fn unmatched_token_gives_no_items() {
    assert!(slash_filter("zzz", &builtins(), &[]).is_empty());
}
