use oxicode_tui::notifications::{
    detect_protocol_from, notification_bytes, osc8_file_link, osc8_hyperlink, render_sequence, tmux_wrap,
    NotificationProtocol,
};

#[test]
fn wezterm_picks_osc9() {
    assert_eq!(
        detect_protocol_from("WezTerm", "xterm-256color", false),
        NotificationProtocol::Osc9
    );
}

#[test]
fn iterm_picks_osc9() {
    assert_eq!(
        detect_protocol_from("iTerm.app", "xterm-256color", false),
        NotificationProtocol::Osc9
    );
}

#[test]
fn ghostty_picks_osc99() {
    assert_eq!(
        detect_protocol_from("ghostty", "xterm-256color", false),
        NotificationProtocol::Osc99
    );
}

#[test]
fn kitty_picks_osc99() {
    assert_eq!(
        detect_protocol_from("kitty", "xterm-kitty", false),
        NotificationProtocol::Osc99
    );
}

#[test]
fn rxvt_picks_osc777() {
    assert_eq!(
        detect_protocol_from("", "rxvt-unicode-256color", false),
        NotificationProtocol::Osc777
    );
}

#[test]
fn unknown_falls_back_to_bel() {
    assert_eq!(
        detect_protocol_from("", "xterm-256color", false),
        NotificationProtocol::Bel
    );
}

#[test]
fn tmux_falls_back_to_osc777() {
    assert_eq!(
        detect_protocol_from("", "xterm-256color", true),
        NotificationProtocol::Osc777
    );
}

#[test]
fn osc9_sequence_is_message_only() {
    let seq = render_sequence(NotificationProtocol::Osc9, "t", "hello");
    assert_eq!(seq, "\x1b]9;hello\x07");
}

#[test]
fn osc777_sequence_carries_title_and_message() {
    let seq = render_sequence(NotificationProtocol::Osc777, "Title", "Body");
    assert_eq!(seq, "\x1b]777;notify;Title;Body\x07");
}

#[test]
fn bel_sequence_is_just_bell() {
    assert_eq!(render_sequence(NotificationProtocol::Bel, "t", "m"), "\x07");
}

#[test]
fn none_sequence_is_empty() {
    assert!(render_sequence(NotificationProtocol::Disabled, "t", "m").is_empty());
}

#[test]
fn tmux_wrap_doubles_esc_and_frames() {
    let wrapped = tmux_wrap("\x1b]9;hi\x07");
    assert!(wrapped.starts_with("\x1bPtmux;"));
    assert!(wrapped.ends_with("\x1b\\"));
    assert!(wrapped.contains("\x1b\x1b]9;hi\x07"));
}

#[test]
fn osc8_hyperlink_wraps_url_and_text() {
    let link = osc8_hyperlink("https://example.com", "click here");
    assert!(link.starts_with("\x1b]8;;https://example.com\x1b\\"));
    assert!(link.ends_with("\x1b]8;;\x1b\\"));
    assert!(link.contains("click here"));
}

#[test]
fn osc8_file_link_uses_file_scheme() {
    let link = osc8_file_link("/abs/path", "file.rs");
    assert!(link.starts_with("\x1b]8;;file:///abs/path\x1b\\"));
    assert!(link.contains("file.rs"));
}

#[test]
fn detection_ignores_ascii_case() {
    assert_eq!(detect_protocol_from("KITTY", "", false), NotificationProtocol::Osc99);
    assert_eq!(detect_protocol_from("", "RXVT", false), NotificationProtocol::Osc777);
    assert_eq!(detect_protocol_from("Warp", "", true), NotificationProtocol::Osc9);
    assert_eq!(detect_protocol_from("foot", "", false), NotificationProtocol::Osc777);
}

#[test]
fn osc99_sequence_carries_identifier() {
    assert_eq!(
        render_sequence(NotificationProtocol::Osc99, "t", "done"),
        "\x1b]99;i=oxicode;done\x07"
    );
}

#[test]
fn tmux_wrap_exact_framing() {
    assert_eq!(tmux_wrap("a\x1bb"), "\x1bPtmux;a\x1b\x1bb\x1b\\");
    assert_eq!(tmux_wrap(""), "\x1bPtmux;\x1b\\");
}

#[test]
fn osc8_relative_file_link_gets_a_root_slash() {
    assert_eq!(
        osc8_file_link("rel/x.rs", "x"),
        "\x1b]8;;file:///rel/x.rs\x1b\\x\x1b]8;;\x1b\\"
    );
}

#[test]
fn notification_bytes_follow_the_protocol_and_tmux() {
    assert_eq!(notification_bytes(NotificationProtocol::Disabled, true, "t", "m"), None);
    assert_eq!(notification_bytes(NotificationProtocol::Osc9, false, "t", "done"), Some("\x1b]9;done\x07".to_string()));
    assert_eq!(
        notification_bytes(NotificationProtocol::Osc9, true, "t", "done"),
        Some("\x1bPtmux;\x1b\x1b]9;done\x07\x1b\\".to_string())
    );
    assert_eq!(notification_bytes(NotificationProtocol::Bel, false, "t", "m"), Some("\x07".to_string()));
}
