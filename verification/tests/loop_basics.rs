use std::time::{Duration, Instant};

use oxicode_tui::loop_policy::{
    animation_frame, coalesce_draw, draw_decision, effective_scroll_offset, plan_full_flush,
    route_cancel, should_rebuild_scrollback, CancelRoute, DrawDecision, DRAW_MIN_INTERVAL_MS,
};
use oxicode_tui::numfmt::{compact_token_count, decimal_string, format_elapsed_secs};
use oxicode_tui::provider::{is_missing_api_key_error, provider_from_model_id};
use oxicode_tui::render_state::{tip_is_visible, EphemeralTip};

fn min_interval() -> Duration {
    Duration::from_millis(DRAW_MIN_INTERVAL_MS)
}

#[test]
fn cancel_routes_to_interrupt_when_streaming() {
    assert_eq!(
        route_cancel(true),
        CancelRoute::Interrupt,
        "Esc while streaming must route through the interrupt path"
    );
}

#[test]
fn cancel_routes_to_exit_when_idle() {
    assert_eq!(
        route_cancel(false),
        CancelRoute::Exit,
        "Esc while idle must exit immediately (one-press quit)"
    );
}

#[test]
fn defer_within_interval() {
    let now = Instant::now();
    let last = now - Duration::from_millis(10);
    assert_eq!(coalesce_draw(last, false, min_interval()), DrawDecision::Defer);
}

#[test]
fn draw_now_on_priority_even_within_interval() {
    let now = Instant::now();
    let last = now - Duration::from_millis(10);
    assert_eq!(coalesce_draw(last, true, min_interval()), DrawDecision::DrawNow);
}

#[test]
fn draw_now_when_interval_elapsed() {
    let now = Instant::now();
    let last = now - Duration::from_millis(60);
    assert_eq!(coalesce_draw(last, false, min_interval()), DrawDecision::DrawNow);
}

#[test]
fn draw_decision_boundary_is_inclusive() {
    assert_eq!(draw_decision(49, false, 50), DrawDecision::Defer);
    assert_eq!(draw_decision(50, false, 50), DrawDecision::DrawNow);
    assert_eq!(draw_decision(0, true, 50), DrawDecision::DrawNow);
}

#[test]
fn elapsed_formats_minutes_beyond_60s() {
    assert_eq!(format_elapsed_secs(59), "59s");
    assert_eq!(format_elapsed_secs(60), "1m 00s");
    assert_eq!(format_elapsed_secs(125), "2m 05s");
}

#[test]
fn elapsed_formats_zero_and_hours_as_minutes() {
    assert_eq!(format_elapsed_secs(0), "0s");
    assert_eq!(format_elapsed_secs(3600), "60m 00s");
    assert_eq!(decimal_string(1234567), "1234567");
}

#[test]
fn compact_token_counts() {
    assert_eq!(compact_token_count(999), "999");
    assert_eq!(compact_token_count(1000), "1K");
    assert_eq!(compact_token_count(1500), "1.5K");
    assert_eq!(compact_token_count(128_049), "128K");
}

#[test]
fn force_flush_boundary_is_everything() {
    assert_eq!(plan_full_flush(0), 0);
    assert_eq!(plan_full_flush(8), 8);
    assert_eq!(plan_full_flush(40), 40);
}

#[test]
fn rebuild_only_on_width_change() {
    assert!(!should_rebuild_scrollback(80, 80, 24, 30));
    assert!(should_rebuild_scrollback(80, 100, 24, 24));
    assert!(should_rebuild_scrollback(100, 80, 30, 24));
    assert!(!should_rebuild_scrollback(0, 100, 24, 24));
    assert!(!should_rebuild_scrollback(0, 80, 24, 24));
}

#[test]
fn scroll_offset_follows_tail_and_clamps() {
    assert_eq!(effective_scroll_offset(usize::MAX, 100, 20), 80);
    assert_eq!(effective_scroll_offset(5, 100, 20), 5);
    assert_eq!(effective_scroll_offset(95, 100, 20), 80);
    assert_eq!(effective_scroll_offset(3, 10, 20), 0);
}

#[test]
fn animation_frame_is_keyed_on_elapsed_time() {
    assert_eq!(animation_frame(0, 80), 0);
    assert_eq!(animation_frame(79, 80), 0);
    assert_eq!(animation_frame(160, 80), 2);
    assert_eq!(animation_frame(7, 0), 7);
}

#[test]
fn missing_key_errors_are_distinguished_from_other_provider_failures() {
    assert!(is_missing_api_key_error(
        "Provider stream error: Missing API key — configure a credential"
    ));
    assert!(!is_missing_api_key_error("Provider returned HTTP 429"));
    assert_eq!(provider_from_model_id("deepseek/deepseek-v4-flash"), "deepseek");
}

#[test]
fn tip_visible_within_ttl_window() {
    let tip = EphemeralTip {
        text: "x".to_string(),
        born_tick: 10,
        ttl_ticks: 5,
        key: "test",
        ambient: false,
    };
    assert!(tip_is_visible(&tip, 12), "within TTL must be visible");
    assert!(!tip_is_visible(&tip, 15), "at TTL boundary (born + ttl) must expire");
    assert!(!tip_is_visible(&tip, 99), "past TTL must expire");
    assert!(tip_is_visible(&tip, 3), "a tick before birth counts as zero elapsed");
}
