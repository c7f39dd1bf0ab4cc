use oxicode_tui::oauth::{oauth_step, OAuthAction, OAuthEvent, BROWSER_CALLBACK_SECS, MANUAL_CALLBACK_SECS};
use oxicode_tui::transcript::InlineMessageKind;

#[test]
fn a_bound_listener_announces_the_browser_and_opens_it() {
    let s = oauth_step("openai", "/callback", OAuthEvent::ListenerBound { port: 8123 });
    assert_eq!(s.lines, vec![(InlineMessageKind::Info, "OAuth: opening browser for 'openai' on http://127.0.0.1:8123/callback".to_string())]);
    assert_eq!(s.next, OAuthAction::OpenBrowser { port: 8123 });
}

#[test]
fn the_browser_outcome_picks_the_callback_wait() {
    let s = oauth_step("openai", "/cb", OAuthEvent::BrowserOpened);
    assert!(s.lines.is_empty());
    assert_eq!(s.next, OAuthAction::AwaitCallback { timeout_secs: 120 });
    assert_eq!(BROWSER_CALLBACK_SECS, 120);
    let s = oauth_step("openai", "/cb", OAuthEvent::BrowserFailed { error: "no display".into(), url: "https://auth/x".into() });
    assert_eq!(
        s.lines,
        vec![(InlineMessageKind::Info, "OAuth: could not open a browser (no display).\nOpen this URL manually within 5 minutes:\n  https://auth/x".to_string())]
    );
    assert_eq!(s.next, OAuthAction::AwaitCallback { timeout_secs: MANUAL_CALLBACK_SECS });
    assert_eq!(MANUAL_CALLBACK_SECS, 300);
}

#[test]
fn failures_end_the_login_with_one_error_line() {
    for (e, text) in [
        (OAuthEvent::BindFailed { error: "busy".into() }, "OAuth: could not bind loopback listener for 'p': busy"),
        (OAuthEvent::PortUnreadable { error: "x".into() }, "OAuth: could not read loopback port for 'p': x"),
        (OAuthEvent::CallbackTimedOut { after_secs: 120 }, "OAuth: timed out waiting for 'p' callback (after 120s)"),
        (OAuthEvent::CallbackFailed { error: "bad state".into() }, "OAuth: callback failed for 'p': bad state"),
        (OAuthEvent::ExchangeFailed { error: "401".into() }, "OAuth: token exchange failed for 'p': 401"),
    ] {
        let s = oauth_step("p", "/cb", e);
        assert_eq!(s.lines, vec![(InlineMessageKind::Error, text.to_string())]);
        assert_eq!(s.next, OAuthAction::Finish);
    }
}

#[test]
fn success_reports_only_the_token_length() {
    assert_eq!(oauth_step("p", "/cb", OAuthEvent::CallbackReceived).next, OAuthAction::ExchangeCode);
    let got = oauth_step("p", "/cb", OAuthEvent::TokensReceived { expires_at: 1_700_000_000, scopes: vec!["read".into(), "write".into()] });
    assert!(got.lines.is_empty(), "the tokens never reach the transcript");
    assert_eq!(got.next, OAuthAction::StoreTokens { expires_at: 1_700_000_000, scopes: Some("read write".into()) });
    let got = oauth_step("p", "/cb", OAuthEvent::TokensReceived { expires_at: -5, scopes: Vec::new() });
    assert_eq!(got.next, OAuthAction::StoreTokens { expires_at: 0, scopes: None });
    let got = oauth_step("p", "/cb", OAuthEvent::TokensReceived { expires_at: 7, scopes: vec!["one".into()] });
    assert_eq!(got.next, OAuthAction::StoreTokens { expires_at: 7, scopes: Some("one".into()) });
    let s = oauth_step("p", "/cb", OAuthEvent::TokensStored { token_chars: 43 });
    assert_eq!(s.lines, vec![(InlineMessageKind::Info, "OAuth: 'p' logged in. Token stored (43 chars).".to_string())]);
    assert_eq!(s.next, OAuthAction::Finish);
}
