use kestrel_rs::clipboard::{ClipboardKind, NullClipboard};
use kestrel_rs::shell::{
    home_page, resolve_url, should_update_ui, window_title, BrowserState, Message, MessageEffect, Navigation,
    ShellError, WindowEffects, WindowEventKind, HOME_URL,
};

#[test]
fn null_clipboard_reads_nothing() {
    let mut clipboard = NullClipboard;
    assert_eq!(clipboard.read(ClipboardKind::Standard), None);
    clipboard.write(ClipboardKind::Primary, "copied".to_string());
    assert_eq!(clipboard.read(ClipboardKind::Primary), None);
    assert_eq!(clipboard.read(ClipboardKind::Standard), None);
}

#[test]
fn resolve_url_serializes_the_parsed_url() {
    let navigation = resolve_url("https://servo.org").unwrap();
    assert_eq!(navigation.href(), "https://servo.org/");
    assert_eq!(navigation.url().as_str(), "https://servo.org/");
    let navigation = resolve_url("  HTTPS://Example.COM/a/../b?q=1#top ").unwrap();
    assert_eq!(navigation.href(), "https://example.com/b?q=1#top");
}

#[test]
fn resolve_url_rejects_text_that_is_no_absolute_url() {
    match resolve_url("servo.org") {
        Err(ShellError::InvalidUrl(text)) => assert_eq!(text, "servo.org"),
        Ok(_) => panic!("a relative URL was accepted"),
    }
    assert!(resolve_url("").is_err());
    assert!(resolve_url("http://[::1").is_err());
    assert!(resolve_url("https://host:99999/").is_err());
}

#[test]
fn home_page_is_servo() {
    assert_eq!(HOME_URL, "https://servo.org");
    let home = home_page().unwrap();
    assert_eq!(home.href(), "https://servo.org/");
}

#[test]
fn window_title_names_the_url() {
    assert_eq!(window_title("https://servo.org"), "kestrel-rs — https://servo.org");
    assert_eq!(window_title(""), "kestrel-rs — ");
}

#[test]
fn new_state_starts_at_home() {
    let state = BrowserState::new();
    assert_eq!(state.url_value, "https://servo.org");
    assert!(!state.resized);
}

#[test]
fn a_resize_is_fitted_on_the_next_redraw_only() {
    let mut state = BrowserState::new();
    let none = WindowEffects { reconfigure: false, paint: false, draw_overlay: false, forward_wheel: false, exit: false };
    assert_eq!(state.on_window_event(WindowEventKind::Resized), none);
    assert!(state.resized);
    assert_eq!(state.on_window_event(WindowEventKind::CursorMoved), none);
    assert_eq!(state.on_window_event(WindowEventKind::ModifiersChanged), none);
    assert_eq!(state.on_window_event(WindowEventKind::Other), none);
    assert!(state.resized);
    assert_eq!(
        state.on_window_event(WindowEventKind::RedrawRequested),
        WindowEffects { reconfigure: true, paint: true, draw_overlay: true, forward_wheel: false, exit: false }
    );
    assert!(!state.resized);
    assert_eq!(
        state.on_window_event(WindowEventKind::RedrawRequested),
        WindowEffects { reconfigure: false, paint: true, draw_overlay: true, forward_wheel: false, exit: false }
    );
}

#[test]
fn close_request_exits() {
    let mut state = BrowserState::new();
    assert_eq!(
        state.on_window_event(WindowEventKind::CloseRequested),
        WindowEffects { reconfigure: false, paint: false, draw_overlay: false, forward_wheel: false, exit: true }
    );
    assert_eq!(state.url_value, "https://servo.org");
}

#[test]
fn typing_updates_the_bar_and_the_title() {
    let mut state = BrowserState::new();
    match state.on_message(Message::UrlBarChanged("https://example.org".to_string())) {
        MessageEffect::Retitle(title) => assert_eq!(title, "kestrel-rs — https://example.org"),
        _ => panic!("a change of text must retitle the window"),
    }
    assert_eq!(state.url_value, "https://example.org");
}

#[test]
fn submitting_a_url_navigates() {
    let mut state = BrowserState::new();
    state.on_message(Message::UrlBarChanged("https://example.org".to_string()));
    match state.on_message(Message::UrlBarSubmitted) {
        MessageEffect::Navigate { navigation, notice } => {
            assert_eq!(navigation.href(), "https://example.org/");
            assert_eq!(navigation.url().as_str(), "https://example.org/");
            assert_eq!(notice, "kestrel-rs: navigating to https://example.org/");
        }
        _ => panic!("an absolute URL must be loaded"),
    }
    assert_eq!(state.url_value, "https://example.org");
}

#[test]
fn submitting_other_text_is_reported() {
    let mut state = BrowserState::new();
    state.on_message(Message::UrlBarChanged("not a url".to_string()));
    match state.on_message(Message::UrlBarSubmitted) {
        MessageEffect::Reject { notice } => {
            assert_eq!(notice, "kestrel-rs: invalid URL: not a url")
        }
        _ => panic!("text without a scheme must be rejected"),
    }
    assert_eq!(state.url_value, "not a url");
    assert!(!state.resized);
}

#[test]
fn submission_effect_follows_the_parse() {
    let state = BrowserState::new();
    let given: Navigation = resolve_url("https://a.example").unwrap();
    match state.submission_effect(Ok(given)) {
        MessageEffect::Navigate { navigation, notice } => {
            assert_eq!(navigation.href(), "https://a.example/");
            assert_eq!(notice, "kestrel-rs: navigating to https://a.example/");
        }
        _ => panic!("a parsed URL must be loaded"),
    }
    match state.submission_effect(Err(ShellError::InvalidUrl("x".to_string()))) {
        MessageEffect::Reject { notice } => {
            assert_eq!(notice, "kestrel-rs: invalid URL: https://servo.org")
        }
        _ => panic!("a failed parse must be reported"),
    }
}

#[test]
fn a_wheel_scroll_goes_to_the_page() {
    let mut state = BrowserState::new();
    state.on_window_event(WindowEventKind::Resized);
    assert_eq!(
        state.on_window_event(WindowEventKind::MouseWheel),
        WindowEffects { reconfigure: false, paint: false, draw_overlay: false, forward_wheel: true, exit: false }
    );
    assert!(state.resized);
}

#[test]
fn the_loaded_url_is_the_parsed_text() {
    let mut state = BrowserState::new();
    state.on_message(Message::UrlBarChanged("http://EXAMPLE.org:80/x".to_string()));
    match state.on_message(Message::UrlBarSubmitted) {
        MessageEffect::Navigate { navigation, .. } => {
            assert_eq!(navigation.href(), "http://example.org/x");
            assert_eq!(navigation.into_url(), url::Url::parse("http://example.org/x").unwrap());
        }
        _ => panic!("an absolute URL must be loaded"),
    }
}

#[test]
fn the_url_bar_runs_only_with_pending_events() {
    assert!(!should_update_ui(0));
    assert!(should_update_ui(1));
    assert!(should_update_ui(3));
}
