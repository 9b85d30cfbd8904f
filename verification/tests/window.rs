use qwen_studio::window::{
    build_init_script, gdk_backend_default, get_language, hides_on_close,
    maximize_window, open_external_link, theme_is_dark, toggle_hidden_devtools,
    toggled_fullscreen, window_label, DevtoolsChange, LinkAction, MaximizeChange,
};

#[test]
fn init_script_wraps_the_bridge() {
    let s = build_init_script("/*BRIDGE*/");
    assert!(s.contains("\n/*BRIDGE*/\n"));
    assert_eq!(s.matches("/*BRIDGE*/").count(), 1);
    let (before, after) = s.split_once("\n/*BRIDGE*/\n").unwrap();
    assert!(before.contains("LOCAL_MCP_SERVER"));
    assert!(before.contains("ZOOM_STEP"));
    assert!(before.find("LOCAL_MCP_SERVER").unwrap() < before.find("ZOOM_STEP").unwrap());
    assert!(after.contains("qwen-updates-tab"));
    assert!(after.contains("qwen-update-banner"));
    assert!(s.starts_with("\n        (function() {\n            // Only run MCP injection"));
}

#[test]
fn init_script_never_clears_storage() {
    let s = build_init_script("B");
    assert!(!s.contains("localStorage.clear()"));
    assert!(!s.contains("sessionStorage.clear()"));
    assert!(s.contains("ZOOM_STEP"));
}

#[test]
fn window_labels() {
    assert_eq!(window_label(1), "window-1");
    assert_eq!(window_label(0), "window-0");
    assert_eq!(window_label(42), "window-42");
    assert_eq!(window_label(u32::MAX), "window-4294967295");
    assert_ne!(window_label(12), window_label(21));
    assert_ne!(window_label(0), "main");
}

fn script_of(a: LinkAction) -> Option<String> {
    match a {
        LinkAction::NavigateInWebView(s) => Some(s),
        _ => None,
    }
}

#[test]
fn non_web_links_are_refused() {
    assert!(matches!(open_external_link("mailto:a@b.c", true), LinkAction::Ignore));
    assert!(matches!(open_external_link("qwen://callback", true), LinkAction::Ignore));
}

#[test]
fn sign_in_links_stay_in_the_webview() {
    assert_eq!(
        script_of(open_external_link("https://login.qwen.ai/?next='x'", true)),
        Some("window.location.href = 'https://login.qwen.ai/?next=\\'x\\'';".to_string())
    );
}

#[test]
fn sign_in_links_without_main_window_go_to_browser() {
    assert!(matches!(open_external_link("https://login.qwen.ai/", false), LinkAction::OpenInBrowser));
}

#[test]
fn other_links_go_to_browser() {
    assert!(matches!(open_external_link("https://example.com/", true), LinkAction::OpenInBrowser));
    assert!(matches!(open_external_link("https://chat.qwen.ai/c/1", true), LinkAction::OpenInBrowser));
}

#[test]
fn devtools_toggle() {
    assert_eq!(toggle_hidden_devtools(None), (DevtoolsChange::Nothing, false));
    assert_eq!(toggle_hidden_devtools(Some(true)), (DevtoolsChange::Close, false));
    assert_eq!(toggle_hidden_devtools(Some(false)), (DevtoolsChange::Open, true));
}

#[test]
fn maximize_toggle() {
    assert_eq!(maximize_window(Some(true)), MaximizeChange::Unmaximize);
    assert_eq!(maximize_window(Some(false)), MaximizeChange::Maximize);
    assert_eq!(maximize_window(None), MaximizeChange::Maximize);
}

#[test]
fn fullscreen_toggle() {
    assert!(!toggled_fullscreen(Some(true)));
    assert!(toggled_fullscreen(Some(false)));
    assert!(toggled_fullscreen(None));
}

#[test]
fn only_main_window_hides_on_close() {
    assert!(hides_on_close("main"));
    assert!(!hides_on_close("window-1"));
    assert!(!hides_on_close("Main"));
}

#[test]
fn theme_and_backend_and_language() {
    assert!(theme_is_dark("dark"));
    assert!(!theme_is_dark("light"));
    assert_eq!(gdk_backend_default(false), Some("x11"));
    assert_eq!(gdk_backend_default(true), None);
    assert_eq!(get_language(), "en-US");
}
