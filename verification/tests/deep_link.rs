use qwen_studio::deep_link::{
    deep_link_action, deep_link_argument, handle_deep_link_url, needs_home_navigation,
    token_script, DeepLinkAction, UrlParts,
};

fn token_of(a: DeepLinkAction) -> Option<String> {
    match a {
        DeepLinkAction::InjectToken(t) => Some(t),
        _ => None,
    }
}

#[test]
fn callback_link_carries_its_token() {
    let a = handle_deep_link_url("qwen://callback?token=abc123");
    assert_eq!(token_of(a), Some("abc123".to_string()));
}

#[test]
fn token_wins_over_code_sid_and_ticket() {
    let a = handle_deep_link_url("qwen://auth?ticket=t&sid=s&code=c&token=k");
    assert_eq!(token_of(a), Some("k".to_string()));
    let a = handle_deep_link_url("qwen://login?ticket=t&sid=s");
    assert_eq!(token_of(a), Some("s".to_string()));
    let a = handle_deep_link_url("qwen://open?ticket=t");
    assert_eq!(token_of(a), Some("t".to_string()));
}

#[test]
fn last_repeated_parameter_wins() {
    let a = handle_deep_link_url("qwen://callback?code=first&code=second");
    assert_eq!(token_of(a), Some("second".to_string()));
}

#[test]
fn query_values_are_decoded() {
    let a = handle_deep_link_url("qwen://callback?token=a%20b+c");
    assert_eq!(token_of(a), Some("a b c".to_string()));
}

#[test]
fn link_without_token_only_focuses() {
    assert!(matches!(handle_deep_link_url("qwen://callback?foo=1"), DeepLinkAction::FocusMainWindow));
}

#[test]
fn unknown_host_only_focuses() {
    assert!(matches!(handle_deep_link_url("qwen://settings?token=x"), DeepLinkAction::FocusMainWindow));
}

#[test]
fn unparsable_link_is_ignored() {
    assert!(matches!(handle_deep_link_url("not a url"), DeepLinkAction::Unparsable));
}

#[test]
fn decision_on_given_parts() {
    let parts = UrlParts {
        host: Some("open".to_string()),
        query: vec![("sid".to_string(), "S".to_string()), ("code".to_string(), "C".to_string())],
    };
    assert_eq!(token_of(deep_link_action(Some(parts))), Some("C".to_string()));
    let no_host = UrlParts { host: None, query: vec![("token".to_string(), "T".to_string())] };
    assert!(matches!(deep_link_action(Some(no_host)), DeepLinkAction::FocusMainWindow));
    assert!(matches!(deep_link_action(None), DeepLinkAction::Unparsable));
}

#[test]
fn first_qwen_argument_is_found() {
    let args = vec![
        "/usr/bin/qwen-studio".to_string(),
        "qwen://callback?token=1".to_string(),
        "qwen://callback?token=2".to_string(),
    ];
    assert_eq!(deep_link_argument(&args), Some("qwen://callback?token=1".to_string()));
    let none = vec!["--flag".to_string(), "https://x".to_string()];
    assert_eq!(deep_link_argument(&none), None);
    assert_eq!(deep_link_argument(&vec![]), None);
}

#[test]
fn token_script_places_the_token_everywhere() {
    let s = token_script("TOK");
    assert_eq!(s.matches("TOK").count(), 10);
    assert!(s.starts_with("(function() {\n"));
    assert!(s.contains("document.cookie = \"token=TOK; domain=.qwen.ai; path=/; max-age=2592000\";"));
    assert!(s.contains("localStorage.setItem(\"qwen_auth_token\", \"TOK\");"));
    assert!(s.contains("sessionStorage.setItem(\"sid\", \"TOK\");"));
    assert!(s.ends_with("}})();".replace("}}", "}").as_str()));
}

#[test]
fn home_navigation_only_off_chat() {
    assert!(!needs_home_navigation("https://chat.qwen.ai/"));
    assert!(needs_home_navigation("https://passport.alibaba.com/"));
    assert!(needs_home_navigation(""));
}
