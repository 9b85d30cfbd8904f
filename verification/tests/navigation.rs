use qwen_studio::navigation::{allow_navigation, is_auth_url, is_web_address};

#[test]
fn chat_and_sign_in_hosts_pass_the_guard() {
    assert!(allow_navigation("https://chat.qwen.ai/c/123"));
    assert!(allow_navigation("https://passport.alibaba.com/login.htm"));
    assert!(allow_navigation("qwen-internal://x/oauth/callback"));
    assert!(allow_navigation("custom://accounts.qwen.ai"));
}

#[test]
fn other_web_addresses_pass_the_guard() {
    assert!(allow_navigation("https://example.com/"));
    assert!(allow_navigation("http://example.com/"));
}

#[test]
fn other_schemes_are_refused() {
    assert!(!allow_navigation("file:///etc/passwd"));
    assert!(!allow_navigation("javascript:alert(1)"));
    assert!(!allow_navigation(""));
}

#[test]
fn sign_in_links_are_recognised() {
    assert!(is_auth_url("https://login.aliyun.com/x"));
    assert!(is_auth_url("https://example.com/signup"));
    assert!(is_auth_url("https://example.com/auth/start"));
    assert!(!is_auth_url("https://chat.qwen.ai/c/1"));
    assert!(!is_auth_url("https://example.com/"));
}

#[test]
fn web_addresses_are_recognised() {
    assert!(is_web_address("http://a"));
    assert!(is_web_address("https://a"));
    assert!(!is_web_address("ftp://a"));
    assert!(!is_web_address("https:/a"));
}
