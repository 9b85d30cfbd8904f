//! Which URLs the WebView may navigate to, and what happens to a link that
//! the page asks to open outside the app.
use vstd::prelude::*;
use crate::text::{chars_of, contains_str, has_prefix, has_sub, starts_with_str};

verus! {

/// Some entry of `needles` occurs in `u`.
pub open spec fn mentions_any(u: Seq<char>, needles: Seq<Seq<char>>) -> bool {
    exists|i: int| 0 <= i < needles.len() && has_sub(u, #[trigger] needles[i])
}

/// Hosts of the sign-in flow, as matched by the navigation guard.
pub open spec fn navigation_auth_domains() -> Seq<Seq<char>> {
    seq![
        "chat.qwen.ai"@,
        "accounts.qwen.ai"@,
        "account.qwen.ai"@,
        "login.qwen.ai"@,
        "auth.qwen.ai"@,
        "oauth.qwen.ai"@,
        "passport.alibaba.com"@,
        "login.alibaba.com"@,
        "signin.alibaba.com"@,
        "accounts.alibaba.com"@,
        "account.alibaba.com"@,
        "login.aliyun.com"@,
        "account.aliyun.com"@,
        "signin.aliyun.com"@,
    ]
}

/// Hosts of the sign-in flow, as matched for links the page opens.
pub open spec fn link_auth_domains() -> Seq<Seq<char>> {
    seq![
        "accounts.qwen.ai"@,
        "account.qwen.ai"@,
        "login.qwen.ai"@,
        "auth.qwen.ai"@,
        "oauth.qwen.ai"@,
        "passport.alibaba.com"@,
        "login.alibaba.com"@,
        "signin.alibaba.com"@,
        "accounts.alibaba.com"@,
        "account.alibaba.com"@,
        "login.aliyun.com"@,
        "account.aliyun.com"@,
        "signin.aliyun.com"@,
    ]
}

/// Path fragments of the sign-in flow.
pub open spec fn auth_paths() -> Seq<Seq<char>> {
    seq!["/login"@, "/auth"@, "/oauth"@, "/callback"@, "/signin"@, "/signup"@]
}

pub open spec fn is_web_url(u: Seq<char>) -> bool {
    has_prefix(u, "https://"@) || has_prefix(u, "http://"@)
}

/// The navigation guard of every window.
pub open spec fn navigation_allowed(u: Seq<char>) -> bool {
    if mentions_any(u, navigation_auth_domains()) || mentions_any(u, auth_paths()) || has_prefix(
        u,
        "https://chat.qwen.ai"@,
    ) {
        true
    } else {
        is_web_url(u)
    }
}

/// A link the page asked to open belongs to the sign-in flow.
pub open spec fn is_auth_link(u: Seq<char>) -> bool {
    mentions_any(u, link_auth_domains()) || mentions_any(u, auth_paths())
}

/// Whether some entry of `needles` occurs in `u`.
fn contains_any(u: &Vec<char>, needles: &[&str]) -> (r: bool)
    ensures
        r == mentions_any(u@, needles@.map_values(|s: &str| s@)),
{
    let ghost ns = needles@.map_values(|s: &str| s@);
    let mut i: usize = 0;
    while i < needles.len()
        invariant
            i <= needles@.len(),
            ns == needles@.map_values(|s: &str| s@),
            forall|k: int| 0 <= k < i ==> !has_sub(u@, #[trigger] ns[k]),
        decreases needles.len() - i,
    {
        if contains_str(u, needles[i]) {
            assert(has_sub(u@, ns[i as int]));
            return true;
        }
        i = i + 1;
    }
    false
}

fn mentions_navigation_auth_domain(u: &Vec<char>) -> (r: bool)
    ensures
        r == mentions_any(u@, navigation_auth_domains()),
{
    let domains = [
        "chat.qwen.ai",
        "accounts.qwen.ai",
        "account.qwen.ai",
        "login.qwen.ai",
        "auth.qwen.ai",
        "oauth.qwen.ai",
        "passport.alibaba.com",
        "login.alibaba.com",
        "signin.alibaba.com",
        "accounts.alibaba.com",
        "account.alibaba.com",
        "login.aliyun.com",
        "account.aliyun.com",
        "signin.aliyun.com",
    ];
    let r = contains_any(u, &domains);
    assert(domains@.map_values(|s: &str| s@) =~= navigation_auth_domains());
    r
}

fn mentions_link_auth_domain(u: &Vec<char>) -> (r: bool)
    ensures
        r == mentions_any(u@, link_auth_domains()),
{
    let domains = [
        "accounts.qwen.ai",
        "account.qwen.ai",
        "login.qwen.ai",
        "auth.qwen.ai",
        "oauth.qwen.ai",
        "passport.alibaba.com",
        "login.alibaba.com",
        "signin.alibaba.com",
        "accounts.alibaba.com",
        "account.alibaba.com",
        "login.aliyun.com",
        "account.aliyun.com",
        "signin.aliyun.com",
    ];
    let r = contains_any(u, &domains);
    assert(domains@.map_values(|s: &str| s@) =~= link_auth_domains());
    r
}

fn mentions_auth_path(u: &Vec<char>) -> (r: bool)
    ensures
        r == mentions_any(u@, auth_paths()),
{
    let paths = ["/login", "/auth", "/oauth", "/callback", "/signin", "/signup"];
    let r = contains_any(u, &paths);
    assert(paths@.map_values(|s: &str| s@) =~= auth_paths());
    r
}

/// Whether `url` is an `http://` or `https://` address.
pub fn is_web_address(url: &str) -> (r: bool)
    ensures
        r == is_web_url(url@),
{
    let u = chars_of(url);
    starts_with_str(&u, "https://") || starts_with_str(&u, "http://")
}

/// The navigation guard of every window: sign-in hosts and paths and
/// chat.qwen.ai always pass, any other `http(s)://` address passes too, and
/// everything else is refused.
pub fn allow_navigation(url: &str) -> (r: bool)
    ensures
        r == navigation_allowed(url@),
{
    let u = chars_of(url);
    if mentions_navigation_auth_domain(&u) || mentions_auth_path(&u) || starts_with_str(
        &u,
        "https://chat.qwen.ai",
    ) {
        true
    } else {
        starts_with_str(&u, "https://") || starts_with_str(&u, "http://")
    }
}

/// Whether a link the page asked to open belongs to the sign-in flow.
pub fn is_auth_url(url: &str) -> (r: bool)
    ensures
        r == is_auth_link(url@),
{
    let u = chars_of(url);
    mentions_link_auth_domain(&u) || mentions_auth_path(&u)
}

/// A web address with any of the sign-in path fragments `/login`, `/auth`,
/// `/oauth`, `/callback`, `/signin` or `/signup` is a sign-in link, and the
/// navigation guard lets it through.
pub proof fn lemma_sign_in_paths_are_auth_links(u: Seq<char>)
    requires
        has_sub(u, "/login"@)
            || has_sub(u, "/auth"@)
            || has_sub(u, "/oauth"@)
            || has_sub(u, "/callback"@)
            || has_sub(u, "/signin"@)
            || has_sub(u, "/signup"@),
    ensures
        is_auth_link(u),
        navigation_allowed(u),
{
    if has_sub(u, "/login"@) {
        assert(auth_paths()[0] == "/login"@);
        assert(has_sub(u, auth_paths()[0]));
    }
    if has_sub(u, "/auth"@) {
        assert(auth_paths()[1] == "/auth"@);
        assert(has_sub(u, auth_paths()[1]));
    }
    if has_sub(u, "/oauth"@) {
        assert(auth_paths()[2] == "/oauth"@);
        assert(has_sub(u, auth_paths()[2]));
    }
    if has_sub(u, "/callback"@) {
        assert(auth_paths()[3] == "/callback"@);
        assert(has_sub(u, auth_paths()[3]));
    }
    if has_sub(u, "/signin"@) {
        assert(auth_paths()[4] == "/signin"@);
        assert(has_sub(u, auth_paths()[4]));
    }
    if has_sub(u, "/signup"@) {
        assert(auth_paths()[5] == "/signup"@);
        assert(has_sub(u, auth_paths()[5]));
    }
}

/// A link naming any host of the Qwen or Alibaba sign-in flow is a sign-in
/// link, and the navigation guard lets it through.
pub proof fn lemma_sign_in_hosts_are_auth_links(u: Seq<char>)
    requires
        has_sub(u, "accounts.qwen.ai"@)
            || has_sub(u, "account.qwen.ai"@)
            || has_sub(u, "login.qwen.ai"@)
            || has_sub(u, "auth.qwen.ai"@)
            || has_sub(u, "oauth.qwen.ai"@)
            || has_sub(u, "passport.alibaba.com"@)
            || has_sub(u, "login.alibaba.com"@)
            || has_sub(u, "signin.alibaba.com"@)
            || has_sub(u, "accounts.alibaba.com"@)
            || has_sub(u, "account.alibaba.com"@)
            || has_sub(u, "login.aliyun.com"@)
            || has_sub(u, "account.aliyun.com"@)
            || has_sub(u, "signin.aliyun.com"@),
    ensures
        is_auth_link(u),
        navigation_allowed(u),
{
    if has_sub(u, "accounts.qwen.ai"@) {
        assert(link_auth_domains()[0] == "accounts.qwen.ai"@);
        assert(has_sub(u, link_auth_domains()[0]));
        assert(navigation_auth_domains()[1] == "accounts.qwen.ai"@);
        assert(has_sub(u, navigation_auth_domains()[1]));
    }
    if has_sub(u, "account.qwen.ai"@) {
        assert(link_auth_domains()[1] == "account.qwen.ai"@);
        assert(has_sub(u, link_auth_domains()[1]));
        assert(navigation_auth_domains()[2] == "account.qwen.ai"@);
        assert(has_sub(u, navigation_auth_domains()[2]));
    }
    if has_sub(u, "login.qwen.ai"@) {
        assert(link_auth_domains()[2] == "login.qwen.ai"@);
        assert(has_sub(u, link_auth_domains()[2]));
        assert(navigation_auth_domains()[3] == "login.qwen.ai"@);
        assert(has_sub(u, navigation_auth_domains()[3]));
    }
    if has_sub(u, "auth.qwen.ai"@) {
        assert(link_auth_domains()[3] == "auth.qwen.ai"@);
        assert(has_sub(u, link_auth_domains()[3]));
        assert(navigation_auth_domains()[4] == "auth.qwen.ai"@);
        assert(has_sub(u, navigation_auth_domains()[4]));
    }
    if has_sub(u, "oauth.qwen.ai"@) {
        assert(link_auth_domains()[4] == "oauth.qwen.ai"@);
        assert(has_sub(u, link_auth_domains()[4]));
        assert(navigation_auth_domains()[5] == "oauth.qwen.ai"@);
        assert(has_sub(u, navigation_auth_domains()[5]));
    }
    if has_sub(u, "passport.alibaba.com"@) {
        assert(link_auth_domains()[5] == "passport.alibaba.com"@);
        assert(has_sub(u, link_auth_domains()[5]));
        assert(navigation_auth_domains()[6] == "passport.alibaba.com"@);
        assert(has_sub(u, navigation_auth_domains()[6]));
    }
    if has_sub(u, "login.alibaba.com"@) {
        assert(link_auth_domains()[6] == "login.alibaba.com"@);
        assert(has_sub(u, link_auth_domains()[6]));
        assert(navigation_auth_domains()[7] == "login.alibaba.com"@);
        assert(has_sub(u, navigation_auth_domains()[7]));
    }
    if has_sub(u, "signin.alibaba.com"@) {
        assert(link_auth_domains()[7] == "signin.alibaba.com"@);
        assert(has_sub(u, link_auth_domains()[7]));
        assert(navigation_auth_domains()[8] == "signin.alibaba.com"@);
        assert(has_sub(u, navigation_auth_domains()[8]));
    }
    if has_sub(u, "accounts.alibaba.com"@) {
        assert(link_auth_domains()[8] == "accounts.alibaba.com"@);
        assert(has_sub(u, link_auth_domains()[8]));
        assert(navigation_auth_domains()[9] == "accounts.alibaba.com"@);
        assert(has_sub(u, navigation_auth_domains()[9]));
    }
    if has_sub(u, "account.alibaba.com"@) {
        assert(link_auth_domains()[9] == "account.alibaba.com"@);
        assert(has_sub(u, link_auth_domains()[9]));
        assert(navigation_auth_domains()[10] == "account.alibaba.com"@);
        assert(has_sub(u, navigation_auth_domains()[10]));
    }
    if has_sub(u, "login.aliyun.com"@) {
        assert(link_auth_domains()[10] == "login.aliyun.com"@);
        assert(has_sub(u, link_auth_domains()[10]));
        assert(navigation_auth_domains()[11] == "login.aliyun.com"@);
        assert(has_sub(u, navigation_auth_domains()[11]));
    }
    if has_sub(u, "account.aliyun.com"@) {
        assert(link_auth_domains()[11] == "account.aliyun.com"@);
        assert(has_sub(u, link_auth_domains()[11]));
        assert(navigation_auth_domains()[12] == "account.aliyun.com"@);
        assert(has_sub(u, navigation_auth_domains()[12]));
    }
    if has_sub(u, "signin.aliyun.com"@) {
        assert(link_auth_domains()[12] == "signin.aliyun.com"@);
        assert(has_sub(u, link_auth_domains()[12]));
        assert(navigation_auth_domains()[13] == "signin.aliyun.com"@);
        assert(has_sub(u, navigation_auth_domains()[13]));
    }
}

/// The navigation guard lets every page of chat.qwen.ai through.
pub proof fn lemma_chat_pages_pass_navigation_guard(u: Seq<char>)
    requires
        has_sub(u, "chat.qwen.ai"@),
    ensures
        navigation_allowed(u),
{
    assert(navigation_auth_domains()[0] == "chat.qwen.ai"@);
    assert(has_sub(u, navigation_auth_domains()[0]));
}

} // verus!
