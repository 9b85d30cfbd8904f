//! Window-level decisions: the initialization script, labels of new
//! windows, what happens to links the page opens, and the DevTools,
//! maximize and close behaviour of the main window.
use vstd::prelude::*;
use vstd::string::StringExecFns;
use crate::navigation::{is_auth_link, is_auth_url, is_web_address, is_web_url};
use crate::navigation::{auth_paths, link_auth_domains, mentions_any, navigation_auth_domains};
use crate::scripts::{
    append_pre_load_script,
    append_settings_script,
    append_zoom_script,
    pre_load_script,
    settings_script,
    zoom_script,
};
use crate::text::{push_char, replace_char, replace_char_str};

verus! {

/// The script every window (the main window and each new one) runs before
/// its page loads: MCP seeding, zoom, the bridge script and the settings
/// additions, one per line. It never clears the page's storage.
pub open spec fn init_script(bridge: Seq<char>) -> Seq<char> {
    pre_load_script() + "\n"@ + zoom_script() + "\n"@ + bridge + "\n"@ + settings_script()
}

/// Builds the initialization script shared by all windows around the bridge
/// script `electron_bridge`.
pub fn build_init_script(electron_bridge: &str) -> (r: String)
    ensures
        r@ == init_script(electron_bridge@),
{
    let mut r = String::new();
    append_pre_load_script(&mut r);
    r.append("\n");
    append_zoom_script(&mut r);
    r.append("\n");
    r.append(electron_bridge);
    r.append("\n");
    append_settings_script(&mut r);
    r
}

/// The character of a decimal digit.
pub open spec fn digit_char(d: nat) -> char {
    (d + 48) as char
}

/// The decimal notation of `n`, without leading zeros.
pub open spec fn decimal(n: nat) -> Seq<char>
    decreases n,
{
    if n < 10 {
        seq![digit_char(n)]
    } else {
        decimal(n / 10).push(digit_char(n % 10))
    }
}

/// The label of the window numbered `id`.
pub open spec fn window_label_text(id: nat) -> Seq<char> {
    "window-"@ + decimal(id)
}

fn digit_to_char(d: u32) -> (c: char)
    requires
        d < 10,
    ensures
        c == digit_char(d as nat),
{
    match d {
        0 => '0',
        1 => '1',
        2 => '2',
        3 => '3',
        4 => '4',
        5 => '5',
        6 => '6',
        7 => '7',
        8 => '8',
        _ => '9',
    }
}

/// Appends the decimal notation of `n` to `s`.
fn push_decimal(s: &mut String, n: u32)
    ensures
        final(s)@ == old(s)@ + decimal(n as nat),
    decreases n,
{
    if n < 10 {
        push_char(s, digit_to_char(n));
        assert(final(s)@ =~= old(s)@ + decimal(n as nat)) by {
            assert(decimal(n as nat) == seq![digit_char(n as nat)]);
        }
    } else {
        push_decimal(s, n / 10);
        push_char(s, digit_to_char(n % 10));
        assert(final(s)@ =~= old(s)@ + decimal(n as nat));
    }
}

/// The label of the window numbered `id`: `window-<id>`.
pub fn window_label(id: u32) -> (r: String)
    ensures
        r@ == window_label_text(id as nat),
{
    let mut r = String::from_str("window-");
    push_decimal(&mut r, id);
    r
}

proof fn lemma_decimal_len(n: nat)
    ensures
        decimal(n).len() >= 1,
        n < 10 <==> decimal(n).len() == 1,
    decreases n,
{
    if n >= 10 {
        lemma_decimal_len(n / 10);
    }
}

/// Different numbers have different decimal notations.
pub proof fn lemma_decimal_injective(a: nat, b: nat)
    requires
        decimal(a) == decimal(b),
    ensures
        a == b,
    decreases a,
{
    lemma_decimal_len(a);
    lemma_decimal_len(b);
    if a < 10 && b < 10 {
        assert(decimal(a)[0] == digit_char(a));
        assert(decimal(b)[0] == digit_char(b));
    } else if a >= 10 && b >= 10 {
        let da = decimal(a / 10);
        let db = decimal(b / 10);
        assert(decimal(a).drop_last() =~= da);
        assert(decimal(b).drop_last() =~= db);
        lemma_decimal_injective(a / 10, b / 10);
        assert(decimal(a).last() == digit_char(a % 10));
        assert(decimal(b).last() == digit_char(b % 10));
    }
}

/// Windows with different numbers get different labels, and no numbered
/// window is labelled like the main window.
pub proof fn lemma_window_labels_distinct(a: u32, b: u32)
    requires
        a != b,
    ensures
        window_label_text(a as nat) != window_label_text(b as nat),
        window_label_text(a as nat) != "main"@,
{
    reveal_strlit("main");
    reveal_strlit("window-");
    assert(window_label_text(a as nat).len() > 4);
    if window_label_text(a as nat) == window_label_text(b as nat) {
        let p = "window-"@;
        assert(window_label_text(a as nat).skip(p.len() as int) =~= decimal(a as nat));
        assert(window_label_text(b as nat).skip(p.len() as int) =~= decimal(b as nat));
        lemma_decimal_injective(a as nat, b as nat);
    }
}

/// What to do with a link the page asked to open.
pub enum LinkAction {
    /// Not an `http(s)://` address: refused (the command answers `false`).
    Ignore,
    /// A sign-in link: run this script in the main window to follow it
    /// there.
    NavigateInWebView(String),
    /// Open the address in the system browser.
    OpenInBrowser,
}

/// The script that sends the main window to `u`, with single quotes
/// escaped.
pub open spec fn navigate_script(u: Seq<char>) -> Seq<char> {
    "window.location.href = '"@ + replace_char(u, '\'', "\\'"@) + "';"@
}

/// Decides what happens to a link the page asked to open: sign-in links are
/// followed inside the main window when it exists, other web addresses go to
/// the system browser, anything else is refused.
pub fn open_external_link(url: &str, main_window_present: bool) -> (r: LinkAction)
    ensures
        !is_web_url(url@) ==> r is Ignore,
        is_web_url(url@) && is_auth_link(url@) && main_window_present ==> (r matches LinkAction::NavigateInWebView(
            s,
        ) && s@ == navigate_script(url@)),
        is_web_url(url@) && !(is_auth_link(url@) && main_window_present) ==> r is OpenInBrowser,
{
    if !is_web_address(url) {
        return LinkAction::Ignore;
    }
    if is_auth_url(url) && main_window_present {
        let mut s = String::from_str("window.location.href = '");
        let escaped = replace_char_str(url, '\'', "\\'");
        s.append(escaped.as_str());
        s.append("';");
        LinkAction::NavigateInWebView(s)
    } else {
        LinkAction::OpenInBrowser
    }
}

/// A change to the DevTools of the main window.
#[derive(Clone, Copy, PartialEq, Eq, Structural, Debug)]
pub enum DevtoolsChange {
    Nothing,
    Open,
    Close,
}

/// The DevTools change for a main window whose DevTools are open or not
/// (`None`: no main window), and whether they end up open.
pub open spec fn devtools_toggle(devtools_open: Option<bool>) -> (DevtoolsChange, bool) {
    match devtools_open {
        None => (DevtoolsChange::Nothing, false),
        Some(true) => (DevtoolsChange::Close, false),
        Some(false) => (DevtoolsChange::Open, true),
    }
}

/// Toggles the DevTools: `devtools_open` is `None` without a main window.
/// Returns the change and whether the DevTools end up open.
pub fn toggle_hidden_devtools(devtools_open: Option<bool>) -> (r: (DevtoolsChange, bool))
    ensures
        r == devtools_toggle(devtools_open),
{
    match devtools_open {
        None => (DevtoolsChange::Nothing, false),
        Some(open) => if open {
            (DevtoolsChange::Close, false)
        } else {
            (DevtoolsChange::Open, true)
        },
    }
}

/// A change to the size state of the main window.
#[derive(Clone, Copy, PartialEq, Eq, Structural, Debug)]
pub enum MaximizeChange {
    Maximize,
    Unmaximize,
}

/// Toggles maximization; a window whose state cannot be read counts as not
/// maximized.
pub fn maximize_window(is_maximized: Option<bool>) -> (r: MaximizeChange)
    ensures
        r == if is_maximized == Some(true) {
            MaximizeChange::Unmaximize
        } else {
            MaximizeChange::Maximize
        },
{
    match is_maximized {
        Some(true) => MaximizeChange::Unmaximize,
        _ => MaximizeChange::Maximize,
    }
}

/// The full-screen state after a toggle from `is_fullscreen` (`None`:
/// unreadable, counted as not full screen).
pub open spec fn fullscreen_after(is_fullscreen: Option<bool>) -> bool {
    !(is_fullscreen == Some(true))
}

/// The full-screen state after a toggle; an unreadable state counts as not
/// full screen.
pub fn toggled_fullscreen(is_fullscreen: Option<bool>) -> (r: bool)
    ensures
        r == fullscreen_after(is_fullscreen),
{
    match is_fullscreen {
        Some(true) => false,
        _ => true,
    }
}

/// Closing the window labelled `label` only hides it (the main window).
pub fn hides_on_close(label: &str) -> (r: bool)
    ensures
        r == (label@ == "main"@),
{
    crate::text::eq_str(label, "main")
}

/// Whether a theme name asks for the dark window theme.
pub fn theme_is_dark(theme: &str) -> (r: bool)
    ensures
        r == (theme@ == "dark"@),
{
    crate::text::eq_str(theme, "dark")
}

/// The GDK backend to force at start-up: X11 unless the user chose one.
pub fn gdk_backend_default(backend_set: bool) -> (r: Option<&'static str>)
    ensures
        match r {
            Some(b) => !backend_set && b@ == "x11"@,
            None => backend_set,
        },
{
    if backend_set {
        None
    } else {
        Some("x11")
    }
}

/// The language the page is told to use.
pub fn get_language() -> (r: String)
    ensures
        r@ == "en-US"@,
{
    String::from_str("en-US")
}

/// Sign-in links the app follows inside the WebView also pass the
/// navigation guard of the window, so the sign-in flow is never cut off.
pub proof fn lemma_auth_links_pass_navigation_guard(u: Seq<char>)
    requires
        is_auth_link(u),
    ensures
        crate::navigation::navigation_allowed(u),
{
    if mentions_any(u, link_auth_domains()) {
        let i = choose|i: int|
            0 <= i < link_auth_domains().len() && crate::text::has_sub(
                u,
                #[trigger] link_auth_domains()[i],
            );
        assert(navigation_auth_domains()[i + 1] == link_auth_domains()[i]);
        assert(crate::text::has_sub(u, navigation_auth_domains()[i + 1]));
    }
}

/// Toggling the DevTools twice restores their state, and the answer of a
/// toggle is the state it leaves.
pub proof fn lemma_devtools_toggle_twice(open: bool)
    ensures
        devtools_toggle(Some(devtools_toggle(Some(open)).1)).1 == open,
        devtools_toggle(Some(open)).1 == !open,
{
}

/// Toggling full screen twice restores the state.
pub proof fn lemma_fullscreen_toggle_twice(full: bool)
    ensures
        fullscreen_after(Some(fullscreen_after(Some(full)))) == full,
{
}

/// Every web address passes the navigation guard.
pub proof fn lemma_web_addresses_pass_navigation_guard(u: Seq<char>)
    requires
        is_web_url(u),
    ensures
        crate::navigation::navigation_allowed(u),
{
}

} // verus!
