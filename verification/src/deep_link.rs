//! Reading `qwen://` deep links: which argument of a second launch is one,
//! what its host and query ask for, and the script that hands a sign-in
//! token to the page.
use vstd::prelude::*;
use crate::text::{chars_of, eq_str, has_prefix, has_sub, join_strs, join_with, starts_with_str};
use crate::text::{lemma_has_sub_trans, lemma_join_adjacent, lemma_seam};

verus! {

/// The host and the decoded query pairs of a URL, as the `url` crate reads
/// them.
pub struct UrlParts {
    pub host: Option<String>,
    pub query: Vec<(String, String)>,
}

impl UrlParts {
    pub open spec fn host_view(&self) -> Option<Seq<char>> {
        match self.host {
            Some(h) => Some(h@),
            None => None,
        }
    }

    pub open spec fn query_view(&self) -> Seq<(Seq<char>, Seq<char>)> {
        self.query@.map_values(|p: (String, String)| (p.0@, p.1@))
    }

    pub open spec fn parts_view(&self) -> (Option<Seq<char>>, Seq<(Seq<char>, Seq<char>)>) {
        (self.host_view(), self.query_view())
    }
}

/// What `url::Url::parse` makes of a text: `None` where it refuses it, else
/// the parsed URL's `host_str()` and its `query_pairs()` in order.
pub uninterp spec fn parsed_url(input: Seq<char>) -> Option<
    (Option<Seq<char>>, Seq<(Seq<char>, Seq<char>)>),
>;

/// Parses `input` with `url::Url::parse` and reads `host_str()` and
/// `query_pairs()` of the result. The contract claims only that the outcome
/// is a function of the input text (named `parsed_url`); the WHATWG parsing
/// rules themselves are not stated.
#[verifier::external_body]
fn parse_url(input: &str) -> (r: Option<UrlParts>)
    ensures
        match r {
            Some(p) => parsed_url(input@) == Some(p.parts_view()),
            None => parsed_url(input@) is None,
        },
{
    match url::Url::parse(input) {
        Ok(u) => Some(
            UrlParts {
                host: u.host_str().map(|h| h.to_string()),
                query: u.query_pairs().map(|(k, v)| (k.into_owned(), v.into_owned())).collect(),
            },
        ),
        Err(_) => None,
    }
}

/// The value of the last pair whose name is `key`, as a map built from the
/// pairs in order keeps it.
pub open spec fn last_value(q: Seq<(Seq<char>, Seq<char>)>, key: Seq<char>) -> Option<Seq<char>>
    decreases q.len(),
{
    if q.len() == 0 {
        None
    } else if q.last().0 == key {
        Some(q.last().1)
    } else {
        last_value(q.drop_last(), key)
    }
}

/// The sign-in token a deep link carries: `token`, else `code`, else `sid`,
/// else `ticket`.
pub open spec fn link_token(q: Seq<(Seq<char>, Seq<char>)>) -> Option<Seq<char>> {
    if last_value(q, "token"@) is Some {
        last_value(q, "token"@)
    } else if last_value(q, "code"@) is Some {
        last_value(q, "code"@)
    } else if last_value(q, "sid"@) is Some {
        last_value(q, "sid"@)
    } else {
        last_value(q, "ticket"@)
    }
}

/// Hosts under which a deep link may carry a sign-in token.
pub open spec fn is_token_host(h: Seq<char>) -> bool {
    h == "open"@ || h == "auth"@ || h == "login"@ || h == "callback"@
}

pub open spec fn host_or_empty(h: Option<Seq<char>>) -> Seq<char> {
    match h {
        Some(x) => x,
        None => Seq::empty(),
    }
}

/// What the app does with a deep link.
pub enum DeepLinkAction {
    /// The link is not a URL: it is only logged.
    Unparsable,
    /// Bring the main window to the front.
    FocusMainWindow,
    /// Bring the main window to the front and hand it this token.
    InjectToken(String),
}

/// The action owed for a parsed link (`None`: the parser refused it).
pub open spec fn deep_link_decision(
    parts: Option<(Option<Seq<char>>, Seq<(Seq<char>, Seq<char>)>)>,
    a: DeepLinkAction,
) -> bool {
    match parts {
        None => a is Unparsable,
        Some((h, q)) => if is_token_host(host_or_empty(h)) && link_token(q) is Some {
            a matches DeepLinkAction::InjectToken(t) && t@ == link_token(q)->0
        } else {
            a is FocusMainWindow
        },
    }
}

/// The value of the last query pair named `key`.
fn lookup_last(q: &Vec<(String, String)>, key: &str) -> (r: Option<String>)
    ensures
        match r {
            Some(v) => last_value(q@.map_values(|p: (String, String)| (p.0@, p.1@)), key@)
                == Some(v@),
            None => last_value(q@.map_values(|p: (String, String)| (p.0@, p.1@)), key@) is None,
        },
{
    let ghost qv = q@.map_values(|p: (String, String)| (p.0@, p.1@));
    let mut found: Option<usize> = None;
    let mut i: usize = 0;
    while i < q.len()
        invariant
            i <= q.len(),
            qv == q@.map_values(|p: (String, String)| (p.0@, p.1@)),
            match found {
                Some(k) => k < i && last_value(qv.take(i as int), key@) == Some(qv[k as int].1),
                None => last_value(qv.take(i as int), key@) is None,
            },
        decreases q.len() - i,
    {
        assert(qv.take(i + 1).drop_last() =~= qv.take(i as int));
        assert(qv.take(i + 1).last() == qv[i as int]);
        if eq_str(q[i].0.as_str(), key) {
            found = Some(i);
        }
        i = i + 1;
    }
    assert(qv.take(q.len() as int) =~= qv);
    match found {
        Some(k) => Some(q[k].1.clone()),
        None => None,
    }
}

/// The sign-in token carried by a list of query pairs.
fn token_in_query(q: &Vec<(String, String)>) -> (r: Option<String>)
    ensures
        match r {
            Some(v) => link_token(q@.map_values(|p: (String, String)| (p.0@, p.1@))) == Some(v@),
            None => link_token(q@.map_values(|p: (String, String)| (p.0@, p.1@))) is None,
        },
{
    let t = lookup_last(q, "token");
    if t.is_some() {
        return t;
    }
    let c = lookup_last(q, "code");
    if c.is_some() {
        return c;
    }
    let s = lookup_last(q, "sid");
    if s.is_some() {
        return s;
    }
    lookup_last(q, "ticket")
}

/// Decides what a parsed deep link asks for (`None`: not a URL).
pub fn deep_link_action(parts: Option<UrlParts>) -> (r: DeepLinkAction)
    ensures
        deep_link_decision(
            match parts {
                Some(p) => Some(p.parts_view()),
                None => None,
            },
            r,
        ),
{
    match parts {
        None => DeepLinkAction::Unparsable,
        Some(p) => {
            let host: &str = match &p.host {
                Some(h) => h.as_str(),
                None => {
                    proof {
                        reveal_strlit("");
                    }
                    ""
                },
            };
            assert(host@ == host_or_empty(p.host_view()));
            let token_host = eq_str(host, "open") || eq_str(host, "auth") || eq_str(host, "login")
                || eq_str(host, "callback");
            if token_host {
                match token_in_query(&p.query) {
                    Some(t) => DeepLinkAction::InjectToken(t),
                    None => DeepLinkAction::FocusMainWindow,
                }
            } else {
                DeepLinkAction::FocusMainWindow
            }
        },
    }
}

/// Reads a deep link with the `url` crate and decides what it asks for.
pub fn handle_deep_link_url(url: &str) -> (r: DeepLinkAction)
    ensures
        deep_link_decision(parsed_url(url@), r),
{
    let parts = parse_url(url);
    deep_link_action(parts)
}

/// Among the arguments of a second launch, the first that is a `qwen://`
/// link.
pub fn deep_link_argument(args: &Vec<String>) -> (r: Option<String>)
    ensures
        match r {
            Some(u) => exists|i: int|
                0 <= i < args@.len() && u@ == args@[i]@ && has_prefix(args@[i]@, "qwen://"@) && (
                forall|j: int| 0 <= j < i ==> !has_prefix(#[trigger] args@[j]@, "qwen://"@)),
            None => forall|j: int|
                0 <= j < args@.len() ==> !has_prefix(#[trigger] args@[j]@, "qwen://"@),
        },
{
    let mut i: usize = 0;
    while i < args.len()
        invariant
            i <= args.len(),
            forall|j: int| 0 <= j < i ==> !has_prefix(#[trigger] args@[j]@, "qwen://"@),
        decreases args.len() - i,
    {
        let a = chars_of(args[i].as_str());
        if starts_with_str(&a, "qwen://") {
            return Some(args[i].clone());
        }
        i = i + 1;
    }
    None
}

/// The pieces of the token hand-over script, between which the token stands.
pub open spec fn token_script_pieces() -> Seq<Seq<char>> {
    seq![
        "(function() {\n                                    try {\n                                        document.cookie = \"token="@,
        "; domain=.qwen.ai; path=/; max-age=2592000\";\n                                        document.cookie = \"sid="@,
        "; domain=.qwen.ai; path=/; max-age=2592000\";\n                                        document.cookie = \"ticket="@,
        "; domain=.qwen.ai; path=/; max-age=2592000\";\n                                        localStorage.setItem(\"token\", \""@,
        "\");\n                                        localStorage.setItem(\"sid\", \""@,
        "\");\n                                        localStorage.setItem(\"ticket\", \""@,
        "\");\n                                        localStorage.setItem(\"auth_token\", \""@,
        "\");\n                                        localStorage.setItem(\"qwen_auth_token\", \""@,
        "\");\n                                        sessionStorage.setItem(\"token\", \""@,
        "\");\n                                        sessionStorage.setItem(\"sid\", \""@,
        "\");\n                                        console.log(\"[DeepLink] Token and cookies injected\");\n                                    } catch(e) {\n                                        console.error(\"[DeepLink] Injection failed:\", e);\n                                    }\n                                })();"@
    ]
}

/// The script that stores a sign-in token as cookies and in local and
/// session storage of the page.
pub open spec fn token_injection_script(token: Seq<char>) -> Seq<char> {
    join_with(token_script_pieces(), token)
}

/// Builds the token hand-over script for `token`.
pub fn token_script(token: &str) -> (r: String)
    ensures
        r@ == token_injection_script(token@),
{
    let pieces = [
        "(function() {\n                                    try {\n                                        document.cookie = \"token=",
        "; domain=.qwen.ai; path=/; max-age=2592000\";\n                                        document.cookie = \"sid=",
        "; domain=.qwen.ai; path=/; max-age=2592000\";\n                                        document.cookie = \"ticket=",
        "; domain=.qwen.ai; path=/; max-age=2592000\";\n                                        localStorage.setItem(\"token\", \"",
        "\");\n                                        localStorage.setItem(\"sid\", \"",
        "\");\n                                        localStorage.setItem(\"ticket\", \"",
        "\");\n                                        localStorage.setItem(\"auth_token\", \"",
        "\");\n                                        localStorage.setItem(\"qwen_auth_token\", \"",
        "\");\n                                        sessionStorage.setItem(\"token\", \"",
        "\");\n                                        sessionStorage.setItem(\"sid\", \"",
        "\");\n                                        console.log(\"[DeepLink] Token and cookies injected\");\n                                    } catch(e) {\n                                        console.error(\"[DeepLink] Injection failed:\", e);\n                                    }\n                                })();"
    ];
    let r = join_strs(&pieces, token);
    assert(pieces@.map_values(|p: &str| p@) =~= token_script_pieces());
    r
}

/// The hand-over script sets each of the cookies `token`, `sid` and
/// `ticket` to the token, for the whole `.qwen.ai` domain.
pub proof fn lemma_token_script_sets_cookies(t: Seq<char>)
    ensures
        has_sub(token_injection_script(t), "document.cookie = \"token="@ + t + "; domain=.qwen.ai"@),
        has_sub(token_injection_script(t), "document.cookie = \"sid="@ + t + "; domain=.qwen.ai"@),
        has_sub(token_injection_script(t), "document.cookie = \"ticket="@ + t + "; domain=.qwen.ai"@),
{
    let ps = token_script_pieces();
    let e = "; domain=.qwen.ai"@;
    let d0 = "document.cookie = \"token="@;
    let d1 = "document.cookie = \"sid="@;
    let d2 = "document.cookie = \"ticket="@;
    reveal_strlit("(function() {\n                                    try {\n                                        document.cookie = \"token=");
    reveal_strlit("; domain=.qwen.ai; path=/; max-age=2592000\";\n                                        document.cookie = \"sid=");
    reveal_strlit("; domain=.qwen.ai; path=/; max-age=2592000\";\n                                        document.cookie = \"ticket=");
    reveal_strlit("; domain=.qwen.ai; path=/; max-age=2592000\";\n                                        localStorage.setItem(\"token\", \"");
    reveal_strlit("; domain=.qwen.ai");
    reveal_strlit("document.cookie = \"token=");
    reveal_strlit("document.cookie = \"sid=");
    reveal_strlit("document.cookie = \"ticket=");
    assert(ps[0] == "(function() {\n                                    try {\n                                        document.cookie = \"token="@);
    assert(ps[1] == "; domain=.qwen.ai; path=/; max-age=2592000\";\n                                        document.cookie = \"sid="@);
    assert(ps[2] == "; domain=.qwen.ai; path=/; max-age=2592000\";\n                                        document.cookie = \"ticket="@);
    assert(ps[3] == "; domain=.qwen.ai; path=/; max-age=2592000\";\n                                        localStorage.setItem(\"token\", \""@);
    assert(ps[0].subrange(ps[0].len() - d0.len(), ps[0].len() as int) =~= d0);
    assert(ps[1].subrange(ps[1].len() - d1.len(), ps[1].len() as int) =~= d1);
    assert(ps[2].subrange(ps[2].len() - d2.len(), ps[2].len() as int) =~= d2);
    assert(ps[1].subrange(0, e.len() as int) =~= e);
    assert(ps[2].subrange(0, e.len() as int) =~= e);
    assert(ps[3].subrange(0, e.len() as int) =~= e);
    lemma_join_adjacent(ps, t, 0);
    lemma_join_adjacent(ps, t, 1);
    lemma_join_adjacent(ps, t, 2);
    lemma_seam(ps[0], d0, t, e, ps[1]);
    lemma_seam(ps[1], d1, t, e, ps[2]);
    lemma_seam(ps[2], d2, t, e, ps[3]);
    lemma_has_sub_trans(token_injection_script(t), ps[0] + t + ps[1], d0 + t + e);
    lemma_has_sub_trans(token_injection_script(t), ps[1] + t + ps[2], d1 + t + e);
    lemma_has_sub_trans(token_injection_script(t), ps[2] + t + ps[3], d2 + t + e);
}

/// The hand-over script stores the token in local storage under `token`,
/// `sid`, `ticket`, `auth_token` and `qwen_auth_token`, and in session
/// storage under `token` and `sid`.
pub proof fn lemma_token_script_stores_token(t: Seq<char>)
    ensures
        has_sub(token_injection_script(t), "localStorage.setItem(\"token\", \""@ + t + "\");"@),
        has_sub(token_injection_script(t), "localStorage.setItem(\"sid\", \""@ + t + "\");"@),
        has_sub(token_injection_script(t), "localStorage.setItem(\"ticket\", \""@ + t + "\");"@),
        has_sub(token_injection_script(t), "localStorage.setItem(\"auth_token\", \""@ + t + "\");"@),
        has_sub(token_injection_script(t), "localStorage.setItem(\"qwen_auth_token\", \""@ + t + "\");"@),
        has_sub(token_injection_script(t), "sessionStorage.setItem(\"token\", \""@ + t + "\");"@),
        has_sub(token_injection_script(t), "sessionStorage.setItem(\"sid\", \""@ + t + "\");"@),
{
    let ps = token_script_pieces();
    let e = "\");"@;
    reveal_strlit("; domain=.qwen.ai; path=/; max-age=2592000\";\n                                        localStorage.setItem(\"token\", \"");
    reveal_strlit("\");\n                                        localStorage.setItem(\"sid\", \"");
    reveal_strlit("\");\n                                        localStorage.setItem(\"ticket\", \"");
    reveal_strlit("\");\n                                        localStorage.setItem(\"auth_token\", \"");
    reveal_strlit("\");\n                                        localStorage.setItem(\"qwen_auth_token\", \"");
    reveal_strlit("\");\n                                        sessionStorage.setItem(\"token\", \"");
    reveal_strlit("\");\n                                        sessionStorage.setItem(\"sid\", \"");
    reveal_strlit("\");\n                                        console.log(\"[DeepLink] Token and cookies injected\");\n                                    } catch(e) {\n                                        console.error(\"[DeepLink] Injection failed:\", e);\n                                    }\n                                })();");
    reveal_strlit("localStorage.setItem(\"token\", \"");
    reveal_strlit("localStorage.setItem(\"sid\", \"");
    reveal_strlit("localStorage.setItem(\"ticket\", \"");
    reveal_strlit("localStorage.setItem(\"auth_token\", \"");
    reveal_strlit("localStorage.setItem(\"qwen_auth_token\", \"");
    reveal_strlit("sessionStorage.setItem(\"token\", \"");
    reveal_strlit("sessionStorage.setItem(\"sid\", \"");
    reveal_strlit("\");");
    assert(ps[3] == "; domain=.qwen.ai; path=/; max-age=2592000\";\n                                        localStorage.setItem(\"token\", \""@);
    assert(ps[4] == "\");\n                                        localStorage.setItem(\"sid\", \""@);
    assert(ps[5] == "\");\n                                        localStorage.setItem(\"ticket\", \""@);
    assert(ps[6] == "\");\n                                        localStorage.setItem(\"auth_token\", \""@);
    assert(ps[7] == "\");\n                                        localStorage.setItem(\"qwen_auth_token\", \""@);
    assert(ps[8] == "\");\n                                        sessionStorage.setItem(\"token\", \""@);
    assert(ps[9] == "\");\n                                        sessionStorage.setItem(\"sid\", \""@);
    assert(ps[10] == "\");\n                                        console.log(\"[DeepLink] Token and cookies injected\");\n                                    } catch(e) {\n                                        console.error(\"[DeepLink] Injection failed:\", e);\n                                    }\n                                })();"@);
    let d3 = "localStorage.setItem(\"token\", \""@;
    assert(ps[3].subrange(ps[3].len() - d3.len(), ps[3].len() as int) =~= d3);
    assert(ps[4].subrange(0, e.len() as int) =~= e);
    lemma_join_adjacent(ps, t, 3);
    lemma_seam(ps[3], d3, t, e, ps[4]);
    lemma_has_sub_trans(token_injection_script(t), ps[3] + t + ps[4], d3 + t + e);
    let d4 = "localStorage.setItem(\"sid\", \""@;
    assert(ps[4].subrange(ps[4].len() - d4.len(), ps[4].len() as int) =~= d4);
    assert(ps[5].subrange(0, e.len() as int) =~= e);
    lemma_join_adjacent(ps, t, 4);
    lemma_seam(ps[4], d4, t, e, ps[5]);
    lemma_has_sub_trans(token_injection_script(t), ps[4] + t + ps[5], d4 + t + e);
    let d5 = "localStorage.setItem(\"ticket\", \""@;
    assert(ps[5].subrange(ps[5].len() - d5.len(), ps[5].len() as int) =~= d5);
    assert(ps[6].subrange(0, e.len() as int) =~= e);
    lemma_join_adjacent(ps, t, 5);
    lemma_seam(ps[5], d5, t, e, ps[6]);
    lemma_has_sub_trans(token_injection_script(t), ps[5] + t + ps[6], d5 + t + e);
    let d6 = "localStorage.setItem(\"auth_token\", \""@;
    assert(ps[6].subrange(ps[6].len() - d6.len(), ps[6].len() as int) =~= d6);
    assert(ps[7].subrange(0, e.len() as int) =~= e);
    lemma_join_adjacent(ps, t, 6);
    lemma_seam(ps[6], d6, t, e, ps[7]);
    lemma_has_sub_trans(token_injection_script(t), ps[6] + t + ps[7], d6 + t + e);
    let d7 = "localStorage.setItem(\"qwen_auth_token\", \""@;
    assert(ps[7].subrange(ps[7].len() - d7.len(), ps[7].len() as int) =~= d7);
    assert(ps[8].subrange(0, e.len() as int) =~= e);
    lemma_join_adjacent(ps, t, 7);
    lemma_seam(ps[7], d7, t, e, ps[8]);
    lemma_has_sub_trans(token_injection_script(t), ps[7] + t + ps[8], d7 + t + e);
    let d8 = "sessionStorage.setItem(\"token\", \""@;
    assert(ps[8].subrange(ps[8].len() - d8.len(), ps[8].len() as int) =~= d8);
    assert(ps[9].subrange(0, e.len() as int) =~= e);
    lemma_join_adjacent(ps, t, 8);
    lemma_seam(ps[8], d8, t, e, ps[9]);
    lemma_has_sub_trans(token_injection_script(t), ps[8] + t + ps[9], d8 + t + e);
    let d9 = "sessionStorage.setItem(\"sid\", \""@;
    assert(ps[9].subrange(ps[9].len() - d9.len(), ps[9].len() as int) =~= d9);
    assert(ps[10].subrange(0, e.len() as int) =~= e);
    lemma_join_adjacent(ps, t, 9);
    lemma_seam(ps[9], d9, t, e, ps[10]);
    lemma_has_sub_trans(token_injection_script(t), ps[9] + t + ps[10], d9 + t + e);
}

/// Whether the main window must first be sent to chat.qwen.ai before a
/// token is handed over.
pub fn needs_home_navigation(current_url: &str) -> (r: bool)
    ensures
        r == !crate::text::has_sub(current_url@, "chat.qwen.ai"@),
{
    let u = chars_of(current_url);
    !crate::text::contains_str(&u, "chat.qwen.ai")
}

} // verus!
