//! Which navigations of the app window are allowed, which are denied, and
//! which are handed to the system browser instead.

use vstd::prelude::*;

use crate::text::{contains, ends_with, has_infix, has_suffix, opt_view, str_equal};

verus! {

/// The parts of an absolute URL that the navigation rules read.
pub struct UrlParts {
    pub host: Option<String>,
    pub path: String,
    pub query: Option<String>,
}

/// The model of a [`UrlParts`].
pub struct UrlPartsView {
    pub host: Option<Seq<char>>,
    pub path: Seq<char>,
    pub query: Option<Seq<char>>,
}

/// The text of an optional string, or the empty text.
pub open spec fn text_or_empty(s: Option<Seq<char>>) -> Seq<char> {
    match s {
        Some(t) => t,
        None => Seq::empty(),
    }
}

impl View for UrlParts {
    type V = UrlPartsView;

    open spec fn view(&self) -> UrlPartsView {
        UrlPartsView { host: opt_view(self.host), path: self.path@, query: opt_view(self.query) }
    }
}

#[verifier::external_type_specification]
#[verifier::external_body]
pub struct ExUrlParseError(url::ParseError);

/// What `url::Url::parse` makes of a string, read through the parsed URL's
/// `host_str`, `path` and `query`; `None` where it refuses the string.
pub uninterp spec fn url_parse(input: Seq<char>) -> Option<UrlPartsView>;

/// Calls `url::Url::parse` and reads `host_str`, `path` and `query` of the URL
/// it returns. The result is named [`url_parse`] of the input (WHATWG URL
/// parsing is not restated here); success and failure follow that name.
#[verifier::external_body]
fn parse_url(input: &str) -> (r: Result<UrlParts, url::ParseError>)
    ensures
        match r {
            Ok(parts) => url_parse(input@) == Some(parts@),
            Err(_) => url_parse(input@) is None,
        },
{
    match url::Url::parse(input) {
        Ok(u) => Ok(
            UrlParts {
                host: u.host_str().map(str::to_string),
                path: u.path().to_string(),
                query: u.query().map(str::to_string),
            },
        ),
        Err(e) => Err(e),
    }
}

/// The name/value pairs that `form_urlencoded::parse` yields for a query
/// string, in order, each already percent- and plus-decoded.
pub uninterp spec fn form_urlencoded_pairs(query: Seq<char>) -> Seq<(Seq<char>, Seq<char>)>;

/// The views of a list of string pairs.
pub open spec fn pairs_view(pairs: Seq<(String, String)>) -> Seq<(Seq<char>, Seq<char>)> {
    pairs.map_values(|p: (String, String)| (p.0@, p.1@))
}

/// Calls `url::form_urlencoded::parse` on the bytes of `query` (what
/// `Url::query_pairs` does) and collects the pairs it yields, in order. The
/// result is named [`form_urlencoded_pairs`] of the query; the decoding is not
/// restated here.
#[verifier::external_body]
fn query_pairs(query: &str) -> (r: Vec<(String, String)>)
    ensures
        pairs_view(r@) == form_urlencoded_pairs(query@),
{
    url::form_urlencoded::parse(query.as_bytes()).map(|(k, v)| (k.into_owned(), v.into_owned())).collect()
}

/// The value of the first pair whose name is `key`.
pub open spec fn first_value(pairs: Seq<(Seq<char>, Seq<char>)>, key: Seq<char>) -> Option<Seq<char>>
    decreases pairs.len(),
{
    if pairs.len() == 0 {
        None
    } else if pairs[0].0 == key {
        Some(pairs[0].1)
    } else {
        first_value(pairs.drop_first(), key)
    }
}

/// The value of the first query pair named `key` (`query_pairs().find(..)`).
pub fn find_value(pairs: &Vec<(String, String)>, key: &str) -> (r: Option<String>)
    ensures
        opt_view(r) == first_value(pairs_view(pairs@), key@),
{
    let ghost all = pairs_view(pairs@);
    let mut i: usize = 0;
    assert(all.skip(0) =~= all);
    while i < pairs.len()
        invariant
            i <= pairs.len(),
            all == pairs_view(pairs@),
            first_value(all, key@) == first_value(all.skip(i as int), key@),
        decreases pairs.len() - i,
    {
        assert(all.skip(i as int)[0] == all[i as int]);
        assert(all.skip(i as int).drop_first() =~= all.skip(i + 1));
        if str_equal(pairs[i].0.as_str(), key) {
            return Some(pairs[i].1.clone());
        }
        i = i + 1;
    }
    assert(all.skip(i as int).len() == 0);
    None
}

/// The pairs of a URL's query, read as `Url::query_pairs` does (no query
/// reads as an empty one).
pub open spec fn url_query_pairs(u: UrlPartsView) -> Seq<(Seq<char>, Seq<char>)> {
    form_urlencoded_pairs(text_or_empty(u.query))
}

/// The URL is one of WhatsApp's link-redirect endpoints:
/// `l.whatsapp.com/r` or `web.whatsapp.com/redirect`.
pub open spec fn is_redirect_endpoint(u: UrlPartsView) -> bool {
    ||| u.host == Some("l.whatsapp.com"@) && u.path == "/r"@
    ||| u.host == Some("web.whatsapp.com"@) && u.path == "/redirect"@
}

/// Where a WhatsApp redirect link points: the first `u` query value of a
/// parseable URL at a redirect endpoint.
pub open spec fn redirect_target(url: Seq<char>) -> Option<Seq<char>> {
    match url_parse(url) {
        Some(u) => if is_redirect_endpoint(u) {
            first_value(url_query_pairs(u), "u"@)
        } else {
            None
        },
        None => None,
    }
}

fn host_is(host: &Option<String>, name: &str) -> (r: bool)
    ensures
        r == (opt_view(*host) == Some(name@)),
{
    match host {
        Some(h) => str_equal(h.as_str(), name),
        None => false,
    }
}

fn pairs_of_query(query: &Option<String>) -> (r: Vec<(String, String)>)
    ensures
        pairs_view(r@) == form_urlencoded_pairs(text_or_empty(opt_view(*query))),
{
    match query {
        Some(q) => {
            query_pairs(q.as_str())
        },
        None => {
            proof {
                reveal_strlit("");
                assert(""@ =~= Seq::<char>::empty());
            }
            query_pairs("")
        },
    }
}

/// Whether a parsed URL is at one of WhatsApp's link-redirect endpoints.
pub fn is_redirect_endpoint_url(url: &UrlParts) -> (r: bool)
    ensures
        r == is_redirect_endpoint(url@),
{
    (host_is(&url.host, "l.whatsapp.com") && str_equal(url.path.as_str(), "/r")) || (host_is(
        &url.host,
        "web.whatsapp.com",
    ) && str_equal(url.path.as_str(), "/redirect"))
}

/// The target of a WhatsApp redirect link (`l.whatsapp.com/r?u=..` or
/// `web.whatsapp.com/redirect?u=..`), if `url_str` is one and names a target.
pub fn extract_redirect_target(url_str: &str) -> (r: Option<String>)
    ensures
        opt_view(r) == redirect_target(url_str@),
{
    let url = match parse_url(url_str) {
        Ok(u) => u,
        Err(_) => return None,
    };
    if !is_redirect_endpoint_url(&url) {
        return None;
    }
    let pairs = pairs_of_query(&url.query);
    find_value(&pairs, "u")
}

/// What becomes of a navigation.
pub enum NavigationDecision {
    /// The window follows it.
    Allow,
    /// The window stays where it is.
    Deny,
    /// The window stays where it is, and the URL given is opened in the
    /// system browser.
    OpenInBrowser(String),
}

/// The model of a [`NavigationDecision`].
pub enum Navigation {
    Allow,
    Deny,
    OpenInBrowser(Seq<char>),
}

impl View for NavigationDecision {
    type V = Navigation;

    open spec fn view(&self) -> Navigation {
        match self {
            NavigationDecision::Allow => Navigation::Allow,
            NavigationDecision::Deny => Navigation::Deny,
            NavigationDecision::OpenInBrowser(t) => Navigation::OpenInBrowser(t@),
        }
    }
}

/// The host is WhatsApp's: `whatsapp.com` or `whatsapp.net`, or a subdomain
/// of either.
pub open spec fn is_whatsapp_host(host: Seq<char>) -> bool {
    ||| host == "whatsapp.com"@
    ||| host == "whatsapp.net"@
    ||| has_suffix(host, ".whatsapp.com"@)
    ||| has_suffix(host, ".whatsapp.net"@)
}

/// Whether a host is WhatsApp's.
pub fn is_whatsapp_domain(host: &str) -> (r: bool)
    ensures
        r == is_whatsapp_host(host@),
{
    str_equal(host, "whatsapp.com") || str_equal(host, "whatsapp.net") || ends_with(
        host,
        ".whatsapp.com",
    ) || ends_with(host, ".whatsapp.net")
}

/// The URL is a page of the WhatsApp Web app itself: a WhatsApp host, not a
/// redirect path and not the link shortener `l.whatsapp.com`.
pub open spec fn is_main_app(url: Seq<char>, host: Seq<char>) -> bool {
    is_whatsapp_host(host) && !has_infix(url, "/redirect"@) && host != "l.whatsapp.com"@
}

/// The URL is the marker that the page script navigates to in order to ask
/// for an external link to be opened.
pub open spec fn is_external_link_request(url: Seq<char>) -> bool {
    has_infix(url, "open-external-link.invalid"@)
}

/// The decision on a navigation to `url` on `host`, when the previous
/// navigation seen was to `last`, given the `url` parameter of its query
/// (`link`) and the target it redirects to, if it is a redirect link
/// (`redirect`).
pub open spec fn decision_given(
    last: Seq<char>,
    url: Seq<char>,
    host: Option<Seq<char>>,
    link: Option<Seq<char>>,
    redirect: Option<Seq<char>>,
) -> Navigation {
    if last == url {
        Navigation::Deny
    } else if is_external_link_request(url) {
        match link {
            Some(target) => Navigation::OpenInBrowser(target),
            None => Navigation::Deny,
        }
    } else {
        match redirect {
            Some(target) => Navigation::OpenInBrowser(target),
            None => {
                let h = text_or_empty(host);
                if is_main_app(url, h) {
                    Navigation::Allow
                } else if is_whatsapp_host(h) {
                    Navigation::Deny
                } else {
                    Navigation::OpenInBrowser(url)
                }
            },
        }
    }
}

/// The host of a URL as parsed, if it parses and has one.
pub open spec fn url_host(url: Seq<char>) -> Option<Seq<char>> {
    match url_parse(url) {
        Some(u) => u.host,
        None => None,
    }
}

/// The `url` parameter of a URL's query, read as `Url::query_pairs` does.
pub open spec fn link_parameter(url: Seq<char>) -> Option<Seq<char>> {
    match url_parse(url) {
        Some(u) => first_value(url_query_pairs(u), "url"@),
        None => first_value(form_urlencoded_pairs(Seq::empty()), "url"@),
    }
}

/// The decision on a navigation to `url`, when the previous navigation seen
/// was to `last`; host, query and redirect target all come from parsing
/// `url`.
pub open spec fn navigation_decision(last: Seq<char>, url: Seq<char>) -> Navigation {
    decision_given(last, url, url_host(url), link_parameter(url), redirect_target(url))
}

/// Decides a navigation to `url` on `host`, given the `url` parameter of its
/// query (`link`) and the target it redirects to (`redirect`), and records it
/// as the last one seen.
pub fn decide_navigation(
    last_url: &mut String,
    url: &str,
    host: &Option<String>,
    link: Option<String>,
    redirect: Option<String>,
) -> (r: NavigationDecision)
    ensures
        final(last_url)@ == url@,
        r@ == decision_given(old(last_url)@, url@, opt_view(*host), opt_view(link), opt_view(redirect)),
{
    if str_equal(last_url.as_str(), url) {
        return NavigationDecision::Deny;
    }
    *last_url = url.to_owned();
    if contains(url, "open-external-link.invalid") {
        return match link {
            Some(target) => NavigationDecision::OpenInBrowser(target),
            None => NavigationDecision::Deny,
        };
    }
    if let Some(target) = redirect {
        return NavigationDecision::OpenInBrowser(target);
    }
    let host: &str = match host {
        Some(h) => h.as_str(),
        None => {
            proof {
                reveal_strlit("");
                assert(""@ =~= Seq::<char>::empty());
            }
            ""
        },
    };
    let whatsapp = is_whatsapp_domain(host);
    let is_main = whatsapp && !contains(url, "/redirect") && !str_equal(host, "l.whatsapp.com");
    if is_main {
        NavigationDecision::Allow
    } else if whatsapp {
        NavigationDecision::Deny
    } else {
        NavigationDecision::OpenInBrowser(url.to_owned())
    }
}

/// Decides a navigation of the app window to `url` and records it as the
/// last one seen: a repeat of the last navigation is denied; the page's
/// request to open an external link opens its `url` parameter in the browser;
/// a WhatsApp redirect link opens its target in the browser; WhatsApp Web's
/// own pages stay in the window; other WhatsApp pages are denied; every other
/// URL is opened in the browser.
pub fn on_navigation(last_url: &mut String, url: &str) -> (r: NavigationDecision)
    ensures
        final(last_url)@ == url@,
        r@ == navigation_decision(old(last_url)@, url@),
{
    match parse_url(url) {
        Ok(parts) => {
            let pairs = pairs_of_query(&parts.query);
            let link = find_value(&pairs, "url");
            let redirect = if is_redirect_endpoint_url(&parts) {
                find_value(&pairs, "u")
            } else {
                None
            };
            decide_navigation(last_url, url, &parts.host, link, redirect)
        },
        Err(_) => {
            let pairs = pairs_of_query(&None);
            let link = find_value(&pairs, "url");
            decide_navigation(last_url, url, &None, link, None)
        },
    }
}

/// The two redirect endpoints are on WhatsApp hosts.
proof fn lemma_redirect_hosts_are_whatsapp()
    ensures
        is_whatsapp_host("l.whatsapp.com"@),
        is_whatsapp_host("web.whatsapp.com"@),
{
    reveal_strlit("l.whatsapp.com");
    reveal_strlit("web.whatsapp.com");
    reveal_strlit(".whatsapp.com");
    assert("l.whatsapp.com"@.subrange(1, 14) =~= ".whatsapp.com"@);
    assert("web.whatsapp.com"@.subrange(3, 16) =~= ".whatsapp.com"@);
}

/// A navigation that repeats the one just decided (whose URL
/// [`on_navigation`] has recorded as the last one) is denied.
pub proof fn repeated_navigation_is_denied(url: Seq<char>)
    ensures
        navigation_decision(url, url) == Navigation::Deny,
{
}

/// The window only follows a navigation to a page of WhatsApp Web itself: a
/// new URL on a WhatsApp host other than `l.whatsapp.com`, outside any
/// `/redirect` path, that is neither an external-link request nor a redirect
/// link.
pub proof fn allowed_only_within_whatsapp(last: Seq<char>, url: Seq<char>)
    requires
        navigation_decision(last, url) == Navigation::Allow,
    ensures
        last != url,
        is_whatsapp_host(text_or_empty(url_host(url))),
        text_or_empty(url_host(url)) != "l.whatsapp.com"@,
        !has_infix(url, "/redirect"@),
        !is_external_link_request(url),
        redirect_target(url) is None,
{
}

/// External links open in the system browser: a new navigation to a URL whose
/// host is not WhatsApp's (and that is not the page's external-link request)
/// is handed to the browser as it is, and the window stays.
pub proof fn external_pages_open_in_browser(last: Seq<char>, url: Seq<char>)
    requires
        last != url,
        !has_infix(url, "open-external-link.invalid"@),
        ({
            let h = text_or_empty(url_host(url));
            &&& h != "whatsapp.com"@
            &&& h != "whatsapp.net"@
            &&& !has_suffix(h, ".whatsapp.com"@)
            &&& !has_suffix(h, ".whatsapp.net"@)
        }),
    ensures
        navigation_decision(last, url) == Navigation::OpenInBrowser(url),
{
    lemma_redirect_hosts_are_whatsapp();
}

/// A new navigation to a WhatsApp redirect link opens the link's target in
/// the system browser, and the window stays.
pub proof fn redirect_links_open_their_target(last: Seq<char>, url: Seq<char>, target: Seq<char>)
    requires
        last != url,
        !is_external_link_request(url),
        redirect_target(url) == Some(target),
    ensures
        navigation_decision(last, url) == Navigation::OpenInBrowser(target),
{
}

/// A page on a WhatsApp host is never handed to the browser, unless it is an
/// external-link request or a redirect link: the window either follows it or
/// stays.
pub proof fn whatsapp_pages_stay_out_of_the_browser(last: Seq<char>, url: Seq<char>)
    requires
        is_whatsapp_host(text_or_empty(url_host(url))),
        !is_external_link_request(url),
        redirect_target(url) is None,
    ensures
        navigation_decision(last, url) == Navigation::Allow || navigation_decision(last, url)
            == Navigation::Deny,
{
}

/// A URL has a redirect target only if it parses and sits at one of the two
/// redirect endpoints, both on WhatsApp hosts, and the target is its first
/// `u` query value.
pub proof fn redirect_target_only_at_endpoints(url: Seq<char>, target: Seq<char>)
    requires
        redirect_target(url) == Some(target),
    ensures
        url_parse(url) is Some,
        is_redirect_endpoint(url_parse(url)->0),
        is_whatsapp_host(text_or_empty(url_host(url))),
        first_value(url_query_pairs(url_parse(url)->0), "u"@) == Some(target),
{
    lemma_redirect_hosts_are_whatsapp();
}

/// The value found for a key is that of the first pair with that key: where
/// pair `i` is the first named `key`, its value is found; where no pair is
/// named `key`, nothing is.
pub proof fn first_value_is_first_match(pairs: Seq<(Seq<char>, Seq<char>)>, key: Seq<char>, i: int)
    requires
        0 <= i < pairs.len(),
        pairs[i].0 == key,
        forall|j: int| 0 <= j < i ==> pairs[j].0 != key,
    ensures
        first_value(pairs, key) == Some(pairs[i].1),
    decreases i,
{
    if i > 0 {
        let rest = pairs.drop_first();
        assert forall|j: int| 0 <= j < i - 1 implies rest[j].0 != key by {
            assert(rest[j] == pairs[j + 1]);
        }
        assert(pairs[0].0 != key);
        first_value_is_first_match(rest, key, i - 1);
    }
}

/// Where no pair is named `key`, no value is found for it.
pub proof fn first_value_absent(pairs: Seq<(Seq<char>, Seq<char>)>, key: Seq<char>)
    requires
        forall|j: int| 0 <= j < pairs.len() ==> pairs[j].0 != key,
    ensures
        first_value(pairs, key) is None,
    decreases pairs.len(),
{
    if pairs.len() > 0 {
        let rest = pairs.drop_first();
        assert forall|j: int| 0 <= j < rest.len() implies rest[j].0 != key by {
            assert(rest[j] == pairs[j + 1]);
        }
        first_value_absent(rest, key);
    }
}

/// A URL that parses to `l.whatsapp.com/r` or `web.whatsapp.com/redirect`,
/// whose query (read as `Url::query_pairs` does) has a pair named `u`, is a
/// redirect link to the value of its first such pair, whatever that value
/// holds; and a new navigation to it (not an external-link request) opens
/// exactly that value in the browser.
pub proof fn redirect_links_lead_to_their_first_u(
    last: Seq<char>,
    url: Seq<char>,
    u: UrlPartsView,
    i: int,
)
    requires
        url_parse(url) == Some(u),
        (u.host == Some("l.whatsapp.com"@) && u.path == "/r"@) || (u.host == Some(
            "web.whatsapp.com"@,
        ) && u.path == "/redirect"@),
        0 <= i < form_urlencoded_pairs(text_or_empty(u.query)).len(),
        form_urlencoded_pairs(text_or_empty(u.query))[i].0 == "u"@,
        forall|j: int|
            0 <= j < i ==> form_urlencoded_pairs(text_or_empty(u.query))[j].0 != "u"@,
    ensures
        redirect_target(url) == Some(form_urlencoded_pairs(text_or_empty(u.query))[i].1),
        last != url && !has_infix(url, "open-external-link.invalid"@) ==> navigation_decision(
            last,
            url,
        ) == Navigation::OpenInBrowser(form_urlencoded_pairs(text_or_empty(u.query))[i].1),
{
    first_value_is_first_match(form_urlencoded_pairs(text_or_empty(u.query)), "u"@, i);
}

/// A new navigation to a URL on a WhatsApp host (`whatsapp.com`,
/// `whatsapp.net`, or a subdomain of either) other than `l.whatsapp.com`,
/// with no `/redirect` in it, that is neither the page's external-link
/// request nor a redirect link, is followed by the window, whatever its path
/// and query.
pub proof fn whatsapp_pages_are_allowed(last: Seq<char>, url: Seq<char>)
    requires
        last != url,
        !has_infix(url, "open-external-link.invalid"@),
        redirect_target(url) is None,
        ({
            let h = text_or_empty(url_host(url));
            ||| h == "whatsapp.com"@
            ||| h == "whatsapp.net"@
            ||| has_suffix(h, ".whatsapp.com"@)
            ||| has_suffix(h, ".whatsapp.net"@)
        }),
        text_or_empty(url_host(url)) != "l.whatsapp.com"@,
        !has_infix(url, "/redirect"@),
    ensures
        navigation_decision(last, url) == Navigation::Allow,
{
}

/// The same for the decision on given inputs ([`decide_navigation`]): a new
/// URL on a WhatsApp host other than `l.whatsapp.com`, with no `/redirect`
/// in it, that is not an external-link request and has no redirect target,
/// is allowed, whatever its path and query.
pub proof fn whatsapp_pages_are_allowed_given(
    last: Seq<char>,
    url: Seq<char>,
    host: Seq<char>,
    link: Option<Seq<char>>,
)
    requires
        last != url,
        !has_infix(url, "open-external-link.invalid"@),
        host == "whatsapp.com"@ || host == "whatsapp.net"@ || has_suffix(host, ".whatsapp.com"@)
            || has_suffix(host, ".whatsapp.net"@),
        host != "l.whatsapp.com"@,
        !has_infix(url, "/redirect"@),
    ensures
        decision_given(last, url, Some(host), link, None) == Navigation::Allow,
{
}

/// A new navigation to the page's external-link request opens the value of
/// the first `url` pair of its query in the browser, whatever that value
/// holds; with no `url` pair, nothing is opened and the window stays.
pub proof fn external_link_requests_open_their_url(last: Seq<char>, url: Seq<char>, u: UrlPartsView)
    requires
        last != url,
        has_infix(url, "open-external-link.invalid"@),
        url_parse(url) == Some(u),
    ensures
        forall|i: int|
            0 <= i < form_urlencoded_pairs(text_or_empty(u.query)).len() && (
            #[trigger] form_urlencoded_pairs(text_or_empty(u.query))[i]).0 == "url"@ && (forall|
                j: int,
            |
                0 <= j < i ==> form_urlencoded_pairs(text_or_empty(u.query))[j].0 != "url"@)
                ==> navigation_decision(last, url) == Navigation::OpenInBrowser(
                form_urlencoded_pairs(text_or_empty(u.query))[i].1,
            ),
        (forall|j: int|
            0 <= j < form_urlencoded_pairs(text_or_empty(u.query)).len()
                ==> form_urlencoded_pairs(text_or_empty(u.query))[j].0 != "url"@)
            ==> navigation_decision(last, url) == Navigation::Deny,
{
    let pairs = form_urlencoded_pairs(text_or_empty(u.query));
    assert forall|i: int|
        0 <= i < pairs.len() && (#[trigger] pairs[i]).0 == "url"@ && (forall|j: int|
            0 <= j < i ==> pairs[j].0 != "url"@) implies navigation_decision(last, url)
        == Navigation::OpenInBrowser(pairs[i].1) by {
        first_value_is_first_match(pairs, "url"@, i);
    }
    if forall|j: int| 0 <= j < pairs.len() ==> pairs[j].0 != "url"@ {
        first_value_absent(pairs, "url"@);
    }
}

} // verus!
