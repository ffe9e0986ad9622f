use whatsapp_tauri::navigation::{
    decide_navigation, extract_redirect_target, find_value, is_redirect_endpoint_url,
    is_whatsapp_domain, on_navigation, NavigationDecision, UrlParts,
};

fn decide(last: &mut String, url: &str) -> NavigationDecision {
    on_navigation(last, url)
}

fn host(h: Option<&str>) -> Option<String> {
    h.map(|h| h.to_string())
}

fn is_allow(d: &NavigationDecision) -> bool {
    matches!(d, NavigationDecision::Allow)
}

fn is_deny(d: &NavigationDecision) -> bool {
    matches!(d, NavigationDecision::Deny)
}

fn opened(d: &NavigationDecision) -> Option<String> {
    match d {
        NavigationDecision::OpenInBrowser(t) => Some(t.clone()),
        _ => None,
    }
}

#[test]
fn redirect_target_from_shortener() {
    assert_eq!(
        extract_redirect_target("https://l.whatsapp.com/r?u=https%3A%2F%2Fexample.com%2Fa%20b"),
        Some("https://example.com/a b".to_string())
    );
}

#[test]
fn redirect_target_from_web_redirect() {
    assert_eq!(
        extract_redirect_target("https://web.whatsapp.com/redirect?x=1&u=https://rust-lang.org"),
        Some("https://rust-lang.org".to_string())
    );
}

#[test]
fn redirect_target_first_u_wins() {
    assert_eq!(
        extract_redirect_target("https://l.whatsapp.com/r?u=first&u=second"),
        Some("first".to_string())
    );
}

#[test]
fn redirect_target_plus_decodes_to_space() {
    assert_eq!(
        extract_redirect_target("https://l.whatsapp.com/r?u=a+b"),
        Some("a b".to_string())
    );
}

#[test]
fn redirect_target_needs_u_parameter() {
    assert_eq!(extract_redirect_target("https://l.whatsapp.com/r?x=1"), None);
    assert_eq!(extract_redirect_target("https://l.whatsapp.com/r"), None);
}

#[test]
fn redirect_target_wrong_endpoint() {
    assert_eq!(extract_redirect_target("https://l.whatsapp.com/redirect?u=x"), None);
    assert_eq!(extract_redirect_target("https://web.whatsapp.com/r?u=x"), None);
    assert_eq!(extract_redirect_target("https://example.com/r?u=x"), None);
}

#[test]
fn redirect_target_unparseable() {
    assert_eq!(extract_redirect_target("not a url"), None);
    assert_eq!(extract_redirect_target(""), None);
}

#[test]
fn find_value_takes_first_match() {
    let pairs = vec![
        ("a".to_string(), "1".to_string()),
        ("url".to_string(), "x".to_string()),
        ("url".to_string(), "y".to_string()),
    ];
    assert_eq!(find_value(&pairs, "url"), Some("x".to_string()));
    assert_eq!(find_value(&pairs, "b"), None);
}

#[test]
fn main_app_is_allowed() {
    let mut last = String::new();
    let d = decide(&mut last, "https://web.whatsapp.com/");
    assert!(is_allow(&d));
    assert_eq!(last, "https://web.whatsapp.com/");
}

#[test]
fn repeated_navigation_denied() {
    let mut last = String::new();
    let url = "https://web.whatsapp.com/";
    assert!(is_allow(&decide(&mut last, url)));
    assert!(is_deny(&decide(&mut last, url)));
    assert_eq!(last, url);
}

#[test]
fn repeated_external_navigation_opens_once() {
    let mut last = String::new();
    let url = "https://example.com/page";
    assert_eq!(opened(&decide(&mut last, url)), Some(url.to_string()));
    assert!(is_deny(&decide(&mut last, url)));
}

#[test]
fn external_page_opens_in_browser() {
    let mut last = String::new();
    let d = decide(&mut last, "https://github.com/x");
    assert_eq!(opened(&d), Some("https://github.com/x".to_string()));
}

#[test]
fn external_link_request_opens_url_parameter() {
    let mut last = String::new();
    let d = decide(&mut last, "https://open-external-link.invalid/?url=https%3A%2F%2Fexample.org%2F");
    assert_eq!(opened(&d), Some("https://example.org/".to_string()));
}

#[test]
fn external_link_request_without_url_is_denied() {
    let mut last = String::new();
    let d = decide(&mut last, "https://open-external-link.invalid/");
    assert!(is_deny(&d));
}

#[test]
fn shortener_link_opens_target() {
    let mut last = String::new();
    let d = decide(&mut last, "https://l.whatsapp.com/r?u=https%3A%2F%2Fnews.example%2F");
    assert_eq!(opened(&d), Some("https://news.example/".to_string()));
}

#[test]
fn shortener_without_target_is_denied() {
    let mut last = String::new();
    let d = decide(&mut last, "https://l.whatsapp.com/other");
    assert!(is_deny(&d));
}

#[test]
fn whatsapp_redirect_path_without_target_is_denied() {
    let mut last = String::new();
    let d = decide(&mut last, "https://web.whatsapp.com/redirect");
    assert!(is_deny(&d));
}

#[test]
fn whatsapp_net_media_is_allowed() {
    let mut last = String::new();
    let d = decide(&mut last, "https://mmg.whatsapp.net/v/t62/file.enc");
    assert!(is_allow(&d));
}

#[test]
fn lookalike_host_opens_in_browser() {
    let mut last = String::new();
    let d = decide(&mut last, "https://notwhatsapp.com/page");
    assert_eq!(opened(&d), Some("https://notwhatsapp.com/page".to_string()));
    let mut last = String::new();
    let d = decide(&mut last, "https://evilwhatsapp.net/");
    assert_eq!(opened(&d), Some("https://evilwhatsapp.net/".to_string()));
}

#[test]
fn bare_whatsapp_domain_is_allowed() {
    let mut last = String::new();
    assert!(is_allow(&decide(&mut last, "https://whatsapp.com/")));
}

#[test]
fn whatsapp_domains_recognised() {
    assert!(is_whatsapp_domain("whatsapp.com"));
    assert!(is_whatsapp_domain("whatsapp.net"));
    assert!(is_whatsapp_domain("web.whatsapp.com"));
    assert!(is_whatsapp_domain("mmg.whatsapp.net"));
    assert!(!is_whatsapp_domain("notwhatsapp.com"));
    assert!(!is_whatsapp_domain("whatsapp.com.evil.example"));
    assert!(!is_whatsapp_domain(""));
}

#[test]
fn hostless_url_opens_in_browser() {
    let mut last = String::new();
    let d = decide(&mut last, "mailto:someone@example.com");
    assert_eq!(opened(&d), Some("mailto:someone@example.com".to_string()));
}

fn parts(host: Option<&str>, path: &str) -> UrlParts {
    UrlParts { host: host.map(|h| h.to_string()), path: path.to_string(), query: None }
}

#[test]
fn redirect_endpoints_recognised() {
    assert!(is_redirect_endpoint_url(&parts(Some("l.whatsapp.com"), "/r")));
    assert!(is_redirect_endpoint_url(&parts(Some("web.whatsapp.com"), "/redirect")));
    assert!(!is_redirect_endpoint_url(&parts(Some("l.whatsapp.com"), "/redirect")));
    assert!(!is_redirect_endpoint_url(&parts(Some("web.whatsapp.com"), "/r")));
    assert!(!is_redirect_endpoint_url(&parts(None, "/r")));
}

#[test]
fn decision_uses_given_link_and_redirect() {
    let marker = "https://open-external-link.invalid/?url=x";
    let marker_host = host(Some("open-external-link.invalid"));
    let mut last = String::new();
    let d = decide_navigation(&mut last, marker, &marker_host, Some("https://a.example/".to_string()), None);
    assert_eq!(opened(&d), Some("https://a.example/".to_string()));

    let mut last = String::new();
    let d = decide_navigation(&mut last, marker, &marker_host, None, Some("ignored".to_string()));
    assert!(is_deny(&d));

    let mut last = String::new();
    let link = "https://l.whatsapp.com/r?u=t";
    let d = decide_navigation(
        &mut last,
        link,
        &host(Some("l.whatsapp.com")),
        Some("ignored".to_string()),
        Some("t".to_string()),
    );
    assert_eq!(opened(&d), Some("t".to_string()));
    assert_eq!(last, link);
}

#[test]
fn decision_on_duplicate_keeps_state() {
    let mut last = "https://web.whatsapp.com/".to_string();
    let d = decide_navigation(&mut last, "https://web.whatsapp.com/", &host(Some("web.whatsapp.com")), None, None);
    assert!(is_deny(&d));
    assert_eq!(last, "https://web.whatsapp.com/");
}

#[test]
fn decision_for_lookalike_host() {
    let mut last = String::new();
    let d = decide_navigation(&mut last, "https://notwhatsapp.com/page", &host(Some("notwhatsapp.com")), None, None);
    assert_eq!(opened(&d), Some("https://notwhatsapp.com/page".to_string()));
}
