use whatsapp_tauri::text::{chars_of, contains, ends_with, extension_of, str_equal};

#[test]
fn chars_in_order() {
    assert_eq!(chars_of("añb"), vec!['a', 'ñ', 'b']);
    assert!(chars_of("").is_empty());
}

#[test]
fn equality_by_characters() {
    assert!(str_equal("abc", "abc"));
    assert!(!str_equal("abc", "abd"));
    assert!(!str_equal("abc", "ab"));
    assert!(str_equal("", ""));
}

#[test]
fn suffix_check() {
    assert!(ends_with("web.whatsapp.com", "whatsapp.com"));
    assert!(ends_with("x", ""));
    assert!(!ends_with("whatsapp.co", "whatsapp.com"));
    assert!(!ends_with("com", "whatsapp.com"));
}

#[test]
fn infix_check() {
    assert!(contains("https://a/redirect?x", "/redirect"));
    assert!(contains("abc", "abc"));
    assert!(contains("abc", ""));
    assert!(!contains("ab", "abc"));
    assert!(!contains("https://a/redir", "/redirect"));
}

#[test]
fn extension_rules() {
    assert_eq!(extension_of("photo.PNG"), Some("PNG".to_string()));
    assert_eq!(extension_of("a.tar.gz"), Some("gz".to_string()));
    assert_eq!(extension_of("noext"), None);
    assert_eq!(extension_of(".bashrc"), None);
    assert_eq!(extension_of(".x.txt"), Some("txt".to_string()));
    assert_eq!(extension_of("end."), Some("".to_string()));
    assert_eq!(extension_of(""), None);
    assert_eq!(extension_of("ünï.çödé"), Some("çödé".to_string()));
}
