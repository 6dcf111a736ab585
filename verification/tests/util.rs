use imangry::error::AngryError;
use imangry::util::{
    conn_scheme_host_port, dictionary_letter, ensure_unused, entry_url, lowered_is_browser,
    prefixed_key, rand_str, ua_is_browser, DICTIONARY, DICTIONARY_LEN,
};

#[test]
fn dictionary_has_62_distinct_alphanumerics() {
    assert_eq!(DICTIONARY.len(), DICTIONARY_LEN);
    assert_eq!(DICTIONARY.chars().count(), 62);
    assert!(DICTIONARY.chars().all(|c| c.is_ascii_alphanumeric()));
    let mut seen = std::collections::HashSet::new();
    assert!(DICTIONARY.chars().all(|c| seen.insert(c)));
}

#[test]
fn dictionary_letter_picks_by_index() {
    assert_eq!(dictionary_letter(0), Some("a"));
    assert_eq!(dictionary_letter(25), Some("z"));
    assert_eq!(dictionary_letter(26), Some("A"));
    assert_eq!(dictionary_letter(51), Some("Z"));
    assert_eq!(dictionary_letter(52), Some("1"));
    assert_eq!(dictionary_letter(61), Some("0"));
    assert_eq!(dictionary_letter(62), None);
    assert_eq!(dictionary_letter(usize::MAX), None);
}

#[test]
fn rand_str_has_the_length_asked_for() {
    for len in [0usize, 1, 6, 64, 1000] {
        assert_eq!(rand_str(len).chars().count(), len);
    }
}

#[test]
fn rand_str_draws_from_the_dictionary() {
    let s = rand_str(2000);
    assert!(s.chars().all(|c| DICTIONARY.contains(c)));
    // 2000 draws from 62 letters that were all the same letter would mean that
    // nothing was drawn.
    let first = s.chars().next().unwrap();
    assert!(s.chars().any(|c| c != first));
}

#[test]
fn rand_str_differs_between_calls() {
    assert_ne!(rand_str(32), rand_str(32));
}

#[test]
fn conn_scheme_host_port_joins_scheme_and_host() {
    assert_eq!(
        conn_scheme_host_port("http", "127.0.0.1:60324"),
        "http://127.0.0.1:60324"
    );
    assert_eq!(conn_scheme_host_port("https", "example.org"), "https://example.org");
    assert_eq!(conn_scheme_host_port("", ""), "://");
}

#[test]
fn ua_is_browser_knows_the_five_browsers() {
    assert!(ua_is_browser(
        "Mozilla/5.0 (X11; Linux x86_64) AppleWebKit/537.36 (KHTML, like Gecko) Chrome/68.0 Safari/537.36"
    ));
    assert!(ua_is_browser("Mozilla/4.0 (compatible; MSIE 8.0; Windows NT 6.1)"));
    assert!(ua_is_browser("Mozilla/5.0 (Windows NT 6.1; Trident/7.0; rv:11.0) like Gecko"));
    assert!(ua_is_browser("Mozilla/5.0 (X11; Linux x86_64; rv:61.0) Gecko/20100101 Firefox/61.0"));
    assert!(ua_is_browser("Mozilla/5.0 (Macintosh) AppleWebKit/605.1.15 Version/11.1 Safari/605.1.15"));
}

#[test]
fn ua_is_browser_ignores_case() {
    assert!(ua_is_browser("CHROME"));
    assert!(ua_is_browser("FireFox"));
    assert!(ua_is_browser("xxSaFaRixx"));
}

#[test]
fn ua_is_browser_refuses_everything_else() {
    assert!(!ua_is_browser(""));
    assert!(!ua_is_browser("curl/7.61.0"));
    assert!(!ua_is_browser("Wget/1.19.5 (linux-gnu)"));
    assert!(!ua_is_browser("python-requests/2.19.1"));
    assert!(!ua_is_browser("chrom"));
    assert!(!ua_is_browser("fire fox"));
}

#[test]
fn lowered_is_browser_is_case_sensitive() {
    assert!(lowered_is_browser("mozilla/5.0 firefox/61.0"));
    assert!(lowered_is_browser("trident"));
    assert!(!lowered_is_browser("Mozilla/5.0 Firefox/61.0"));
    assert!(!lowered_is_browser("curl/7.61.0"));
    assert!(!lowered_is_browser(""));
}

#[test]
fn prefixed_key_is_prefix_then_id() {
    assert_eq!(prefixed_key("paste_", "aB3dE9"), b"paste_aB3dE9".to_vec());
    assert_eq!(prefixed_key("url_", ""), b"url_".to_vec());
    assert_eq!(prefixed_key("", "\u{e9}"), vec![0xc3, 0xa9]);
}

#[test]
fn entry_url_is_base_then_path_then_id() {
    assert_eq!(
        entry_url("http://localhost:60324", "/t/", "abc123"),
        "http://localhost:60324/t/abc123"
    );
}

#[test]
fn ensure_unused_accepts_only_a_free_identifier() {
    assert!(matches!(ensure_unused::<()>(""), Ok(())));
    assert!(matches!(
        ensure_unused::<()>("something"),
        Err(AngryError::Other(m)) if m == "WTF"
    ));
    assert!(matches!(
        ensure_unused::<u8>(" "),
        Err(AngryError::Other(m)) if m == "WTF"
    ));
}
