use soundcloud_rs::error::DiscoveryError;
use soundcloud_rs::scrape::{discover_from_bodies, extract_script_urls, find_token};

#[test]
fn extracts_single_script_url() {
    let body = "<script src=\"https://x.test/a.js\"></script>";
    let urls = extract_script_urls(body);
    assert_eq!(urls, vec!["https://x.test/a.js".to_string()]);
}

#[test]
fn extracts_urls_in_order_with_duplicates() {
    let body = "https://a.test/1.js https://b.test/2.js https://a.test/1.js";
    let urls = extract_script_urls(body);
    assert_eq!(
        urls,
        vec![
            "https://a.test/1.js".to_string(),
            "https://b.test/2.js".to_string(),
            "https://a.test/1.js".to_string(),
        ]
    );
}

#[test]
fn extracts_http_scheme_url() {
    let body = "x http://plain.test/app.js y";
    let urls = extract_script_urls(body);
    assert_eq!(urls, vec!["http://plain.test/app.js".to_string()]);
}

#[test]
fn skips_non_script_urls() {
    let body = "see https://x.test/page.html and https://x.test/style.css";
    let urls = extract_script_urls(body);
    assert!(urls.is_empty());
}

#[test]
fn url_match_extends_to_last_js_end() {
    let body = "https://x.test/a.js.b.js rest";
    let urls = extract_script_urls(body);
    assert_eq!(urls, vec!["https://x.test/a.js.b.js".to_string()]);
}

#[test]
fn url_match_stops_before_quote() {
    let body = "src=\"https://x.test/a.js\" src=\"https://y.test/b.js\"";
    let urls = extract_script_urls(body);
    assert_eq!(
        urls,
        vec![
            "https://x.test/a.js".to_string(),
            "https://y.test/b.js".to_string(),
        ]
    );
}

#[test]
fn url_with_query_suffix_is_cut_at_js() {
    let body = "https://x.test/a.js?v=12 tail";
    let urls = extract_script_urls(body);
    assert_eq!(urls, vec!["https://x.test/a.js".to_string()]);
}

#[test]
fn finds_token_with_colon_and_quote() {
    let script = "client_id:\"abcdefghijklmnopqrstuvwxyz012345\"";
    assert_eq!(
        find_token(script),
        Some("abcdefghijklmnopqrstuvwxyz012345".to_string())
    );
}

#[test]
fn finds_token_with_equals_and_no_quote() {
    let script = "var x;client_id=ABCDEFGHIJKLMNOPQRSTUVWXYZ_01234;";
    assert_eq!(
        find_token(script),
        Some("ABCDEFGHIJKLMNOPQRSTUVWXYZ_01234".to_string())
    );
}

#[test]
fn token_shorter_than_32_is_no_match() {
    let script = "client_id:\"abcdefghijklmnopqrstuvwxyz01234\"";
    assert_eq!(find_token(script), None);
}

#[test]
fn token_longer_run_takes_first_32_word_chars() {
    let script = "client_id=abcdefghijklmnopqrstuvwxyz0123456789";
    assert_eq!(
        find_token(script),
        Some("abcdefghijklmnopqrstuvwxyz012345".to_string())
    );
}

#[test]
fn marker_without_separator_is_skipped() {
    let script = "client_id abcdefghijklmnopqrstuvwxyz012345";
    assert_eq!(find_token(script), None);
}

#[test]
fn first_of_two_tokens_wins() {
    let script = "client_id=AAAAAAAAAAAAAAAAAAAAAAAAAAAAAAAA client_id=BBBBBBBBBBBBBBBBBBBBBBBBBBBBBBBB";
    assert_eq!(
        find_token(script),
        Some("AAAAAAAAAAAAAAAAAAAAAAAAAAAAAAAA".to_string())
    );
}

#[test]
fn discovery_returns_token_of_fixture() {
    // The token embedded in the only script of the landing page is returned
    // exactly.
    let landing = "<script src=\"https://x.test/a.js\"></script>";
    let bodies = vec![Some(
        "client_id:\"abcdefghijklmnopqrstuvwxyz012345\"".to_string(),
    )];
    let r = discover_from_bodies(landing, &bodies);
    assert_eq!(r.unwrap(), "abcdefghijklmnopqrstuvwxyz012345".to_string());
}

#[test]
fn discovery_skips_failed_and_tokenless_scripts() {
    let landing = "https://a.test/1.js https://b.test/2.js https://c.test/3.js";
    let bodies = vec![
        None,
        Some("no token here".to_string()),
        Some("client_id=zyxwvutsrqponmlkjihgfedcba543210!".to_string()),
    ];
    let r = discover_from_bodies(landing, &bodies);
    assert_eq!(r.unwrap(), "zyxwvutsrqponmlkjihgfedcba543210".to_string());
}

#[test]
fn discovery_with_no_match_is_not_found() {
    let landing = "https://a.test/1.js https://b.test/2.js";
    let bodies = vec![Some("nothing".to_string()), None];
    let r = discover_from_bodies(landing, &bodies);
    assert!(matches!(r, Err(DiscoveryError::NotFound)));
}

#[test]
fn discovery_with_no_scripts_is_not_found() {
    let landing = "a page without script tags";
    let bodies: Vec<Option<String>> = Vec::new();
    let r = discover_from_bodies(landing, &bodies);
    assert!(matches!(r, Err(DiscoveryError::NotFound)));
}
