use soundcloud_rs::request::{build_request_url, build_url, classify_response, encode_query, RequestOutcome};

#[test]
fn classifies_success() {
    let o = classify_response(200, "{}".to_string(), true);
    match o {
        RequestOutcome::Success(body) => assert_eq!(body, "{}".to_string()),
        _ => panic!("expected a success"),
    }
}

#[test]
fn classifies_decode_failure() {
    let o = classify_response(204, "not json".to_string(), false);
    assert!(matches!(o, RequestOutcome::DecodeFailure(_)));
}

#[test]
fn classifies_auth_failure() {
    let o = classify_response(401, "denied".to_string(), false);
    match o {
        RequestOutcome::AuthFailure(status, body) => {
            assert_eq!(status, 401);
            assert_eq!(body, "denied".to_string());
        }
        _ => panic!("expected an authentication failure"),
    }
}

#[test]
fn classifies_other_http_failure() {
    let o = classify_response(500, "boom".to_string(), false);
    match o {
        RequestOutcome::OtherHttpFailure(status, body) => {
            assert_eq!(status, 500);
            assert_eq!(body, "boom".to_string());
        }
        _ => panic!("expected an HTTP failure"),
    }
    let o = classify_response(404, "missing".to_string(), true);
    assert!(matches!(o, RequestOutcome::OtherHttpFailure(404, _)));
}

#[test]
fn classifies_edge_statuses() {
    assert!(matches!(
        classify_response(299, "x".to_string(), true),
        RequestOutcome::Success(_)
    ));
    assert!(matches!(
        classify_response(300, "x".to_string(), true),
        RequestOutcome::OtherHttpFailure(300, _)
    ));
    assert!(matches!(
        classify_response(199, "x".to_string(), true),
        RequestOutcome::OtherHttpFailure(199, _)
    ));
}

#[test]
fn joins_base_and_path_with_one_slash() {
    let u = build_url("https://api-v2.soundcloud.com", Some("tracks/17"));
    assert_eq!(u, "https://api-v2.soundcloud.com/tracks/17".to_string());
}

#[test]
fn join_normalizes_extra_slashes() {
    let u = build_url("https://api-v2.soundcloud.com///", Some("///tracks/17"));
    assert_eq!(u, "https://api-v2.soundcloud.com/tracks/17".to_string());
}

#[test]
fn join_without_path_keeps_base() {
    let u = build_url("https://cdn.test/resolve?sig=1", None);
    assert_eq!(u, "https://cdn.test/resolve?sig=1".to_string());
}

#[test]
fn encodes_query_pairs_in_order() {
    let pairs = vec![
        ("q".to_string(), "music".to_string()),
        ("limit".to_string(), "10".to_string()),
    ];
    assert_eq!(encode_query(&pairs), "q=music&limit=10".to_string());
}

#[test]
fn encodes_empty_query_as_empty() {
    let pairs: Vec<(String, String)> = Vec::new();
    assert_eq!(encode_query(&pairs), "".to_string());
}

#[test]
fn encodes_reserved_characters_in_values() {
    let pairs = vec![("q".to_string(), "rock & roll".to_string())];
    assert_eq!(encode_query(&pairs), "q=rock+%26+roll".to_string());
    let pairs = vec![("q".to_string(), "a=b#c%d".to_string())];
    assert_eq!(encode_query(&pairs), "q=a%3Db%23c%25d".to_string());
}

#[test]
fn keeps_unreserved_characters_unchanged() {
    let pairs = vec![("created_at".to_string(), "A-z.0_9*".to_string())];
    assert_eq!(encode_query(&pairs), "created_at=A-z.0_9*".to_string());
}

#[test]
fn encodes_multibyte_characters_per_byte() {
    let pairs = vec![("q".to_string(), "caf\u{e9}".to_string())];
    assert_eq!(encode_query(&pairs), "q=caf%C3%A9".to_string());
}

#[test]
fn request_url_appends_token_after_query() {
    let pairs = vec![("q".to_string(), "music".to_string())];
    let u = build_request_url(
        "https://api-v2.soundcloud.com/",
        Some("search/tracks"),
        &pairs,
        "abcdefghijklmnopqrstuvwxyz012345",
    );
    assert_eq!(
        u,
        "https://api-v2.soundcloud.com/search/tracks?q=music&client_id=abcdefghijklmnopqrstuvwxyz012345"
            .to_string()
    );
}

#[test]
fn request_url_with_no_query_has_only_token() {
    let pairs: Vec<(String, String)> = Vec::new();
    let u = build_request_url(
        "https://api-v2.soundcloud.com",
        Some("/tracks/17"),
        &pairs,
        "tok",
    );
    assert_eq!(
        u,
        "https://api-v2.soundcloud.com/tracks/17?client_id=tok".to_string()
    );
}

#[test]
fn request_url_without_path_uses_base() {
    let pairs: Vec<(String, String)> = Vec::new();
    let u = build_request_url("https://cdn.test/resolve", None, &pairs, "tok");
    assert_eq!(u, "https://cdn.test/resolve?client_id=tok".to_string());
}
