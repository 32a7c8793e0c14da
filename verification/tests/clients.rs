use soundcloud_rs::client::{Client, ClientBuilder};
use soundcloud_rs::credential::CredentialStore;
use soundcloud_rs::error::{ApiError, DiscoveryError, Error};
use soundcloud_rs::query::{Paging, TracksQuery, UsersQuery};
use soundcloud_rs::request::RequestOutcome;
use soundcloud_rs::retry::RetryConfig;

const TOKEN_A: &str = "abcdefghijklmnopqrstuvwxyz012345";
const TOKEN_B: &str = "zyxwvutsrqponmlkjihgfedcba543210";

#[test]
fn store_holds_and_returns_token() {
    let store = CredentialStore::new(TOKEN_A.to_string());
    assert_eq!(store.current(), TOKEN_A.to_string());
}

#[test]
fn refresh_replaces_token_and_no_stale_read() {
    // A completed refresh is immediately visible: current() returns the new
    // token, never the prior one.
    let mut store = CredentialStore::new(TOKEN_A.to_string());
    let r = store.apply_refresh(Ok(TOKEN_B.to_string()));
    assert!(r.is_ok());
    assert_eq!(store.current(), TOKEN_B.to_string());
}

#[test]
fn failed_refresh_keeps_token_and_propagates() {
    let mut store = CredentialStore::new(TOKEN_A.to_string());
    let r = store.apply_refresh(Err(DiscoveryError::NotFound));
    assert!(matches!(r, Err(DiscoveryError::NotFound)));
    assert_eq!(store.current(), TOKEN_A.to_string());
}

#[test]
fn refresh_from_documents_installs_discovered_token() {
    let mut store = CredentialStore::new(TOKEN_A.to_string());
    let landing = "<script src=\"https://x.test/a.js\"></script>";
    let bodies = vec![Some(format!("client_id:\"{}\"", TOKEN_B))];
    let r = store.refresh_from_documents(landing, &bodies);
    assert!(r.is_ok());
    assert_eq!(store.current(), TOKEN_B.to_string());
}

#[test]
fn refresh_from_documents_without_token_keeps_old() {
    let mut store = CredentialStore::new(TOKEN_A.to_string());
    let landing = "no scripts here";
    let bodies: Vec<Option<String>> = Vec::new();
    let r = store.refresh_from_documents(landing, &bodies);
    assert!(matches!(r, Err(DiscoveryError::NotFound)));
    assert_eq!(store.current(), TOKEN_A.to_string());
}

#[test]
fn builder_defaults_and_overrides() {
    let b = ClientBuilder::new();
    assert_eq!(b.retry_config.max_retries, 1);
    assert!(b.retry_config.retry_on_401);
    let b = ClientBuilder::new().with_max_retries(4).with_retry_on_401(false);
    assert_eq!(b.retry_config.max_retries, 4);
    assert!(!b.retry_config.retry_on_401);
    let c = b.build_with_token(TOKEN_A.to_string());
    assert_eq!(c.client_id(), TOKEN_A.to_string());
    assert_eq!(c.retry_config.max_retries, 4);
}

#[test]
fn client_refresh_and_fetch_pipeline() {
    let mut client = Client::with_token(TOKEN_A.to_string(), RetryConfig::default());
    let landing = "https://x.test/a.js";
    let bodies = vec![Some(format!("client_id={}", TOKEN_B))];
    client
        .refresh_from_documents(landing, &bodies)
        .expect("refresh should succeed");
    assert_eq!(client.client_id(), TOKEN_B.to_string());

    let outcomes = vec![
        RequestOutcome::AuthFailure(401, "denied".to_string()),
        RequestOutcome::Success("payload".to_string()),
    ];
    let refreshes = vec![Ok(TOKEN_A.to_string())];
    let t = client.fetch_trace(&outcomes, &refreshes);
    assert_eq!(t.attempts, 2);
    assert_eq!(t.refreshes, 1);
    assert_eq!(t.result.unwrap(), "payload".to_string());
    // The refresh that the retry made replaced the client's token.
    assert_eq!(client.client_id(), TOKEN_A.to_string());
}

#[test]
fn client_fetch_surfaces_discovery_failure() {
    let mut client = Client::with_token(TOKEN_A.to_string(), RetryConfig::default());
    let outcomes = vec![
        RequestOutcome::AuthFailure(401, "denied".to_string()),
        RequestOutcome::AuthFailure(401, "denied".to_string()),
    ];
    let refreshes = vec![Err(DiscoveryError::Transport("landing fetch failed".to_string()))];
    let t = client.fetch_trace(&outcomes, &refreshes);
    assert_eq!(t.attempts, 1);
    assert_eq!(t.refreshes, 1);
    assert!(matches!(
        t.result,
        Err(ApiError::Discovery(DiscoveryError::Transport(_)))
    ));
    // The failed refresh left the token untouched.
    assert_eq!(client.client_id(), TOKEN_A.to_string());
}

#[test]
fn error_carries_message_and_source() {
    let e = Error::new("something failed".to_string());
    assert_eq!(e.message(), "something failed".to_string());
    let e = Error::from_error("HTTP request failed".to_string(), "timed out".to_string());
    assert_eq!(e.message(), "HTTP request failed".to_string());
    assert_eq!(e.source_message, Some("timed out".to_string()));
}

#[test]
fn tracks_query_serializes_set_fields_in_order() {
    let q = TracksQuery {
        q: Some("music".to_string()),
        limit: Some(10),
        linked_partitioning: Some(true),
        ..Default::default()
    };
    assert_eq!(
        q.to_query_pairs(),
        vec![
            ("q".to_string(), "music".to_string()),
            ("limit".to_string(), "10".to_string()),
            ("linked_partitioning".to_string(), "true".to_string()),
        ]
    );
}

#[test]
fn empty_query_serializes_to_no_pairs() {
    let q = TracksQuery::default();
    assert!(q.to_query_pairs().is_empty());
}

#[test]
fn paging_and_users_query_serialize() {
    let p = Paging {
        limit: Some(2),
        offset: Some(40),
        linked_partitioning: Some(false),
    };
    assert_eq!(
        p.to_query_pairs(),
        vec![
            ("limit".to_string(), "2".to_string()),
            ("offset".to_string(), "40".to_string()),
            ("linked_partitioning".to_string(), "false".to_string()),
        ]
    );
    let u = UsersQuery {
        q: Some("music".to_string()),
        limit: Some(-1),
        ..Default::default()
    };
    assert_eq!(
        u.to_query_pairs(),
        vec![
            ("q".to_string(), "music".to_string()),
            ("limit".to_string(), "-1".to_string()),
        ]
    );
}
