use soundcloud_rs::error::{ApiError, DiscoveryError};
use soundcloud_rs::request::RequestOutcome;
use soundcloud_rs::retry::{run_fetch, RetryConfig};

fn auth() -> RequestOutcome {
    RequestOutcome::AuthFailure(401, "unauthorized".to_string())
}

fn ok_refresh() -> Result<String, DiscoveryError> {
    Ok("abcdefghijklmnopqrstuvwxyz012345".to_string())
}

#[test]
fn exhausted_retries_make_n_plus_one_attempts() {
    // max_retries = 3 against an executor that always reports 401: exactly
    // 4 attempts and 3 refreshes, ending in the authentication error.
    let cfg = RetryConfig::new(3, true);
    let outcomes = vec![auth(), auth(), auth(), auth()];
    let refreshes = vec![ok_refresh(), ok_refresh(), ok_refresh()];
    let t = run_fetch(&cfg, &outcomes, &refreshes);
    assert_eq!(t.attempts, 4);
    assert_eq!(t.refreshes, 3);
    assert!(matches!(t.result, Err(ApiError::AuthFailure(401, _))));
}

#[test]
fn zero_retries_fail_at_once() {
    let cfg = RetryConfig::new(0, true);
    let outcomes = vec![auth()];
    let refreshes: Vec<Result<String, DiscoveryError>> = Vec::new();
    let t = run_fetch(&cfg, &outcomes, &refreshes);
    assert_eq!(t.attempts, 1);
    assert_eq!(t.refreshes, 0);
    assert!(matches!(t.result, Err(ApiError::AuthFailure(401, _))));
}

#[test]
fn disabled_retry_terminates_without_refresh() {
    // retry_on_401 = false: one 401 ends the call with zero refreshes.
    let cfg = RetryConfig::new(5, false);
    let outcomes = vec![auth(), RequestOutcome::Success("never reached".to_string())];
    let refreshes = vec![ok_refresh(), ok_refresh(), ok_refresh(), ok_refresh(), ok_refresh()];
    let t = run_fetch(&cfg, &outcomes, &refreshes);
    assert_eq!(t.attempts, 1);
    assert_eq!(t.refreshes, 0);
    assert!(matches!(t.result, Err(ApiError::AuthFailure(401, _))));
}

#[test]
fn one_failure_then_success_recovers() {
    // One 401, a successful refresh, then success: the decoded value comes
    // back after exactly one refresh.
    let cfg = RetryConfig::default();
    let outcomes = vec![auth(), RequestOutcome::Success("payload".to_string())];
    let refreshes = vec![ok_refresh()];
    let t = run_fetch(&cfg, &outcomes, &refreshes);
    assert_eq!(t.attempts, 2);
    assert_eq!(t.refreshes, 1);
    assert_eq!(t.result.unwrap(), "payload".to_string());
}

#[test]
fn other_http_failure_never_refreshes() {
    // A 500 is terminal at once, whatever the retry configuration.
    let cfg = RetryConfig::new(7, true);
    let outcomes = vec![
        RequestOutcome::OtherHttpFailure(500, "server error".to_string()),
        auth(),
        auth(),
        auth(),
        auth(),
        auth(),
        auth(),
        auth(),
    ];
    let refreshes = vec![
        ok_refresh(),
        ok_refresh(),
        ok_refresh(),
        ok_refresh(),
        ok_refresh(),
        ok_refresh(),
        ok_refresh(),
    ];
    let t = run_fetch(&cfg, &outcomes, &refreshes);
    assert_eq!(t.attempts, 1);
    assert_eq!(t.refreshes, 0);
    match t.result {
        Err(ApiError::OtherHttpFailure(status, body)) => {
            assert_eq!(status, 500);
            assert_eq!(body, "server error".to_string());
        }
        _ => panic!("expected an OtherHttpFailure error"),
    }
}

#[test]
fn transport_failure_is_terminal() {
    let cfg = RetryConfig::default();
    let outcomes = vec![
        RequestOutcome::TransportFailure("connection reset".to_string()),
        auth(),
    ];
    let refreshes = vec![ok_refresh()];
    let t = run_fetch(&cfg, &outcomes, &refreshes);
    assert_eq!(t.attempts, 1);
    assert_eq!(t.refreshes, 0);
    assert!(matches!(t.result, Err(ApiError::TransportFailure(_))));
}

#[test]
fn decode_failure_is_terminal() {
    let cfg = RetryConfig::default();
    let outcomes = vec![
        RequestOutcome::DecodeFailure("not the expected schema".to_string()),
        auth(),
    ];
    let refreshes = vec![ok_refresh()];
    let t = run_fetch(&cfg, &outcomes, &refreshes);
    assert_eq!(t.attempts, 1);
    assert_eq!(t.refreshes, 0);
    assert!(matches!(t.result, Err(ApiError::DecodeFailure(_))));
}

#[test]
fn failed_refresh_is_fatal_for_the_call() {
    let cfg = RetryConfig::default();
    let outcomes = vec![auth(), RequestOutcome::Success("never reached".to_string())];
    let refreshes = vec![Err(DiscoveryError::NotFound)];
    let t = run_fetch(&cfg, &outcomes, &refreshes);
    assert_eq!(t.attempts, 1);
    assert_eq!(t.refreshes, 1);
    assert!(matches!(
        t.result,
        Err(ApiError::Discovery(DiscoveryError::NotFound))
    ));
}

#[test]
fn success_on_first_attempt_makes_one_attempt() {
    let cfg = RetryConfig::new(4, true);
    let outcomes = vec![
        RequestOutcome::Success("body".to_string()),
        auth(),
        auth(),
        auth(),
        auth(),
    ];
    let refreshes = vec![ok_refresh(), ok_refresh(), ok_refresh(), ok_refresh()];
    let t = run_fetch(&cfg, &outcomes, &refreshes);
    assert_eq!(t.attempts, 1);
    assert_eq!(t.refreshes, 0);
    assert_eq!(t.result.unwrap(), "body".to_string());
}

#[test]
fn default_config_is_one_retry_on_401() {
    let cfg = RetryConfig::default();
    assert_eq!(cfg.max_retries, 1);
    assert!(cfg.retry_on_401);
}
