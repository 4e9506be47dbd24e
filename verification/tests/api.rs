use pihole_exporter::api::{
    auth_status_step, check_body_size, check_fetch_status, classify_transport_error,
    retry_after_refusal, ApiFailure, AuthAttempts, AuthStep, FetchRetry, FetchStep, SessionStore,
    TransportFailure, MAX_RESPONSE_SIZE,
};

#[test]
fn transport_errors_are_classified_timeout_first() {
    assert_eq!(classify_transport_error(true, true), TransportFailure::Timeout);
    assert_eq!(classify_transport_error(false, true), TransportFailure::Connection);
    assert_eq!(classify_transport_error(false, false), TransportFailure::Other);
}

#[test]
fn auth_rate_limit_is_retried_twice() {
    assert_eq!(auth_status_step(0, 429), AuthStep::RetryAfter { delay_millis: 500 });
    assert_eq!(auth_status_step(1, 429), AuthStep::RetryAfter { delay_millis: 1000 });
    assert_eq!(auth_status_step(2, 429), AuthStep::Fail(429));
}

#[test]
fn auth_other_statuses() {
    assert_eq!(auth_status_step(0, 401), AuthStep::Fail(401));
    assert_eq!(auth_status_step(0, 500), AuthStep::Fail(500));
    assert_eq!(auth_status_step(0, 199), AuthStep::Fail(199));
    assert_eq!(auth_status_step(0, 200), AuthStep::ReadBody);
    assert_eq!(auth_status_step(2, 299), AuthStep::ReadBody);
}

#[test]
fn body_size_limit() {
    assert_eq!(check_body_size(0), Ok(()));
    assert_eq!(check_body_size(MAX_RESPONSE_SIZE), Ok(()));
    assert_eq!(check_body_size(MAX_RESPONSE_SIZE + 1), Err(413));
}

#[test]
fn fetch_status_and_retry() {
    assert_eq!(check_fetch_status(200), Ok(()));
    assert_eq!(check_fetch_status(204), Ok(()));
    assert_eq!(check_fetch_status(404), Err(404));
    assert!(retry_after_refusal(401, true));
    assert!(!retry_after_refusal(401, false));
    assert!(!retry_after_refusal(403, true));
}

#[test]
fn session_valid_is_false_without_auth() {
    let store = SessionStore::new();
    assert!(!store.session_valid(0));
}

#[test]
fn granted_session_holds_until_its_validity_ends() {
    let mut store = SessionStore::new();
    assert!(store.needs_authentication(1_000));
    assert!(store.record_authentication(true, "abc".to_string(), 300, 1_000));
    assert!(store.session_valid(1_000));
    assert!(store.session_valid(300_999));
    assert!(!store.session_valid(301_000));
    assert!(!store.needs_authentication(2_000));
    assert_eq!(store.session_id(), "abc");
}

#[test]
fn refused_authentication_keeps_previous_session() {
    let mut store = SessionStore::new();
    assert!(store.record_authentication(true, "first".to_string(), 10, 0));
    assert!(!store.record_authentication(false, "second".to_string(), 1_000, 0));
    assert_eq!(store.session_id(), "first");
    assert!(!store.session_valid(10_000));
}

#[test]
fn cleared_session_sends_empty_id() {
    let mut store = SessionStore::new();
    assert_eq!(store.session_id(), "");
    assert!(store.record_authentication(true, "sid".to_string(), 1_800, 5));
    store.clear_session();
    assert!(!store.session_valid(5));
    assert_eq!(store.session_id(), "");
}

#[test]
fn api_failure_messages() {
    let url = "http://127.0.0.1:1/api/auth".to_string();
    assert_eq!(
        ApiFailure::Connection { url: url.clone(), message: "refused".to_string() }.message(),
        "connection to Pi-hole failed at http://127.0.0.1:1/api/auth: refused"
    );
    assert_eq!(
        ApiFailure::Timeout { url: url.clone() }.message(),
        "request to Pi-hole timed out at http://127.0.0.1:1/api/auth"
    );
    assert_eq!(
        ApiFailure::AuthRequest { url: url.clone(), cause: "x".to_string() }.message(),
        "authentication request failed for http://127.0.0.1:1/api/auth: x"
    );
    assert_eq!(ApiFailure::AuthStatus(429).message(), "authentication failed, status code: 429");
    assert_eq!(ApiFailure::AuthUnsuccessful.message(), "authentication unsuccessful");
    assert_eq!(
        ApiFailure::Fetch { url, cause: "y".to_string() }.message(),
        "failed to fetch data from http://127.0.0.1:1/api/auth: y"
    );
    assert_eq!(ApiFailure::BadStatus(0).message(), "non-200 status code: 0");
    assert_eq!(ApiFailure::BadStatus(65535).message(), "non-200 status code: 65535");
    assert_eq!(ApiFailure::Parse("eof".to_string()).message(), "failed to parse JSON response: eof");
}

#[test]
fn authentication_attempts_stop_after_the_third_rate_limit() {
    let mut attempts = AuthAttempts::new();
    assert_eq!(attempts.attempt(), 0);
    assert_eq!(attempts.on_status(429), AuthStep::RetryAfter { delay_millis: 500 });
    assert_eq!(attempts.attempt(), 1);
    assert_eq!(attempts.on_status(429), AuthStep::RetryAfter { delay_millis: 1000 });
    assert_eq!(attempts.attempt(), 2);
    assert_eq!(attempts.on_status(429), AuthStep::Fail(429));
    assert_eq!(attempts.attempt(), 2);
}

#[test]
fn authentication_attempts_read_a_success_or_fail_at_once() {
    let mut attempts = AuthAttempts::new();
    assert_eq!(attempts.on_status(429), AuthStep::RetryAfter { delay_millis: 500 });
    assert_eq!(attempts.on_status(200), AuthStep::ReadBody);
    assert_eq!(attempts.attempt(), 1);
    let mut other = AuthAttempts::new();
    assert_eq!(other.on_status(403), AuthStep::Fail(403));
    assert_eq!(other.attempt(), 0);
}

#[test]
fn fetch_reauthenticates_once_after_401() {
    let mut retry = FetchRetry::new(true);
    assert_eq!(retry.after_refusal(500), FetchStep::Fail);
    assert_eq!(retry.after_refusal(401), FetchStep::Reauthenticate);
    assert_eq!(retry.after_refusal(401), FetchStep::Fail);
    let mut never = FetchRetry::new(false);
    assert_eq!(never.after_refusal(401), FetchStep::Fail);
}
