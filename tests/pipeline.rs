use authorized_client::credentials::Credentials;
use authorized_client::retry::{Decision, RetryState, MAX_RETRY_COUNT};
use authorized_client::settings::AuthorizedClientSettings;
use authorized_client::store::CredentialStore;
use authorized_client::{authorization_header, bearer_value, ClientError};

fn settings_with(token_url: &str) -> AuthorizedClientSettings {
    AuthorizedClientSettings {
        client_id: "abc".to_string(),
        client_secret: "s".to_string(),
        token_url: token_url.to_string(),
        scopes: vec!["read".to_string()],
    }
}

fn credentials(token: &str, ttl: u64, now: u64) -> Credentials {
    Credentials::from_token_response(token.to_string(), Some(ttl), now).unwrap()
}

#[test]
fn retry_ceiling_is_four_sends() {
    let mut state = RetryState::new();
    let mut sends = 0;
    let outcome = loop {
        sends += 1;
        match state.on_status(401) {
            Decision::Retry { .. } => continue,
            other => break other,
        }
    };
    assert_eq!(sends, 1 + MAX_RETRY_COUNT as usize);
    assert_eq!(sends, 4);
    assert_eq!(outcome, Decision::Fail(ClientError::AuthExhausted));
    assert_eq!(state.unauthorized_retries(), 3);
}

#[test]
fn backoff_schedule_is_zero_then_linear() {
    let mut state = RetryState::new();
    assert_eq!(state.on_status(401), Decision::Retry { wait_ms: 0 });
    assert_eq!(state.on_status(401), Decision::Retry { wait_ms: 1000 });
    assert_eq!(state.on_status(401), Decision::Retry { wait_ms: 1500 });
    assert_eq!(state.on_status(401), Decision::Fail(ClientError::AuthExhausted));
}

#[test]
fn server_error_fails_at_once() {
    let mut state = RetryState::new();
    assert_eq!(state.on_status(500), Decision::Fail(ClientError::UnsupportedStatus(500)));
    assert_eq!(state.unauthorized_retries(), 0);
}

#[test]
fn other_statuses_are_not_retried() {
    let mut state = RetryState::new();
    assert_eq!(state.on_status(401), Decision::Retry { wait_ms: 0 });
    assert_eq!(state.on_status(404), Decision::Fail(ClientError::UnsupportedStatus(404)));
    assert_eq!(state.on_status(204), Decision::Fail(ClientError::UnsupportedStatus(204)));
    assert_eq!(state.unauthorized_retries(), 1);
}

#[test]
fn ok_after_a_retry_delivers() {
    let mut state = RetryState::new();
    assert_eq!(state.on_status(401), Decision::Retry { wait_ms: 0 });
    assert_eq!(state.on_status(200), Decision::Deliver);
}

#[test]
fn token_response_gives_credentials() {
    let c = credentials("T1", 3600, 5);
    assert_eq!(c.access_token, "T1");
    assert_eq!(c.expires_at, 3_600_005);
    assert!(!c.is_expired(3_600_005));
    assert!(c.is_expired(3_600_006));
}

#[test]
fn missing_lifetime_is_an_error() {
    let r = Credentials::from_token_response("T1".to_string(), None, 0);
    assert_eq!(r.unwrap_err(), ClientError::MissingExpiry);
}

#[test]
fn lifetime_overflow_is_an_error() {
    let r = Credentials::from_token_response("T1".to_string(), Some(1), u64::MAX);
    assert_eq!(r.unwrap_err(), ClientError::ExpiryOverflow);
    let r = Credentials::from_token_response("T1".to_string(), Some(u64::MAX), 0);
    assert_eq!(r.unwrap_err(), ClientError::ExpiryOverflow);
    let largest = (u64::MAX - 7) / 1000;
    let c = credentials("T1", largest, 7);
    assert_eq!(c.expires_at, largest * 1000 + 7);
}

#[test]
fn round_trip_header_carries_token() {
    let settings = settings_with("https://auth/token");
    assert!(settings.token_endpoint().is_ok());
    let store = CredentialStore::new(credentials("T1", 3600, 0));
    assert!(!store.needs_refresh(1000));
    assert_eq!(bearer_value(&store.access_token()), "Bearer T1");
    let header = authorization_header(&store.access_token()).unwrap();
    assert_eq!(header.to_str().unwrap(), "Bearer T1");
    let mut state = RetryState::new();
    assert_eq!(state.on_status(200), Decision::Deliver);
}

#[test]
fn token_with_line_break_is_no_header() {
    assert_eq!(authorization_header("T1\nX").unwrap_err(), ClientError::InvalidHeader);
    assert_eq!(authorization_header("T1\u{7f}").unwrap_err(), ClientError::InvalidHeader);
    assert!(authorization_header("T1\tX").is_ok());
    assert!(authorization_header("").is_ok());
}

#[test]
fn malformed_token_url_is_a_config_error() {
    let settings = settings_with("not a url");
    assert_eq!(settings.token_endpoint().unwrap_err(), ClientError::ConfigError);
    assert!(settings.auth_endpoint().is_ok());
}

#[test]
fn expired_clock_triggers_refresh_with_new_token() {
    let mut store = CredentialStore::new(credentials("T1", 60, 0));
    let now = 60_001;
    assert!(store.needs_refresh(now));
    store.replace(credentials("T2", 60, now));
    assert!(!store.needs_refresh(now));
    assert_eq!(authorization_header(&store.access_token()).unwrap().to_str().unwrap(), "Bearer T2");
}

#[test]
fn refresh_moves_expiry_forward() {
    let mut store = CredentialStore::new(credentials("T1", 60, 0));
    let before = 70_000;
    let now = 70_000;
    store.replace(credentials("T2", 1, now));
    assert!(store.expires_at() > before);
}

#[test]
fn waiters_behind_one_refresh_do_not_fetch() {
    let mut store = CredentialStore::new(credentials("T1", 1, 0));
    let mut fetches = 0;
    // Eight callers saw the record expired; each takes exclusive access in turn.
    for (i, now) in (5_000u64..5_008).enumerate() {
        if store.needs_refresh(now) {
            fetches += 1;
            store.replace(credentials(&format!("T{}", i + 2), 3600, now));
        }
    }
    assert_eq!(fetches, 1);
    assert_eq!(store.access_token(), "T2");
}
