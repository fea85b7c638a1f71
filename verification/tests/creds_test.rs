use emerald_client::creds::{
    bearer_header_value, now_millis, resolve_issuer_reply, token_from_response, CallStep,
    Credentials, IssuedToken, IssuerReply, IssuerRequest, JwtState,
};
use emerald_client::errors::{CredentialsError, Error};
use emerald_client::store::CredentialStore;

fn issued(status: i32, access: &str, refresh: &str, expires_at: u64) -> IssuedToken {
    IssuedToken {
        status,
        access_token: access.to_string(),
        refresh_token: refresh.to_string(),
        expires_at,
    }
}

#[test]
fn test_authentication() {
    // a pending secret: the first call asks for exactly one authenticate
    let store = CredentialStore::new(Credentials::token("secret_token"));
    let now: i64 = 1_700_000_000_000;

    let step = store.read().plan_call(now);
    let request = match step {
        CallStep::NeedIssuer { request } => request,
        _ => panic!("the first call must consult the issuer"),
    };
    match &request {
        IssuerRequest::Authenticate { secret } => assert_eq!(secret, "secret_token"),
        IssuerRequest::Refresh { .. } => panic!("no token was issued yet, nothing to refresh"),
    }

    // the issuer answers with a fresh pair, far in the future
    let reply = IssuerReply::Response(issued(0, "jwt_001", "refresh_001", 1_750_000_000_000));
    let jwt = store.complete_auth(&reply, now).expect("authentication should succeed");
    assert_eq!(jwt, "jwt_001");
    assert_eq!(bearer_header_value(&jwt), "Bearer jwt_001");

    // the store ends authenticated with the issuer's values
    match store.read() {
        Credentials::Token(JwtState::Authenticated { jwt, refresh, expires_at }) => {
            assert_eq!(jwt, "jwt_001");
            assert_eq!(refresh, "refresh_001");
            assert_eq!(expires_at, 1_750_000_000_000);
        },
        _ => panic!("the store must hold the issued token"),
    }

    // a second call needs zero issuer round trips and carries the same header
    match store.read().plan_call(now) {
        CallStep::ForwardWith { jwt } => assert_eq!(bearer_header_value(&jwt), "Bearer jwt_001"),
        _ => panic!("a live token forwards without the issuer"),
    }
}

#[test]
fn test_token_refresh() {
    // an issued token that expires one second from now
    let now: i64 = 1_700_000_000_000;
    let store = CredentialStore::new(Credentials::Token(JwtState::Authenticated {
        jwt: "jwt_001".to_string(),
        refresh: "refresh_001".to_string(),
        expires_at: now + 1000,
    }));

    // while the token lives, the call forwards it unchanged
    match store.read().plan_call(now) {
        CallStep::ForwardWith { jwt } => assert_eq!(jwt, "jwt_001"),
        _ => panic!("a live token forwards without the issuer"),
    }

    // past the expiry, the next call asks for exactly one refresh with the
    // current refresh token
    let later = now + 1001;
    let request = match store.read().plan_call(later) {
        CallStep::NeedIssuer { request } => request,
        _ => panic!("an expired token must be refreshed"),
    };
    match &request {
        IssuerRequest::Refresh { refresh_token } => assert_eq!(refresh_token, "refresh_001"),
        IssuerRequest::Authenticate { .. } => panic!("a token was issued, nothing to authenticate"),
    }

    // the issuer answers with the next pair; the store updates and the
    // header changes with it
    let reply = IssuerReply::Response(issued(0, "jwt_002", "refresh_002", (later + 3_600_000) as u64));
    let jwt = store.complete_auth(&reply, later).expect("refresh should succeed");
    assert_eq!(bearer_header_value(&jwt), "Bearer jwt_002");
    match store.read() {
        Credentials::Token(JwtState::Authenticated { jwt, refresh, expires_at }) => {
            assert_eq!(jwt, "jwt_002");
            assert_eq!(refresh, "refresh_002");
            assert_eq!(expires_at, later + 3_600_000);
        },
        _ => panic!("the store must hold the refreshed token"),
    }
}

#[test]
fn live_token_calls_never_mutate_the_store() {
    let now: i64 = 1_700_000_000_000;
    let expires_at = now + 600_000;
    let store = CredentialStore::new(Credentials::Token(JwtState::Authenticated {
        jwt: "jwt_001".to_string(),
        refresh: "refresh_001".to_string(),
        expires_at,
    }));

    // repeated calls while live: zero issuer round trips, zero writes
    let mut t = now;
    while t < now + 5 {
        match store.read().plan_call(t) {
            CallStep::ForwardWith { jwt } => assert_eq!(jwt, "jwt_001"),
            _ => panic!("a live token forwards without the issuer"),
        }
        match store.read() {
            Credentials::Token(JwtState::Authenticated { jwt, refresh, expires_at: e }) => {
                assert_eq!(jwt, "jwt_001");
                assert_eq!(refresh, "refresh_001");
                assert_eq!(e, expires_at);
            },
            _ => panic!("the credentials must not change"),
        }
        t += 1;
    }
}

#[test]
fn failed_authentication_leaves_store_pending() {
    let store = CredentialStore::new(Credentials::token("secret_token"));
    let now: i64 = 1_700_000_000_000;

    let reply = IssuerReply::Response(issued(3, "", "", 0));
    let result = store.complete_auth(&reply, now);
    assert_eq!(
        result,
        Err(Error::Credentials(CredentialsError::AuthenticationFailure { status: 3 }))
    );

    // still the initial state, with the same secret
    match store.read() {
        Credentials::Token(JwtState::Initial { secret }) => assert_eq!(secret, "secret_token"),
        _ => panic!("a failed authentication must not touch the store"),
    }
}

#[test]
fn malformed_and_failed_replies_surface_distinct_errors() {
    let now: i64 = 1_700_000_000_000;

    let malformed = resolve_issuer_reply(&IssuerReply::Malformed, now);
    assert_eq!(malformed.unwrap_err(), Error::Credentials(CredentialsError::ProtocolFailure));

    let failed = resolve_issuer_reply(&IssuerReply::Failed("connection reset".to_string()), now);
    assert_eq!(failed.unwrap_err(), Error::Transport("connection reset".to_string()));
}

#[test]
fn unparseable_expiry_gets_the_floor() {
    let now: i64 = 1_700_000_000_000;

    // far beyond any representable date: the floor of one minute applies
    let state = token_from_response(&issued(0, "jwt_001", "refresh_001", 9_000_000_000_000_000_000), now);
    match state {
        JwtState::Authenticated { expires_at, .. } => assert_eq!(expires_at, now + 60_000),
        _ => panic!("a successful response must yield a token"),
    }

    // a representable expiry is stored exactly as it came
    let state = token_from_response(&issued(0, "jwt_001", "refresh_001", 1_750_000_000_000), now);
    match state {
        JwtState::Authenticated { expires_at, .. } => assert_eq!(expires_at, 1_750_000_000_000),
        _ => panic!("a successful response must yield a token"),
    }

    // an unsigned wire value past the signed range wraps to an instant
    // before the epoch: representable, expired, not floored
    let state = token_from_response(&issued(0, "jwt_001", "refresh_001", u64::MAX), now);
    match state {
        JwtState::Authenticated { expires_at, .. } => assert_eq!(expires_at, -1),
        _ => panic!("a successful response must yield a token"),
    }
}

#[test]
fn constructors_seed_the_expected_states() {
    match Credentials::unauthenticated() {
        Credentials::Unauthenticated => {},
        _ => panic!("no credential expected"),
    }
    match Credentials::default() {
        Credentials::Unauthenticated => {},
        _ => panic!("the default is unauthenticated"),
    }
    match Credentials::token("secret_token") {
        Credentials::Token(JwtState::Initial { secret }) => assert_eq!(secret, "secret_token"),
        _ => panic!("a secret seeds the initial state"),
    }
    match JwtState::new("secret_token".to_string()) {
        JwtState::Initial { secret } => assert_eq!(secret, "secret_token"),
        _ => panic!("a secret seeds the initial state"),
    }

    // a predefined token seeds the active state and never refreshes
    let preset = Credentials::jwt("jwt_001");
    match &preset {
        Credentials::Token(JwtState::Authenticated { jwt, refresh, expires_at }) => {
            assert_eq!(jwt, "jwt_001");
            assert_eq!(refresh, "");
            assert_eq!(*expires_at, i64::MAX);
        },
        _ => panic!("a predefined token seeds the active state"),
    }
    match preset.plan_call(i64::MAX - 1) {
        CallStep::ForwardWith { jwt } => assert_eq!(jwt, "jwt_001"),
        _ => panic!("a predefined token always forwards"),
    }

    // without a credential, calls pass through unmodified
    match Credentials::unauthenticated().plan_call(0) {
        CallStep::ForwardBare => {},
        _ => panic!("no header and no issuer without a credential"),
    }
}

#[test]
fn the_clock_reads_a_modern_instant() {
    // the wall clock is read through the real time source
    let t = now_millis();
    assert!(t > 1_500_000_000_000);
    assert!(t + 60_000 < i64::MAX);
}
