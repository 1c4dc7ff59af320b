//! End-to-end exercises of the login flow, session issuance and the auth
//! guard against the in-memory credential store, with real argon2 hashes.

use argon2::PasswordHasher;

use div176::auth::login;
use div176::error::{DbError, Error};
use div176::guard::{authorize, login_redirect_path, route_reply, GuardOutcome, Rejection,
    RejectionPolicy, RouteReply};
use div176::session::{generate_token, issue, TOKEN_LEN};
use div176::store::{Database, Users};
use div176::verify::{verify, VerifyError};

/// A stored hash for `password`, with the site's deliberately small cost
/// parameters so the suite stays fast.
fn hash_of(password: &str) -> String {
    let params = argon2::Params::new(1024, 1, 1, None).unwrap();
    let hasher = argon2::Argon2::new(argon2::Algorithm::Argon2id, argon2::Version::V0x13, params);
    hasher
        .hash_password_with_salt(password.as_bytes(), b"testsalt12ab")
        .unwrap()
        .to_string()
}

fn seeded_store() -> Users {
    let mut store = Users::new();
    store
        .add_user(7, String::from("alice"), hash_of("s3cret!"))
        .unwrap();
    store
}

#[test]
fn login_scenario_a() {
    let mut store = seeded_store();
    let ok = login(&mut store, "alice", "s3cret!");
    assert!(ok.is_ok());
    let bad = login(&mut store, "alice", "wrong");
    assert!(matches!(bad, Err(Error::Unauthorized)));
}

#[test]
fn login_token_shape() {
    let mut store = seeded_store();
    let token = login(&mut store, "alice", "s3cret!").unwrap();
    assert_eq!(token.len(), TOKEN_LEN);
    assert!(token.len() >= 32);
    assert!(token.chars().all(|c| c.is_ascii_alphanumeric()));
}

#[test]
fn login_uniform_unauthorized() {
    let mut store = seeded_store();
    let unknown_user = login(&mut store, "mallory", "anything");
    let wrong_password = login(&mut store, "alice", "nope");
    assert!(matches!(unknown_user, Err(Error::Unauthorized)));
    assert!(matches!(wrong_password, Err(Error::Unauthorized)));
    // Identical outward error: same kind, same outward status.
    let a = unknown_user.unwrap_err();
    let b = wrong_password.unwrap_err();
    assert_eq!(a.status_code(), b.status_code());
    assert_eq!(format!("{:?}", a), format!("{:?}", b));
}

#[test]
fn login_malformed_hash_is_internal() {
    let mut store = Users::new();
    store
        .add_user(9, String::from("bob"), String::from("not-a-valid-encoded-hash"))
        .unwrap();
    let r = login(&mut store, "bob", "whatever");
    assert!(matches!(r, Err(Error::Internal)));
}

#[test]
fn login_unreachable_store_is_database_error() {
    let mut store = seeded_store();
    store.set_available(false);
    let r = login(&mut store, "alice", "s3cret!");
    assert!(matches!(r, Err(Error::Database(DbError::Unreachable))));
}

#[test]
fn verify_component_outcomes() {
    let hash = hash_of("pw1");
    assert!(verify(b"pw1", &hash).is_ok());
    assert!(matches!(verify(b"pw2", &hash), Err(VerifyError::PasswordMismatch)));
    assert!(matches!(verify(b"pw1", "garbage"), Err(VerifyError::HashMalformed)));
}

#[test]
fn issued_token_resolves_to_owner() {
    let mut store = seeded_store();
    let token = issue(&mut store, 7).unwrap();
    assert_eq!(store.resolve_session(&token).unwrap(), Some(7));
    // Still the same owner on a later resolution.
    assert_eq!(store.resolve_session(&token).unwrap(), Some(7));
    // A token that was never issued resolves to nothing.
    assert_eq!(store.resolve_session("never-issued-token").unwrap(), None);
}

#[test]
fn generated_tokens_are_well_shaped() {
    let t1 = generate_token();
    let t2 = generate_token();
    assert_eq!(t1.len(), TOKEN_LEN);
    assert_eq!(t2.len(), TOKEN_LEN);
    assert!(t1.chars().all(|c| c.is_ascii_alphanumeric()));
    assert!(t2.chars().all(|c| c.is_ascii_alphanumeric()));
}

#[test]
fn guard_scenario_b_no_cookie() {
    let store = seeded_store();
    let verdict = authorize(&store, None);
    assert_eq!(verdict, Ok(GuardOutcome::Rejected(Rejection::NoToken)));
    assert_eq!(route_reply(verdict, RejectionPolicy::RedirectToLogin), RouteReply::RedirectToLogin);
    assert_eq!(route_reply(verdict, RejectionPolicy::UnauthorizedBody), RouteReply::Failure(401));
    assert_eq!(login_redirect_path(), "/login");
}

#[test]
fn guard_scenario_c_bogus_token() {
    let store = seeded_store();
    let verdict = authorize(&store, Some("bogus123"));
    assert_eq!(verdict, Ok(GuardOutcome::Rejected(Rejection::InvalidToken)));
    // Outwardly the same consequence as a missing cookie...
    assert_eq!(
        route_reply(verdict, RejectionPolicy::RedirectToLogin),
        route_reply(authorize(&store, None), RejectionPolicy::RedirectToLogin)
    );
    // ...but internally distinguishable for logging.
    assert_ne!(verdict, authorize(&store, None));
}

#[test]
fn guard_empty_cookie_is_no_token() {
    let store = seeded_store();
    assert_eq!(authorize(&store, Some("")), Ok(GuardOutcome::Rejected(Rejection::NoToken)));
}

#[test]
fn guard_accepts_issued_token() {
    let mut store = seeded_store();
    let token = login(&mut store, "alice", "s3cret!").unwrap();
    let verdict = authorize(&store, Some(&token));
    match verdict {
        Ok(GuardOutcome::Authenticated(ctx)) => assert_eq!(ctx.user_id, 7),
        other => panic!("expected an authenticated context, got {:?}", other),
    }
    match route_reply(verdict, RejectionPolicy::RedirectToLogin) {
        RouteReply::Proceed(user) => assert_eq!(user.0.user_id, 7),
        other => panic!("expected the request to proceed, got {:?}", other),
    }
}

#[test]
fn guard_is_idempotent_per_request() {
    let mut store = seeded_store();
    let token = login(&mut store, "alice", "s3cret!").unwrap();
    for cookie in [None, Some("bogus123"), Some(token.as_str())] {
        assert_eq!(authorize(&store, cookie), authorize(&store, cookie));
    }
}

#[test]
fn guard_scenario_d_unreachable_store() {
    let mut store = seeded_store();
    let token = login(&mut store, "alice", "s3cret!").unwrap();
    store.set_available(false);
    let verdict = authorize(&store, Some(&token));
    assert_eq!(verdict, Err(DbError::Unreachable));
    // A 500-equivalent, not a login redirect.
    assert_eq!(route_reply(verdict, RejectionPolicy::RedirectToLogin), RouteReply::Failure(500));
    assert_eq!(route_reply(verdict, RejectionPolicy::UnauthorizedBody), RouteReply::Failure(500));
}

#[test]
fn store_rejects_duplicates_and_reports_outages() {
    let mut store = Users::new();
    assert!(store.add_user(1, String::from("alice"), String::from("h1")).is_ok());
    assert!(matches!(
        store.add_user(2, String::from("alice"), String::from("h2")),
        Err(DbError::UniqueViolation)
    ));
    assert!(store.create_session(1, "tok").is_ok());
    assert!(matches!(store.create_session(1, "tok"), Err(DbError::UniqueViolation)));
    store.set_available(false);
    assert!(matches!(store.create_session(1, "tok2"), Err(DbError::Unreachable)));
    assert!(matches!(store.resolve_session("tok"), Err(DbError::Unreachable)));
}

#[test]
fn store_lookup_is_case_sensitive_exact() {
    let store = seeded_store();
    let found = store.get_userid_password_from_username("alice");
    assert!(found.is_some());
    assert_eq!(found.unwrap().0, 7);
    assert!(store.get_userid_password_from_username("Alice").is_none());
    assert!(store.get_userid_password_from_username("alice ").is_none());
}

#[test]
fn healthcheck_tracks_availability() {
    let mut store = Users::new();
    assert_eq!(store.healthcheck(), Ok(()));
    store.set_available(false);
    assert_eq!(store.healthcheck(), Err(()));
}

#[test]
fn multiple_sessions_per_user_coexist() {
    let mut store = seeded_store();
    let t1 = login(&mut store, "alice", "s3cret!").unwrap();
    let t2 = login(&mut store, "alice", "s3cret!").unwrap();
    assert_ne!(t1, t2);
    assert_eq!(store.resolve_session(&t1).unwrap(), Some(7));
    assert_eq!(store.resolve_session(&t2).unwrap(), Some(7));
}
