use hermod::auth::{extract_from_headers, validate_credentials, AuthenticationError, Credentials};
use hermod::errors::{ApplicationError, BASIC_CHALLENGE};
use hermod::jwt::JwtClient;
use hermod::password::{hash_password, hash_password_with_salt, verify_password_hash, DUMMY_HASH};
use hermod::user::{NewForgottenPasswordRequest, NewUser, User};

fn creds(username: &str, password: &str) -> Credentials {
    Credentials { username: username.to_string(), password: password.to_string() }
}

fn login_header(username: &str, password: &str) -> String {
    format!("Basic {}", base64::encode(format!("{}:{}", username, password)))
}

fn registered(username: &str, password: &str) -> User {
    NewUser::new(username.to_string(), password.to_string(), None).into_user().unwrap()
}

#[test]
fn hash_uses_production_parameters_and_salt() {
    let h = hash_password_with_salt("s3cret", "c29tZXNhbHRzb21lc2FsdA").unwrap();
    assert!(h.starts_with("$argon2id$v=19$m=15000,t=2,p=1$c29tZXNhbHRzb21lc2FsdA$"), "{}", h);
    assert_ne!(h, "s3cret");
    assert_eq!(verify_password_hash(&h, "s3cret"), Some(true));
}

#[test]
fn invalid_salt_gives_no_hash() {
    assert_eq!(hash_password_with_salt("s3cret", "no"), None);
}

#[test]
fn fresh_salts_differ() {
    let a = hash_password("pw").unwrap();
    let b = hash_password("pw").unwrap();
    assert_ne!(a, b);
}

#[test]
fn wrong_password_and_garbage_hash_are_told_apart() {
    assert_eq!(verify_password_hash(DUMMY_HASH, "anything"), Some(false));
    assert_eq!(verify_password_hash("not a phc string", "anything"), None);
}

#[test]
fn registration_lowercases_the_username() {
    let n = NewUser::new("Alice".to_string(), "s3cret".to_string(), Some("a@example.com".to_string()));
    assert_eq!(n.username, "alice");
    let id = n.id;
    let u = n.into_user().unwrap();
    assert_eq!(u.id, id);
    assert_eq!(u.username, "alice");
    assert_eq!(u.email.as_deref(), Some("a@example.com"));
    assert!(u.password.starts_with("$argon2id$v=19$m=15000,t=2,p=1$"));
    assert_ne!(u.password, "s3cret");
}

#[test]
fn default_users_are_random() {
    let a = NewUser::default();
    let b = NewUser::default();
    assert_ne!(a.id, b.id);
    assert_ne!(a.username, b.username);
    assert_eq!(a.username.len(), 36);
    assert!(a.email.is_none());
}

#[test]
fn auth_request_with_valid_credentials_is_accepted() {
    let user = registered("russ", "russ");
    let id = user.id;
    let r = validate_credentials(creds("russ", "russ"), Ok(Some(user))).ok().unwrap();
    assert_eq!(r.id, id);
}

#[test]
fn auth_request_with_invalid_password_is_rejected() {
    let user = registered("russ", "russ");
    let r = validate_credentials(creds("russ", "cs495"), Ok(Some(user)));
    assert!(matches!(r, Err(AuthenticationError::InvalidCredentials)));
    let e = ApplicationError::from(r.err().unwrap());
    assert_eq!(e.status_code(), 401);
    assert_eq!(e.www_authenticate(), Some(r#"Basic realm="publish""#));
}

#[test]
fn stored_hash_with_invalid_costs_is_a_fault() {
    let bad = "$argon2id$v=19$m=1,t=2,p=1$gZiV/M1gPc22ElAH/Jh1Hw$CWOrkoo7oJBQ/iyh7uJ0LO2aLEfrHwTWllSAxT0zRno";
    assert_eq!(verify_password_hash(bad, "anything"), None);
    let user = User { id: 8, username: "mal".to_string(), password: bad.to_string(), email: None };
    let r = validate_credentials(creds("mal", "anything"), Ok(Some(user)));
    assert!(matches!(r, Err(AuthenticationError::UnexpectedError(_))));
}

#[test]
fn auth_request_with_nonexisting_username_is_rejected() {
    let r = validate_credentials(creds("john", "cs495"), Ok(None));
    let e = ApplicationError::from(r.err().unwrap());
    assert_eq!(e.status_code(), 401);
    assert_eq!(e.www_authenticate(), Some(r#"Basic realm="publish""#));
}

#[test]
fn auth_request_with_invalid_credentials_is_rejected() {
    let header = login_header("", "");
    let c = extract_from_headers(Some(header.as_str())).unwrap();
    let e = ApplicationError::from(validate_credentials(c, Ok(None)).err().unwrap());
    assert_eq!(e.status_code(), 401);
    assert_eq!(e.www_authenticate(), Some(BASIC_CHALLENGE));
}

#[test]
fn store_fault_is_unexpected() {
    match validate_credentials(creds("john", "x"), Err("connection reset".to_string())).err() {
        Some(AuthenticationError::UnexpectedError(m)) => {
            assert_eq!(m, "connection reset");
            let e = ApplicationError::from(AuthenticationError::UnexpectedError(m));
            assert_eq!(e.status_code(), 500);
            assert_eq!(e.www_authenticate(), None);
        }
        other => panic!("unexpected {:?}", other),
    }
}

#[test]
fn malformed_stored_hash_is_unexpected() {
    let user = User { id: 7, username: "eve".to_string(), password: "plain".to_string(), email: None };
    let r = validate_credentials(creds("eve", "plain"), Ok(Some(user)));
    assert!(matches!(r, Err(AuthenticationError::UnexpectedError(_))));
    let e = ApplicationError::from(r.err().unwrap());
    assert_eq!(e.status_code(), 500);
    assert_eq!(e.www_authenticate(), None);
}

#[test]
fn changed_password_replaces_the_old_one() {
    let mut user = registered("carol", "old");
    let id = user.id;
    assert!(user.change_password("new"));
    assert_eq!(user.id, id);
    assert_eq!(user.username, "carol");
    assert_eq!(verify_password_hash(&user.password, "new"), Some(true));
}

#[test]
fn register_login_and_call_protected_route() {
    let jwt = JwtClient::new("k".to_string());
    let alice = registered("alice", "s3cret");
    let alice_id = alice.id;
    let c = extract_from_headers(Some(login_header("alice", "s3cret").as_str())).unwrap();
    let user = validate_credentials(c, Ok(Some(alice.clone()))).ok().unwrap();
    let token = jwt.encode_token(user.id).unwrap();
    assert!(!token.is_empty());
    assert_eq!(jwt.account_id(Some(&token)).unwrap(), alice_id);
    let wrong = extract_from_headers(Some(login_header("alice", "wrong").as_str())).unwrap();
    let e = ApplicationError::from(validate_credentials(wrong, Ok(Some(alice))).err().unwrap());
    assert_eq!(e.status_code(), 401);
    assert_eq!(e.www_authenticate(), Some(r#"Basic realm="publish""#));
}

#[test]
fn protected_route_without_header_resolves_no_account() {
    let jwt = JwtClient::new("k".to_string());
    let e = ApplicationError::from(jwt.account_id(None).err().unwrap());
    assert_eq!(e.status_code(), 401);
}

#[test]
fn interleaved_logins_resolve_independently() {
    let a = registered("ann", "pw-a");
    let b = registered("ben", "pw-b");
    let attempts = vec![
        ("ann", "pw-a", Some(a.id)),
        ("ben", "pw-a", None),
        ("nobody", "pw-b", None),
        ("ben", "pw-b", Some(b.id)),
    ];
    for (name, pw, expected) in attempts {
        let stored = if name == "ann" { Some(a.clone()) } else if name == "ben" { Some(b.clone()) } else { None };
        let r = validate_credentials(creds(name, pw), Ok(stored));
        assert_eq!(r.ok().map(|u| u.id), expected);
    }
}

#[test]
fn stored_username_is_unicode_lower_case() {
    let n = NewUser { id: 9, username: "\u{c9}MILE".to_string(), password: "pw".to_string(), email: None };
    let u = n.into_user().unwrap();
    assert_eq!(u.username, "\u{e9}mile");
    assert_eq!(u.id, 9);
}

#[test]
fn reset_request_binds_the_account() {
    let a = NewForgottenPasswordRequest::new(42);
    let b = NewForgottenPasswordRequest::new(42);
    assert_eq!(a.account_id, 42);
    assert_ne!(a.id, b.id);
    assert!(a.created_at > 1_600_000_000);
}

#[test]
fn registration_record_with_given_salt_is_exact() {
    let n = NewUser { id: 5, username: "Dana".to_string(), password: "pw".to_string(), email: None };
    let u = n.into_user_with_salt("c29tZXNhbHRzb21lc2FsdA").unwrap();
    assert_eq!(u.id, 5);
    assert_eq!(u.username, "dana");
    assert_eq!(u.password, hash_password_with_salt("pw", "c29tZXNhbHRzb21lc2FsdA").unwrap());
    assert_eq!(verify_password_hash(&u.password, "pw"), Some(true));
    let short = NewUser { id: 5, username: "dana".to_string(), password: "pw".to_string(), email: None };
    assert!(short.into_user_with_salt("c2hvcnQ").is_none());
}

#[test]
fn password_change_with_given_salt_keeps_identity() {
    let mut user = User { id: 3, username: "erin".to_string(), password: "old".to_string(), email: Some("e@x".to_string()) };
    assert!(!user.change_password_with_salt("new", "bad salt!"));
    assert_eq!(user.password, "old");
    assert!(user.change_password_with_salt("new", "c29tZXNhbHRzb21lc2FsdA"));
    assert!(user.password.starts_with("$argon2id$v=19$m=15000,t=2,p=1$c29tZXNhbHRzb21lc2FsdA$"));
    assert_eq!(verify_password_hash(&user.password, "new"), Some(true));
    assert_eq!((user.id, user.username.as_str(), user.email.as_deref()), (3, "erin", Some("e@x")));
}
