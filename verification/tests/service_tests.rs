use auth_core::errors::AuthError;
use auth_core::errors::ErrorResponse;
use auth_core::rng::Rng;
use auth_core::service::AuthService;
use auth_core::users::CreateUserSchema;
use auth_core::users::LoginUserSchema;
use auth_core::users::UserRole;

fn service() -> AuthService {
    AuthService::new(b"server-secret".to_vec())
}

fn signup_body(email: &str, password: &str) -> CreateUserSchema {
    CreateUserSchema {
        first_name: "Ada".to_string(),
        last_name: "Lovelace".to_string(),
        email: email.to_string(),
        password: password.to_string(),
    }
}

fn login_body(email: &str, password: &str) -> LoginUserSchema {
    LoginUserSchema { email: email.to_string(), password: password.to_string() }
}

#[test]
fn signup_then_login_succeeds() {
    let mut svc = service();
    let mut rng = Rng::from_seed(1);
    svc.signup(&mut rng, &signup_body("a@x.com", "secret1")).expect("signup succeeds");
    assert_eq!(svc.users.user_count(), 1);
    let t = svc.login(&mut rng, &login_body("a@x.com", "secret1")).expect("login succeeds");
    assert_eq!(svc.sessions.session_count(), 2);
    let uid = svc.sessions.resolve(t).expect("session resolves");
    let user = svc.users.find_by_id(uid).expect("record exists");
    assert_eq!(user.email, "a@x.com");
    assert!(matches!(user.role, UserRole::USER));
}

#[test]
fn login_matches_email_case_insensitively() {
    let mut svc = service();
    let mut rng = Rng::from_seed(2);
    svc.signup(&mut rng, &signup_body("Ada@X.com", "secret1")).expect("signup succeeds");
    assert!(svc.login(&mut rng, &login_body("ada@x.COM", "secret1")).is_ok());
}

#[test]
fn unknown_email_and_wrong_password_are_indistinguishable() {
    let mut svc = service();
    let mut rng = Rng::from_seed(3);
    svc.signup(&mut rng, &signup_body("a@x.com", "secret1")).expect("signup succeeds");

    let unknown = svc.login(&mut rng, &login_body("nobody@x.com", "secret1"));
    let wrong = svc.login(&mut rng, &login_body("a@x.com", "wrong"));
    assert_eq!(unknown, Err(AuthError::InvalidCredentials));
    assert_eq!(wrong, Err(AuthError::InvalidCredentials));
    assert_eq!(unknown, wrong);

    let e1 = unknown.unwrap_err();
    let e2 = wrong.unwrap_err();
    assert_eq!(e1.status_code(), e2.status_code());
    assert_eq!(e1.status_code(), 400);
    let r1 = ErrorResponse::of_error(&e1);
    let r2 = ErrorResponse::of_error(&e2);
    assert_eq!(r1.status, r2.status);
    assert_eq!(r1.message, r2.message);
    assert_eq!(r1.message, "Invalid email or password");
}

#[test]
fn duplicate_signup_conflicts_and_changes_nothing() {
    let mut svc = service();
    let mut rng = Rng::from_seed(4);
    svc.signup(&mut rng, &signup_body("a@x.com", "secret1")).expect("signup succeeds");
    let users_before = svc.users.user_count();
    let sessions_before = svc.sessions.session_count();

    let second = svc.signup(&mut rng, &signup_body("a@x.com", "other"));
    assert_eq!(second, Err(AuthError::Conflict));
    assert_eq!(svc.users.user_count(), users_before);
    assert_eq!(svc.sessions.session_count(), sessions_before);

    // Case-insensitive duplicate detection.
    let cased = svc.signup(&mut rng, &signup_body("A@X.COM", "other"));
    assert_eq!(cased, Err(AuthError::Conflict));
    assert_eq!(svc.users.user_count(), users_before);

    let conflict = cased.unwrap_err();
    assert_eq!(conflict.status_code(), 409);
}

#[test]
fn signup_stores_a_hash_not_the_plaintext() {
    let mut svc = service();
    let mut rng = Rng::from_seed(5);
    let t = svc.signup(&mut rng, &signup_body("a@x.com", "secret1")).expect("signup succeeds");
    let uid = svc.sessions.resolve(t).expect("session resolves");
    let user = svc.users.find_by_id(uid).expect("record exists");
    assert_ne!(user.password, "secret1");
    assert!(auth_core::password::verify_password("secret1", user.password.as_str()));
}

#[test]
fn signup_session_scenario_round_trips_and_logout_revokes() {
    let mut svc = service();
    let mut rng = Rng::from_seed(6);
    let token = svc.signup(&mut rng, &signup_body("a@x.com", "secret1")).expect(
        "signup succeeds",
    );
    let cookie = token.into_cookie_value();

    let identity = svc
        .validate_request(Some(cookie.as_str()), None, 0)
        .expect("a fresh session validates");
    assert_eq!(identity.user.email, "a@x.com");

    svc.end_session(token);
    let rejected = svc.validate_request(Some(cookie.as_str()), None, 0);
    assert_eq!(rejected.map(|id| id.user.email), Err(AuthError::Unauthenticated));
}

#[test]
fn login_signed_issues_a_token_the_guard_accepts_via_bearer_header() {
    let mut svc = service();
    let mut rng = Rng::from_seed(7);
    svc.signup(&mut rng, &signup_body("a@x.com", "secret1")).expect("signup succeeds");
    let t0: u64 = 1_700_000_000;
    let tok = svc.login_signed(&login_body("a@x.com", "secret1"), t0).expect(
        "signed login succeeds",
    );

    let header = format!("Bearer {}", tok);
    let identity = svc
        .validate_request(None, Some(header.as_str()), t0 + 3599)
        .expect("token validates inside the ttl");
    assert_eq!(identity.user.email, "a@x.com");

    let expired = svc.validate_request(None, Some(header.as_str()), t0 + 3601);
    assert_eq!(expired.map(|id| id.user.email), Err(AuthError::ExpiredToken));
}

#[test]
fn login_signed_rejects_bad_credentials() {
    let mut svc = service();
    let mut rng = Rng::from_seed(8);
    svc.signup(&mut rng, &signup_body("a@x.com", "secret1")).expect("signup succeeds");
    assert_eq!(
        svc.login_signed(&login_body("a@x.com", "wrong"), 0),
        Err(AuthError::InvalidCredentials)
    );
    assert_eq!(
        svc.login_signed(&login_body("b@x.com", "secret1"), 0),
        Err(AuthError::InvalidCredentials)
    );
}

#[test]
fn create_session_establishes_a_resolvable_session() {
    let mut svc = service();
    let mut rng = Rng::from_seed(9);
    let t = svc.create_session(&mut rng, 77).expect("creation succeeds");
    assert_eq!(svc.sessions.resolve(t), Some(77));
}

#[test]
fn error_variants_map_to_their_status_classes() {
    assert_eq!(AuthError::InvalidCredentials.status_code(), 400);
    assert_eq!(AuthError::Conflict.status_code(), 409);
    assert_eq!(AuthError::InvalidToken.status_code(), 401);
    assert_eq!(AuthError::ExpiredToken.status_code(), 401);
    assert_eq!(AuthError::Unauthenticated.status_code(), 401);
    assert_eq!(AuthError::StoreError.status_code(), 500);
    assert_eq!(AuthError::HashingError.status_code(), 500);
    let resp = ErrorResponse::of_error(&AuthError::StoreError);
    assert_eq!(resp.status, "error");
    assert_eq!(resp.message, "Internal server error");
}
