use auth_core::errors::AuthError;
use auth_core::guard::extract_credential;
use auth_core::guard::AuthState;
use auth_core::guard::TokenRef;
use auth_core::rng::Rng;
use auth_core::service::AuthService;
use auth_core::users::CreateUserSchema;

fn seeded_service() -> (AuthService, Rng) {
    let mut svc = AuthService::new(b"server-secret".to_vec());
    let mut rng = Rng::from_seed(31);
    let body = CreateUserSchema {
        first_name: "Ada".to_string(),
        last_name: "Lovelace".to_string(),
        email: "a@x.com".to_string(),
        password: "secret1".to_string(),
    };
    svc.signup(&mut rng, &body).expect("signup succeeds");
    (svc, rng)
}

#[test]
fn cookie_wins_over_header() {
    let r = extract_credential(Some("cookie-token"), Some("Bearer header-token"));
    assert_eq!(r, Some("cookie-token".to_string()));
}

#[test]
fn bearer_header_is_stripped() {
    let r = extract_credential(None, Some("Bearer abc.def.ghi"));
    assert_eq!(r, Some("abc.def.ghi".to_string()));
}

#[test]
fn non_bearer_header_yields_no_credential() {
    assert_eq!(extract_credential(None, Some("Basic abc")), None);
    assert_eq!(extract_credential(None, Some("Bearer")), None);
    assert_eq!(extract_credential(None, Some("")), None);
    assert_eq!(extract_credential(None, None), None);
}

#[test]
fn absent_credential_is_unauthenticated() {
    let (svc, _rng) = seeded_service();
    let r = svc.validate_request(None, None, 0);
    assert_eq!(r.map(|id| id.user.email), Err(AuthError::Unauthenticated));
}

#[test]
fn unknown_session_token_is_unauthenticated() {
    let (svc, _rng) = seeded_service();
    let r = svc.validate_request(Some("123456789"), None, 0);
    assert_eq!(r.map(|id| id.user.email), Err(AuthError::Unauthenticated));
}

#[test]
fn non_decimal_unsigned_text_is_an_invalid_token() {
    let (svc, _rng) = seeded_service();
    let r = svc.validate_request(Some("not-a-token"), None, 0);
    assert_eq!(r.map(|id| id.user.email), Err(AuthError::InvalidToken));
}

#[test]
fn live_session_resolves_to_its_record_with_the_session_credential() {
    let (mut svc, mut rng) = seeded_service();
    let token = svc
        .login(
            &mut rng,
            &auth_core::users::LoginUserSchema {
                email: "a@x.com".to_string(),
                password: "secret1".to_string(),
            },
        )
        .expect("login succeeds");
    let cookie = token.into_cookie_value();
    let identity = svc.validate_request(Some(cookie.as_str()), None, 5).expect("validates");
    assert_eq!(identity.user.email, "a@x.com");
    match identity.credential {
        TokenRef::Session(t) => assert_eq!(t, token),
        TokenRef::Signed(_) => panic!("a cookie session resolved as a signed token"),
    }
}

#[test]
fn auth_state_tracks_login_and_memoizes_the_record() {
    let (mut svc, mut rng) = seeded_service();
    let token = svc.create_session(&mut rng, first_user_id(&svc)).expect("creation succeeds");
    let header = token.into_cookie_value();

    let mut state = AuthState::from_header(Some(header.as_str()));
    assert!(state.logged_in());
    let fetched = state.get_user(&svc.users, &svc.sessions).map(|u| u.email.clone());
    assert_eq!(fetched, Some("a@x.com".to_string()));
    // The memoized record answers again even after the session ends.
    svc.end_session(token);
    let again = state.get_user(&svc.users, &svc.sessions).map(|u| u.email.clone());
    assert_eq!(again, Some("a@x.com".to_string()));
}

#[test]
fn auth_state_without_a_header_is_logged_out() {
    let (svc, _rng) = seeded_service();
    let mut state = AuthState::from_header(None);
    assert!(!state.logged_in());
    assert!(state.get_user(&svc.users, &svc.sessions).is_none());

    let mut unparsed = AuthState::from_header(Some("not-decimal"));
    assert!(!unparsed.logged_in());
    assert!(unparsed.get_user(&svc.users, &svc.sessions).is_none());
}

#[test]
fn auth_state_with_an_unknown_session_finds_nobody() {
    let (svc, _rng) = seeded_service();
    let mut state = AuthState::from_header(Some("42"));
    assert!(state.logged_in());
    assert!(state.get_user(&svc.users, &svc.sessions).is_none());
}

#[test]
fn cookie_headers_carry_the_transport_attributes() {
    let t = auth_core::session::SessionToken::from_cookie_value("12345").expect("parses");
    assert_eq!(
        auth_core::guard::session_cookie_header(t),
        "user_token=12345; Path=/; HttpOnly; SameSite=Lax; Max-Age=9999999"
    );
    assert_eq!(
        auth_core::guard::logout_cookie_header(),
        "user_token=_; Path=/; HttpOnly; SameSite=Lax; Max-Age=0"
    );
}

fn first_user_id(svc: &AuthService) -> u128 {
    let all = svc.users.all_responses();
    all[0].id
}
