use auth_core::rng::Rng;
use auth_core::session::SessionStore;
use auth_core::session::SessionToken;
use std::collections::HashSet;

#[test]
fn generated_tokens_are_distinct() {
    let mut rng = Rng::from_seed(7);
    let mut seen: HashSet<String> = HashSet::new();
    for _ in 0..1000 {
        let t = SessionToken::generate_new(&mut rng);
        assert!(seen.insert(t.into_cookie_value()));
    }
    assert_eq!(seen.len(), 1000);
}

#[test]
fn create_then_resolve_round_trips_to_the_user_id() {
    let mut rng = Rng::from_seed(11);
    let mut store = SessionStore::new();
    let t = store.create(&mut rng, 42).expect("creation succeeds");
    assert_eq!(store.resolve(t), Some(42));
    assert_eq!(store.session_count(), 1);
}

#[test]
fn invalidate_then_resolve_returns_nothing() {
    let mut rng = Rng::from_seed(13);
    let mut store = SessionStore::new();
    let t = store.create(&mut rng, 42).expect("creation succeeds");
    store.invalidate(t);
    assert_eq!(store.resolve(t), None);
    assert_eq!(store.session_count(), 0);
    // Invalidation is idempotent.
    store.invalidate(t);
    assert_eq!(store.resolve(t), None);
}

#[test]
fn sessions_for_different_users_coexist() {
    let mut rng = Rng::from_seed(17);
    let mut store = SessionStore::new();
    let t1 = store.create(&mut rng, 1).expect("creation succeeds");
    let t2 = store.create(&mut rng, 2).expect("creation succeeds");
    assert_ne!(t1, t2);
    assert_eq!(store.resolve(t1), Some(1));
    assert_eq!(store.resolve(t2), Some(2));
    store.invalidate(t1);
    assert_eq!(store.resolve(t1), None);
    assert_eq!(store.resolve(t2), Some(2));
}

#[test]
fn cookie_value_round_trips() {
    let mut rng = Rng::from_seed(19);
    let t = SessionToken::generate_new(&mut rng);
    let cookie = t.into_cookie_value();
    assert_eq!(SessionToken::from_cookie_value(cookie.as_str()), Some(t));
}

#[test]
fn cookie_parsing_rejects_non_decimal_text() {
    assert_eq!(SessionToken::from_cookie_value(""), None);
    assert_eq!(SessionToken::from_cookie_value("12a"), None);
    assert_eq!(SessionToken::from_cookie_value("-5"), None);
    // One past the largest 128-bit value.
    assert_eq!(
        SessionToken::from_cookie_value("340282366920938463463374607431768211456"),
        None
    );
    // The largest 128-bit value itself parses.
    assert!(
        SessionToken::from_cookie_value("340282366920938463463374607431768211455").is_some()
    );
}

#[test]
fn database_value_is_the_sixteen_little_endian_bytes() {
    let t = SessionToken::from_cookie_value("258").expect("parses");
    let bytes = t.into_database_value();
    let mut expected = vec![0u8; 16];
    expected[0] = 2;
    expected[1] = 1;
    assert_eq!(bytes, expected);

    let zero = SessionToken::from_cookie_value("0").expect("parses");
    assert_eq!(zero.into_database_value(), vec![0u8; 16]);
}

#[test]
fn cookie_rendering_matches_decimal_text() {
    let t = SessionToken::from_cookie_value("12345").expect("parses");
    assert_eq!(t.into_cookie_value(), "12345");
    let zero = SessionToken::from_cookie_value("0").expect("parses");
    assert_eq!(zero.into_cookie_value(), "0");
    // Leading zeros parse but render canonically.
    let padded = SessionToken::from_cookie_value("007").expect("parses");
    assert_eq!(padded.into_cookie_value(), "7");
}

#[test]
fn seeded_generators_replay_their_stream() {
    let mut a = Rng::from_seed(23);
    let mut b = Rng::from_seed(23);
    assert_eq!(a.next_u128(), b.next_u128());
    assert_eq!(a.next_u128(), b.next_u128());
    let mut c = Rng::from_seed(24);
    assert_ne!(Rng::from_seed(23).next_u128(), c.next_u128());
}
