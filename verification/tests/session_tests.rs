use leaderboard_resolver::session::SearchSession;
use leaderboard_resolver::Error;

#[test]
fn handshake_stores_the_sessionid_cookie() {
    let mut s = SearchSession::new();
    assert_eq!(s.session_token, None);

    let cookies = vec![
        ("browserid".to_string(), "123".to_string()),
        ("sessionid".to_string(), "tok-abc".to_string()),
        ("sessionid".to_string(), "tok-later".to_string()),
    ];
    assert!(s.apply_handshake(&cookies).is_ok());
    // The first cookie of that name wins.
    assert_eq!(s.session_token, Some("tok-abc".to_string()));
}

#[test]
fn handshake_without_the_cookie_fails_and_keeps_the_token() {
    let mut s = SearchSession::new();
    let cookies = vec![("browserid".to_string(), "123".to_string())];
    assert_eq!(s.apply_handshake(&cookies), Err(Error::SessionIdNotFound));
    assert_eq!(s.session_token, None);
}

#[test]
fn repeated_handshake_replaces_the_token() {
    let mut s = SearchSession::new();
    let first = vec![("sessionid".to_string(), "one".to_string())];
    let second = vec![("sessionid".to_string(), "two".to_string())];
    s.apply_handshake(&first).unwrap();
    s.apply_handshake(&second).unwrap();
    assert_eq!(s.session_token, Some("two".to_string()));
}

#[test]
fn search_before_handshake_fails() {
    let s = SearchSession::new();
    assert_eq!(s.search_params("Orbnet", 0), Err(Error::SessionIdNotFound));
}

#[test]
fn search_params_carry_the_exact_wire_query() {
    let mut s = SearchSession::new();
    let cookies = vec![("sessionid".to_string(), "tok".to_string())];
    s.apply_handshake(&cookies).unwrap();

    // The wire page number is 1-based while the caller's count is 0-based.
    let ps = s.search_params("Orbnet", 0).unwrap();
    assert_eq!(
        ps,
        vec![
            ("text".to_string(), "Orbnet".to_string()),
            ("filter".to_string(), "users".to_string()),
            ("page".to_string(), "1".to_string()),
            ("sessionid".to_string(), "tok".to_string()),
        ]
    );

    let ps = s.search_params("kiel.monjardin", 41).unwrap();
    assert_eq!(ps[2], ("page".to_string(), "42".to_string()));
    assert_eq!(ps[0], ("text".to_string(), "kiel.monjardin".to_string()));
}
