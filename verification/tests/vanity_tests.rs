use leaderboard_resolver::vanity::{ResolvedId, VanityResolver};
use leaderboard_resolver::Error;

#[test]
fn construction_without_a_key_fails_fast() {
    assert!(matches!(VanityResolver::new(None), Err(Error::SteamApiKeyNotSet)));
}

#[test]
fn lookup_params_carry_key_and_handle() {
    let v = VanityResolver::new(Some("test-key".to_string())).unwrap();
    let ps = v.lookup_params("monjardin1");
    assert_eq!(
        ps,
        vec![
            ("key".to_string(), "test-key".to_string()),
            ("vanityurl".to_string(), "monjardin1".to_string()),
        ]
    );
}

#[test]
fn successful_lookup_parses_the_id() {
    let payload = ResolvedId { steamid: "76561198020520825".to_string(), success: 1 };
    assert_eq!(VanityResolver::interpret_response(&payload), Ok(76561198020520825));
}

#[test]
fn zero_success_is_a_provider_miss() {
    let payload = ResolvedId { steamid: "".to_string(), success: 0 };
    assert_eq!(VanityResolver::interpret_response(&payload), Err(Error::UserNotFound));
}

#[test]
fn unparsable_id_is_a_parse_error_not_a_miss() {
    let payload = ResolvedId { steamid: "not-a-number".to_string(), success: 1 };
    assert!(matches!(
        VanityResolver::interpret_response(&payload),
        Err(Error::ParseError(_))
    ));

    let payload = ResolvedId { steamid: "".to_string(), success: 7 };
    assert!(matches!(
        VanityResolver::interpret_response(&payload),
        Err(Error::ParseError(_))
    ));

    // One past u64::MAX.
    let payload = ResolvedId { steamid: "18446744073709551616".to_string(), success: 1 };
    assert!(matches!(
        VanityResolver::interpret_response(&payload),
        Err(Error::ParseError(_))
    ));
}
