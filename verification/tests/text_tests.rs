use leaderboard_resolver::text::{parse_u64, rfind_char, str_eq, u64_to_dec_string};

#[test]
fn parse_u64_reads_decimal_numerals() {
    assert_eq!(parse_u64("0"), Some(0));
    assert_eq!(parse_u64("76561198020520825"), Some(76561198020520825));
    assert_eq!(parse_u64("007"), Some(7));
    assert_eq!(parse_u64("18446744073709551615"), Some(u64::MAX));
}

#[test]
fn parse_u64_rejects_what_is_not_a_u64_numeral() {
    assert_eq!(parse_u64(""), None);
    assert_eq!(parse_u64("12a3"), None);
    assert_eq!(parse_u64("-1"), None);
    assert_eq!(parse_u64(" 1"), None);
    // one past u64::MAX
    assert_eq!(parse_u64("18446744073709551616"), None);
}

#[test]
fn u64_to_dec_string_renders_exactly() {
    assert_eq!(u64_to_dec_string(0), "0");
    assert_eq!(u64_to_dec_string(42), "42");
    assert_eq!(u64_to_dec_string(76561198020520825), "76561198020520825");
    assert_eq!(u64_to_dec_string(u64::MAX), "18446744073709551615");
}

#[test]
fn decimal_rendering_round_trips() {
    for v in [0u64, 1, 9, 10, 99, 1000000007, u64::MAX] {
        assert_eq!(parse_u64(&u64_to_dec_string(v)), Some(v));
    }
}

#[test]
fn str_eq_is_exact() {
    assert!(str_eq("", ""));
    assert!(str_eq("Orbnet", "Orbnet"));
    assert!(!str_eq("Orbnet", "orbnet"));
    assert!(!str_eq("Orbnet", "Orbnet "));
}

#[test]
fn rfind_char_finds_the_last_occurrence() {
    assert_eq!(rfind_char("a/b/c", '/'), Some(3));
    assert_eq!(rfind_char("abc", '/'), None);
    assert_eq!(rfind_char("/", '/'), Some(0));
}
