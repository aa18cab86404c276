use feed_reader::cursor::Token;
use feed_reader::schedule::parse_seconds;
use feed_reader::schedule::refresh_seconds;
use feed_reader::schedule::DEFAULT_REFRESH_SECONDS;
use feed_reader::token::MAX_DATE;
use feed_reader::token::SEPARATOR;

fn parts(token: &Token) -> Option<(String, String)> {
    match token {
        Token::Start => None,
        Token::After { stamp, id } => Some((stamp.clone(), id.clone())),
    }
}

#[test]
fn max_date_is_the_top_of_the_listing() {
    assert_eq!(MAX_DATE, "9999-12-31T23:59:59.999Z");
    assert_eq!(SEPARATOR, '|');
    assert_eq!(parts(&Token::from_str(MAX_DATE)), None);
    assert_eq!(Token::Start.to_string(), MAX_DATE);
}

#[test]
fn token_text_joins_stamp_and_id() {
    let token = Token::After { stamp: "2024-01-01T00:00:00.000Z".to_string(), id: "aGVsbG8=".to_string() };
    assert_eq!(token.to_string(), "2024-01-01T00:00:00.000Z|aGVsbG8=");
}

#[test]
fn token_is_read_back_from_its_text() {
    for (stamp, id) in [
        ("2024-01-01T00:00:00.000Z", "aGVsbG8="),
        ("", ""),
        ("", "x"),
        ("x", ""),
        ("a|b", "c"),
        ("Wed, 18 Feb 2015", "aHR0cHM6Ly9leGFtcGxlLmNvbS9h"),
        ("\u{e9}t\u{e9}", "\u{1F600}"),
    ] {
        let token = Token::After { stamp: stamp.to_string(), id: id.to_string() };
        let back = Token::from_str(token.to_string().as_str());
        assert_eq!(parts(&back), Some((stamp.to_string(), id.to_string())));
    }
}

#[test]
fn token_splits_at_the_last_separator() {
    assert_eq!(parts(&Token::from_str("a|b|c")), Some(("a|b".to_string(), "c".to_string())));
    assert_eq!(parts(&Token::from_str("|")), Some(("".to_string(), "".to_string())));
    assert_eq!(parts(&Token::from_str("a|")), Some(("a".to_string(), "".to_string())));
    assert_eq!(parts(&Token::from_str("|b")), Some(("".to_string(), "b".to_string())));
}

#[test]
fn text_without_separator_is_a_date_alone() {
    assert_eq!(parts(&Token::from_str("2024-01-01")), Some(("2024-01-01".to_string(), "".to_string())));
    assert_eq!(parts(&Token::from_str("")), Some(("".to_string(), "".to_string())));
    assert_eq!(
        parts(&Token::from_str("9999-12-31T23:59:59.999")),
        Some(("9999-12-31T23:59:59.999".to_string(), "".to_string()))
    );
}

#[test]
fn refresh_seconds_default_is_three_minutes() {
    assert_eq!(DEFAULT_REFRESH_SECONDS, 180);
    assert_eq!(refresh_seconds(None), 180);
    assert_eq!(refresh_seconds(Some("")), 180);
    assert_eq!(refresh_seconds(Some("soon")), 180);
    assert_eq!(refresh_seconds(Some("12s")), 180);
    assert_eq!(refresh_seconds(Some(" 12")), 180);
    assert_eq!(refresh_seconds(Some("-5")), 180);
    assert_eq!(refresh_seconds(Some("1.5")), 180);
}

#[test]
fn refresh_seconds_takes_a_configured_number() {
    assert_eq!(refresh_seconds(Some("60")), 60);
    assert_eq!(refresh_seconds(Some("0")), 0);
    assert_eq!(refresh_seconds(Some("+15")), 15);
    assert_eq!(refresh_seconds(Some("007")), 7);
    assert_eq!(refresh_seconds(Some("18446744073709551615")), u64::MAX);
}

#[test]
fn parse_seconds_agrees_with_the_standard_parser() {
    for sample in [
        "", "+", "-", "0", "+0", "-0", "++1", "+-1", "1+", "12", "0012", "1_000", "１２", "1e3", "0x10",
        "18446744073709551615", "18446744073709551616", "184467440737095516150", "99999999999999999999",
        "+18446744073709551615", "000000000000000000000000018446744073709551615", " 1", "1 ", "\u{0661}",
    ] {
        assert_eq!(parse_seconds(sample), sample.parse::<u64>().ok(), "{:?}", sample);
    }
}
