use game_server::decimal::parse_i32;
use game_server::game_deck_card_list_request::GameDeckCardListRequest;

fn std_parse(text: &str) -> Option<i32> {
    text.parse::<i32>().ok()
}

#[test]
fn parse_i32_reads_plain_numbers() {
    assert_eq!(parse_i32("0"), Some(0));
    assert_eq!(parse_i32("42"), Some(42));
    assert_eq!(parse_i32("-17"), Some(-17));
    assert_eq!(parse_i32("+8"), Some(8));
    assert_eq!(parse_i32("007"), Some(7));
}

#[test]
fn parse_i32_reads_the_edges_of_the_range() {
    assert_eq!(parse_i32("2147483647"), Some(i32::MAX));
    assert_eq!(parse_i32("-2147483648"), Some(i32::MIN));
    assert_eq!(parse_i32("2147483648"), None);
    assert_eq!(parse_i32("-2147483649"), None);
    assert_eq!(parse_i32("99999999999999999999"), None);
    assert_eq!(parse_i32("00000000000000000000012"), Some(12));
}

#[test]
fn parse_i32_refuses_text_that_is_no_number() {
    for text in ["", "-", "+", "+-1", "-+1", " 1", "1 ", "1a", "abc", "1.0", "٣", "--1", "0x10"] {
        assert_eq!(parse_i32(text), None, "{text:?}");
    }
}

#[test]
fn parse_i32_agrees_with_std() {
    let samples = [
        "", "-", "+", "0", "-0", "+0", "12", "-12", "+12", "1_000", "１２", "12é", "é12",
        "2147483646", "2147483647", "2147483648", "-2147483647", "-2147483648",
        "-2147483649", "4294967296", "000000000000002147483647", "-0000000000002147483648",
    ];
    for text in samples {
        assert_eq!(parse_i32(text), std_parse(text), "{text:?}");
    }
    let mut n: i64 = i32::MIN as i64;
    while n <= i32::MAX as i64 {
        let text = n.to_string();
        assert_eq!(parse_i32(&text), Some(n as i32));
        assert_eq!(parse_i32(&format!("x{text}")), None);
        n += 65_537;
    }
}

#[test]
fn every_i32_written_in_decimal_reads_back() {
    for n in [i32::MIN, -1_000_000, -10, -9, -1, 0, 1, 9, 10, 99, 100, 123_456_789, i32::MAX] {
        assert_eq!(parse_i32(&n.to_string()), Some(n));
    }
}

#[test]
fn deck_card_list_request_keeps_its_session_id() {
    let request = GameDeckCardListRequest::new("5".to_string(), "session-abc".to_string());
    assert_eq!(request.get_session_id(), "session-abc");
}

#[test]
fn deck_card_list_request_reads_its_deck_id() {
    let request = GameDeckCardListRequest::new("12".to_string(), "s".to_string());
    assert_eq!(request.get_deck_id(), 12);
    let request = GameDeckCardListRequest::new("-3".to_string(), "s".to_string());
    assert_eq!(request.get_deck_id(), -3);
}

#[test]
fn deck_card_list_request_reads_a_bad_deck_id_as_zero() {
    for text in ["", "deck", "3000000000", "1 2", "-"] {
        let request = GameDeckCardListRequest::new(text.to_string(), "s".to_string());
        assert_eq!(request.get_deck_id(), 0, "{text:?}");
    }
}
