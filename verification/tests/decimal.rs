use chat_server::decimal::{decimal_string, parse_decimal};

#[test]
fn decimal_text_of_numbers() {
    assert_eq!(decimal_string(0), "0");
    assert_eq!(decimal_string(7), "7");
    assert_eq!(decimal_string(10), "10");
    assert_eq!(decimal_string(1234567890), "1234567890");
    assert_eq!(decimal_string(-42), "-42");
    assert_eq!(decimal_string(i64::MAX), "9223372036854775807");
    assert_eq!(decimal_string(i64::MIN), "-9223372036854775808");
}

#[test]
fn decimal_text_matches_to_string() {
    for n in [0i64, 1, 9, 10, 99, 100, -1, -10, 65535, i64::MAX, i64::MIN, -987654321] {
        assert_eq!(decimal_string(n), n.to_string());
    }
}

#[test]
fn parse_accepts_what_std_accepts() {
    assert_eq!(parse_decimal("42"), Some(42));
    assert_eq!(parse_decimal("+42"), Some(42));
    assert_eq!(parse_decimal("-42"), Some(-42));
    assert_eq!(parse_decimal("007"), Some(7));
    assert_eq!(parse_decimal("9223372036854775807"), Some(i64::MAX));
    assert_eq!(parse_decimal("-9223372036854775808"), Some(i64::MIN));
}

#[test]
fn parse_refuses_what_std_refuses() {
    for text in ["", "-", "+", " 1", "1 ", "12a", "a12", "1.5", "--1", "+-1",
                 "9223372036854775808", "-9223372036854775809", "99999999999999999999", "١٢"] {
        assert_eq!(parse_decimal(text), None, "{:?}", text);
        assert!(text.parse::<i64>().is_err());
    }
}

#[test]
fn parse_agrees_with_std_on_many_texts() {
    let texts = ["0", "-0", "+0", "18446744073709551615", "-1", "123456789012345678",
                 "922337203685477580", "9223372036854775806", "-9223372036854775807"];
    for t in texts {
        assert_eq!(parse_decimal(t), t.parse::<i64>().ok(), "{:?}", t);
    }
}

#[test]
fn session_id_round_trip() {
    for n in [0i64, 1, 42, -5, 1_000_000_007, i64::MAX, i64::MIN] {
        assert_eq!(parse_decimal(&decimal_string(n)), Some(n));
    }
}
