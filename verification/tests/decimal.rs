use std::num::IntErrorKind;
use mail::decimal::{parse_u64_text, u64_to_decimal, IntParseError};

#[test]
fn decimal_text_of_small_and_large_numbers() {
    assert_eq!(u64_to_decimal(0), "0");
    assert_eq!(u64_to_decimal(7), "7");
    assert_eq!(u64_to_decimal(10), "10");
    assert_eq!(u64_to_decimal(1234567890), "1234567890");
    assert_eq!(u64_to_decimal(u64::MAX), "18446744073709551615");
}

#[test]
fn decimal_text_matches_to_string() {
    for n in [0u64, 1, 9, 99, 100, 101, 65535, 4_294_967_296, 999_999_999_999, u64::MAX - 1] {
        assert_eq!(u64_to_decimal(n), n.to_string());
    }
}

#[test]
fn parse_accepts_digits_and_plus() {
    assert_eq!(parse_u64_text("0"), Ok(0));
    assert_eq!(parse_u64_text("42"), Ok(42));
    assert_eq!(parse_u64_text("+42"), Ok(42));
    assert_eq!(parse_u64_text("00012"), Ok(12));
    assert_eq!(parse_u64_text("18446744073709551615"), Ok(u64::MAX));
}

#[test]
fn parse_error_kinds() {
    assert_eq!(parse_u64_text(""), Err(IntParseError::Empty));
    assert_eq!(parse_u64_text("+"), Err(IntParseError::InvalidDigit));
    assert_eq!(parse_u64_text("-"), Err(IntParseError::InvalidDigit));
    assert_eq!(parse_u64_text("-5"), Err(IntParseError::InvalidDigit));
    assert_eq!(parse_u64_text("12a"), Err(IntParseError::InvalidDigit));
    assert_eq!(parse_u64_text(" 1"), Err(IntParseError::InvalidDigit));
    assert_eq!(parse_u64_text("1\n"), Err(IntParseError::InvalidDigit));
    assert_eq!(parse_u64_text("٣"), Err(IntParseError::InvalidDigit));
    assert_eq!(parse_u64_text("18446744073709551616"), Err(IntParseError::PosOverflow));
    assert_eq!(parse_u64_text("99999999999999999999x"), Err(IntParseError::PosOverflow));
    assert_eq!(parse_u64_text("1844674407370955161x"), Err(IntParseError::InvalidDigit));
}

#[test]
fn parse_agrees_with_std() {
    let texts = [
        "", "+", "-", "0", "+0", "-0", "12", "+12", "-12", "1_0", "x", "٣", "007",
        "18446744073709551615", "18446744073709551616", "28446744073709551615", "1 ",
        "99999999999999999999x", "++1",
    ];
    for t in texts {
        let ours = parse_u64_text(t);
        let std_result = t.parse::<u64>();
        match (ours, std_result) {
            (Ok(a), Ok(b)) => assert_eq!(a, b, "{t:?}"),
            (Err(a), Err(b)) => {
                let kind = match b.kind() {
                    IntErrorKind::Empty => IntParseError::Empty,
                    IntErrorKind::InvalidDigit => IntParseError::InvalidDigit,
                    IntErrorKind::PosOverflow => IntParseError::PosOverflow,
                    other => panic!("unexpected kind {other:?}"),
                };
                assert_eq!(a, kind, "{t:?}");
            }
            (a, b) => panic!("{t:?}: {a:?} vs {b:?}"),
        }
    }
}

#[test]
fn decimal_round_trip_values() {
    for n in [0u64, 5, 10, 123456, u64::MAX] {
        assert_eq!(parse_u64_text(&u64_to_decimal(n)), Ok(n));
    }
}
