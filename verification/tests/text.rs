use ethplorer::{decimal_string, parse_unsigned, signed_decimal_string};

#[test]
fn decimal_string_writes_plain_numerals() {
    assert_eq!(decimal_string(0), "0");
    assert_eq!(decimal_string(7), "7");
    assert_eq!(decimal_string(10), "10");
    assert_eq!(decimal_string(1000), "1000");
    assert_eq!(decimal_string(1609459200), "1609459200");
    assert_eq!(decimal_string(u64::MAX), "18446744073709551615");
}

#[test]
fn decimal_string_agrees_with_the_standard_library() {
    let mut n: u64 = 1;
    for _ in 0..60 {
        assert_eq!(decimal_string(n), n.to_string());
        assert_eq!(decimal_string(n - 1), (n - 1).to_string());
        n = n.wrapping_mul(3).wrapping_add(1);
    }
}

#[test]
fn signed_decimal_string_writes_the_sign() {
    assert_eq!(signed_decimal_string(0), "0");
    assert_eq!(signed_decimal_string(5), "5");
    assert_eq!(signed_decimal_string(-5), "-5");
    assert_eq!(signed_decimal_string(-10), "-10");
    assert_eq!(signed_decimal_string(i64::MAX), "9223372036854775807");
    assert_eq!(signed_decimal_string(i64::MIN), "-9223372036854775808");
}

#[test]
fn parse_unsigned_reads_numerals() {
    assert_eq!(parse_unsigned("0"), Some(0));
    assert_eq!(parse_unsigned("42"), Some(42));
    assert_eq!(parse_unsigned("+42"), Some(42));
    assert_eq!(parse_unsigned("0042"), Some(42));
    assert_eq!(parse_unsigned("+0"), Some(0));
    assert_eq!(parse_unsigned("18446744073709551616"), Some(18446744073709551616));
}

#[test]
fn parse_unsigned_refuses_what_is_no_numeral() {
    assert_eq!(parse_unsigned(""), None);
    assert_eq!(parse_unsigned("+"), None);
    assert_eq!(parse_unsigned("-"), None);
    assert_eq!(parse_unsigned("-1"), None);
    assert_eq!(parse_unsigned("-0"), None);
    assert_eq!(parse_unsigned("++1"), None);
    assert_eq!(parse_unsigned("1+"), None);
    assert_eq!(parse_unsigned(" 42"), None);
    assert_eq!(parse_unsigned("42 "), None);
    assert_eq!(parse_unsigned("4 2"), None);
    assert_eq!(parse_unsigned("1_000"), None);
    assert_eq!(parse_unsigned("1.0"), None);
    assert_eq!(parse_unsigned("0x10"), None);
    assert_eq!(parse_unsigned("not-a-number"), None);
    assert_eq!(parse_unsigned("\u{ff14}\u{ff12}"), None);
    assert_eq!(parse_unsigned("4\u{0662}"), None);
}

#[test]
fn parse_unsigned_stops_at_the_largest_number() {
    let max = u128::MAX.to_string();
    assert_eq!(parse_unsigned(&max), Some(u128::MAX));
    assert_eq!(parse_unsigned("340282366920938463463374607431768211456"), None);
    assert_eq!(parse_unsigned("3402823669209384634633746074317682114550"), None);
    assert_eq!(parse_unsigned("00000000000000000000000000000000000000000000000001"), Some(1));
}

#[test]
fn parse_unsigned_agrees_with_the_standard_library() {
    let texts = [
        "", "+", "-", "0", "+0", "-0", "7", "007", "+007", "12a", "a12", "99999999999999999999",
        "340282366920938463463374607431768211455", "340282366920938463463374607431768211456",
        " 1", "1 ", "+-1", "\u{0967}\u{0968}",
    ];
    for text in texts.iter() {
        assert_eq!(parse_unsigned(text), text.parse::<u128>().ok(), "{}", text);
    }
}
