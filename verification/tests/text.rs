use vincent::text::integer_to_string;
use vincent::text::natural_to_string;
use vincent::text::parse_integer;

#[test]
fn writes_small_and_large_integers() {
    assert_eq!(integer_to_string(0), "0");
    assert_eq!(integer_to_string(7), "7");
    assert_eq!(integer_to_string(10), "10");
    assert_eq!(integer_to_string(-1), "-1");
    assert_eq!(integer_to_string(1234567890), "1234567890");
    assert_eq!(integer_to_string(i64::MAX), "9223372036854775807");
    assert_eq!(integer_to_string(i64::MIN), "-9223372036854775808");
}

#[test]
fn writes_naturals() {
    assert_eq!(natural_to_string(0), "0");
    assert_eq!(natural_to_string(9), "9");
    assert_eq!(natural_to_string(100), "100");
    assert_eq!(natural_to_string(u64::MAX), "18446744073709551615");
}

#[test]
fn writes_as_the_standard_formatter_does() {
    let values: Vec<i64> = vec![0, 1, -1, 9, 10, -10, 99, 100, 101, -999, 4096, i64::MAX, i64::MIN, i64::MIN + 1];
    for value in values {
        assert_eq!(integer_to_string(value), format!("{}", value));
    }
}

#[test]
fn reads_signed_numerals() {
    assert_eq!(parse_integer("42"), Some(42));
    assert_eq!(parse_integer("-42"), Some(-42));
    assert_eq!(parse_integer("+42"), Some(42));
    assert_eq!(parse_integer("007"), Some(7));
    assert_eq!(parse_integer("0"), Some(0));
    assert_eq!(parse_integer("-0"), Some(0));
}

#[test]
fn rejects_what_is_no_numeral() {
    assert_eq!(parse_integer(""), None);
    assert_eq!(parse_integer("-"), None);
    assert_eq!(parse_integer("+"), None);
    assert_eq!(parse_integer("12a"), None);
    assert_eq!(parse_integer(" 12"), None);
    assert_eq!(parse_integer("12 "), None);
    assert_eq!(parse_integer("1-2"), None);
    assert_eq!(parse_integer("--2"), None);
    assert_eq!(parse_integer("1.5"), None);
    assert_eq!(parse_integer("\u{663}"), None);
}

#[test]
fn reads_up_to_the_limits_of_i64() {
    assert_eq!(parse_integer("9223372036854775807"), Some(i64::MAX));
    assert_eq!(parse_integer("9223372036854775808"), None);
    assert_eq!(parse_integer("-9223372036854775808"), Some(i64::MIN));
    assert_eq!(parse_integer("-9223372036854775809"), None);
    assert_eq!(parse_integer("000000000000000000000000000000000000001"), Some(1));
    assert_eq!(parse_integer("99999999999999999999999999999999999999999999"), None);
}

#[test]
fn reads_as_the_standard_parser_does() {
    let texts = vec![
        "", "0", "-0", "+0", "5", "-5", "+5", "05", "5x", "x5", "-", "+", "+-5", "18446744073709551615",
        "9223372036854775807", "9223372036854775808", "-9223372036854775808", "-9223372036854775809", "१२",
    ];
    for text in texts {
        assert_eq!(parse_integer(text), text.parse::<i64>().ok());
    }
}

#[test]
fn reads_back_what_was_written() {
    let values: Vec<i64> = vec![0, 1, -1, 10, -10, 12345, -98765, i64::MAX, i64::MIN];
    for value in values {
        assert_eq!(parse_integer(&integer_to_string(value)), Some(value));
    }
}
