use goods_inventory::datetime::Timestamp;
use goods_inventory::decimal::Decimal;
use goods_inventory::validation::{
    is_safe_datetime, is_safe_decimal, is_safe_integer, is_safe_string, is_safe_string_given,
    parse_safe_datetime, parse_safe_datetime_given, parse_safe_decimal, parse_safe_decimal_given,
    parse_safe_integer, read_integer, validate_safe_string, validate_safe_string_given,
};

#[test]
fn safe_integer_accepts_digits_and_one_minus() {
    assert!(is_safe_integer("123"));
    assert!(is_safe_integer("-5"));
    assert!(is_safe_integer("5-"));
    assert!(is_safe_integer("-"));
    assert!(!is_safe_integer(""));
    assert!(!is_safe_integer("--1"));
    assert!(!is_safe_integer("1-2-3"));
    assert!(!is_safe_integer("12a"));
    assert!(!is_safe_integer("+5"));
    assert!(!is_safe_integer("1 2"));
}

#[test]
fn safe_decimal_rejects_points_at_the_ends() {
    assert!(is_safe_decimal("10.00"));
    assert!(is_safe_decimal("-0.5"));
    assert!(is_safe_decimal("7"));
    assert!(!is_safe_decimal(""));
    assert!(!is_safe_decimal(".5"));
    assert!(!is_safe_decimal("5."));
    assert!(!is_safe_decimal("1.2.3"));
    assert!(!is_safe_decimal("--1"));
    assert!(!is_safe_decimal("1e5"));
}

#[test]
fn safe_datetime_has_ten_to_thirty_characters() {
    assert!(is_safe_datetime("2024-12-31"));
    assert!(is_safe_datetime("2024-12-31T23:59:59Z"));
    assert!(is_safe_datetime("2024-12-31T23:59:59.123+07:00"));
    assert!(!is_safe_datetime(""));
    assert!(!is_safe_datetime("2024-1-1"));
    assert!(!is_safe_datetime("2024-12-31T23:59:59.123456789+07:00"));
    assert!(!is_safe_datetime("2024-12-31 23:59:59"));
    assert!(!is_safe_datetime("2024/12/31x"));
}

#[test]
fn safe_string_rejects_sql_words_in_any_case() {
    assert!(is_safe_string("Widget"));
    assert!(is_safe_string("*"));
    assert!(is_safe_string("Blue widget (large), 50% off!"));
    assert!(is_safe_string("กล่อง"));
    assert!(!is_safe_string(""));
    assert!(!is_safe_string("select"));
    assert!(!is_safe_string("SELECT name"));
    assert!(!is_safe_string("x; y"));
    assert!(!is_safe_string("O'Brien"));
    assert!(!is_safe_string("a--b"));
    assert!(!is_safe_string("Dropbox"));
    assert!(!is_safe_string("a\\b"));
    assert!(!is_safe_string("a=b"));
    assert!(!is_safe_string("a<b"));
}

#[test]
fn safe_string_given_reads_the_lowered_text_for_patterns() {
    assert!(is_safe_string_given("Widget", "widget"));
    assert!(!is_safe_string_given("Widget", "drop"));
    assert!(is_safe_string_given("*", "anything; goes"));
    assert!(!is_safe_string_given("", ""));
    assert!(!is_safe_string_given("a=b", "a=b"));
    assert!(is_safe_string_given("tab\tand\nline", "tab\tand\nline"));
    assert!(!is_safe_string_given("bell\u{7}", "bell\u{7}"));
}

#[test]
fn parse_safe_integer_reads_values() {
    assert_eq!(parse_safe_integer("42", "goods_id"), Ok(42));
    assert_eq!(parse_safe_integer("007", "goods_id"), Ok(7));
    assert_eq!(parse_safe_integer("-0", "goods_id"), Ok(0));
    assert_eq!(parse_safe_integer("2147483647", "goods_id"), Ok(i32::MAX));
    assert_eq!(parse_safe_integer("-2147483648", "goods_id"), Ok(i32::MIN));
    assert_eq!(
        parse_safe_integer("2147483648", "goods_id"),
        Err("Invalid integer format for goods_id".to_string())
    );
    assert_eq!(
        parse_safe_integer("-2147483649", "goods_id"),
        Err("Invalid integer format for goods_id".to_string())
    );
    assert_eq!(
        parse_safe_integer("99999999999999999999999", "goods_id"),
        Err("Invalid integer format for goods_id".to_string())
    );
    assert_eq!(
        parse_safe_integer("1-2", "item_id"),
        Err("Invalid integer format for item_id".to_string())
    );
    assert_eq!(parse_safe_integer("-", "item_id"), Err("Invalid integer format for item_id".to_string()));
    assert_eq!(parse_safe_integer("x", "item_id"), Err("Invalid item_id format".to_string()));
    assert_eq!(parse_safe_integer("", "item_id"), Err("Invalid item_id format".to_string()));
}

#[test]
fn read_integer_agrees_with_the_standard_parser() {
    for text in ["0", "1", "-1", "12345", "-12345", "2147483647", "2147483648", "-2147483648", "-2147483649", "", "-", "1a", "00012", "-00012"] {
        let chars: Vec<char> = text.chars().collect();
        assert_eq!(read_integer(&chars), text.parse::<i32>().ok(), "{}", text);
    }
}

#[test]
fn parse_safe_decimal_reads_mantissa_and_scale() {
    assert_eq!(parse_safe_decimal("12.50", "price"), Ok(Decimal { mantissa: 1250, scale: 2 }));
    assert_eq!(parse_safe_decimal("-3", "price"), Ok(Decimal { mantissa: -3, scale: 0 }));
    assert_eq!(parse_safe_decimal("0.001", "mass_g"), Ok(Decimal { mantissa: 1, scale: 3 }));
    assert_eq!(parse_safe_decimal("1.5.2", "price"), Err("Invalid price format".to_string()));
    assert_eq!(parse_safe_decimal("abc", "price"), Err("Invalid price format".to_string()));
    assert_eq!(parse_safe_decimal("3-", "price"), Err("Invalid decimal format for price".to_string()));
}

#[test]
fn parse_safe_decimal_given_takes_what_the_parser_made() {
    let d = Decimal { mantissa: 5, scale: 1 };
    assert_eq!(parse_safe_decimal_given("0.5", "price", Some(d)), Ok(d));
    assert_eq!(
        parse_safe_decimal_given("0.5", "price", None),
        Err("Invalid decimal format for price".to_string())
    );
    assert_eq!(parse_safe_decimal_given(".5", "price", Some(d)), Err("Invalid price format".to_string()));
}

#[test]
fn parse_safe_datetime_reads_seconds_since_the_epoch() {
    assert_eq!(
        parse_safe_datetime("2024-12-31T23:59:59Z", "expired_date"),
        Ok(Timestamp { secs: 1735689599, nanos: 0 })
    );
    assert_eq!(
        parse_safe_datetime("1970-01-01T00:00:00.5+00:00", "expired_date"),
        Ok(Timestamp { secs: 0, nanos: 500_000_000 })
    );
    assert_eq!(
        parse_safe_datetime("2024-12-31", "expired_date"),
        Err("Invalid datetime format for expired_date. Use ISO 8601 format (e.g., 2024-12-31T23:59:59Z)".to_string())
    );
    assert_eq!(parse_safe_datetime("soon", "expired_date"), Err("Invalid expired_date format".to_string()));
}

#[test]
fn parse_safe_datetime_given_takes_what_the_parser_made() {
    let t = Timestamp { secs: 10, nanos: 0 };
    assert_eq!(parse_safe_datetime_given("1970-01-01T00:00:10Z", "d", Some(t)), Ok(t));
    assert_eq!(
        parse_safe_datetime_given("1970-01-01T00:00:10Z", "d", None),
        Err("Invalid datetime format for d. Use ISO 8601 format (e.g., 2024-12-31T23:59:59Z)".to_string())
    );
    assert_eq!(parse_safe_datetime_given("short", "d", Some(t)), Err("Invalid d format".to_string()));
}

#[test]
fn validate_safe_string_names_the_field() {
    assert_eq!(validate_safe_string("Widget", "goods_name"), Ok(()));
    assert_eq!(validate_safe_string("", "goods_name"), Err("goods_name cannot be empty".to_string()));
    assert_eq!(validate_safe_string("a;b", "goods_name"), Err("Invalid goods_name".to_string()));
    assert_eq!(validate_safe_string("Union Jack", "goods_name"), Err("Invalid goods_name".to_string()));
    assert_eq!(validate_safe_string_given("Widget", "goods_name", "widget"), Ok(()));
    assert_eq!(
        validate_safe_string_given("Widget", "goods_name", "xp_widget"),
        Err("Invalid goods_name".to_string())
    );
}
