use sip2_gateway::text::{parse_int_str, parse_money_str, scrub_domain, str_eq};
use sip2_gateway::values::{parse_bool, parse_id, parse_money, Value};

#[test]
fn str_eq_compares_by_characters() {
    assert!(str_eq("abc", "abc"));
    assert!(!str_eq("abc", "abd"));
    assert!(!str_eq("abc", "ab"));
    assert!(str_eq("", ""));
}

#[test]
fn scrub_domain_keeps_what_follows_the_last_backslash() {
    assert_eq!(scrub_domain("DOMAIN\\jdoe").as_str(), "jdoe");
    assert_eq!(scrub_domain("jdoe").as_str(), "jdoe");
    assert_eq!(scrub_domain("a\\b\\c").as_str(), "c");
    assert_eq!(scrub_domain("DOMAIN\\").as_str(), "");
    assert_eq!(scrub_domain("").as_str(), "");
}

#[test]
fn integers_parse_with_optional_sign() {
    assert_eq!(parse_int_str("123"), Some(123));
    assert_eq!(parse_int_str("-5"), Some(-5));
    assert_eq!(parse_int_str("0"), Some(0));
    assert_eq!(parse_int_str(""), None);
    assert_eq!(parse_int_str("-"), None);
    assert_eq!(parse_int_str("12a"), None);
    assert_eq!(parse_int_str("99999999999999999999"), None);
}

#[test]
fn integers_cover_the_full_i64_range() {
    assert_eq!(parse_int_str("9223372036854775807"), Some(i64::MAX));
    assert_eq!(parse_int_str("-9223372036854775808"), Some(i64::MIN));
    assert_eq!(parse_int_str("9223372036854775808"), None);
    assert_eq!(parse_int_str("-9223372036854775809"), None);
    assert_eq!(
        parse_id(&Value::Str("-9223372036854775808".to_string())),
        Ok(i64::MIN)
    );
}

#[test]
fn money_parses_to_hundredths() {
    assert_eq!(parse_money_str("5.00"), Some(500));
    assert_eq!(parse_money_str("3"), Some(300));
    assert_eq!(parse_money_str("0.5"), Some(50));
    assert_eq!(parse_money_str("7.25"), Some(725));
    assert_eq!(parse_money_str("0.00"), Some(0));
}

#[test]
fn malformed_money_is_rejected() {
    assert_eq!(parse_money_str(""), None);
    assert_eq!(parse_money_str(".5"), None);
    assert_eq!(parse_money_str("5."), None);
    assert_eq!(parse_money_str("5.123"), None);
    assert_eq!(parse_money_str("1.2.3"), None);
    assert_eq!(parse_money_str("-1.00"), None);
    assert_eq!(parse_money_str("1e3"), None);
}

#[test]
fn backend_ids_parse_from_numbers_and_strings() {
    assert_eq!(parse_id(&Value::Int(42)), Ok(42));
    assert_eq!(parse_id(&Value::Str("42".to_string())), Ok(42));
    assert_eq!(parse_id(&Value::Str("-7".to_string())), Ok(-7));
    assert!(parse_id(&Value::Str("4.2".to_string())).is_err());
    assert!(parse_id(&Value::Null).is_err());
    assert!(parse_id(&Value::Bool(true)).is_err());
}

#[test]
fn backend_money_parses_from_numbers_and_strings() {
    assert_eq!(parse_money(&Value::Int(5)), Ok(500));
    assert_eq!(parse_money(&Value::Str("3.45".to_string())), Ok(345));
    assert_eq!(parse_money(&Value::Str("-2.50".to_string())), Ok(-250));
    assert!(parse_money(&Value::Str("x".to_string())).is_err());
    assert!(parse_money(&Value::Null).is_err());
}

#[test]
fn backend_booleans_come_in_many_shapes() {
    assert!(parse_bool(&Value::Bool(true)));
    assert!(!parse_bool(&Value::Bool(false)));
    assert!(parse_bool(&Value::Int(1)));
    assert!(parse_bool(&Value::Int(-3)));
    assert!(!parse_bool(&Value::Int(0)));
    assert!(parse_bool(&Value::Str("t".to_string())));
    assert!(parse_bool(&Value::Str("True".to_string())));
    assert!(!parse_bool(&Value::Str("false".to_string())));
    assert!(!parse_bool(&Value::Str("".to_string())));
    assert!(!parse_bool(&Value::Null));
}
