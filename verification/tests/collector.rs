use arel::collector::{Collect, CollectSql, SqlCollector};
use arel::nodes::{Bind, BindValue, FloatText};

fn bound(value: BindValue) -> String {
    let mut collector = SqlCollector::new();
    collector.add_bind(&Bind { value });
    collector.value().to_string()
}

#[test]
fn collector_starts_empty() {
    assert_eq!(SqlCollector::new().value(), "");
}

#[test]
fn push_appends_text_as_it_stands() {
    let mut collector = SqlCollector::new();
    collector.push("SELECT");
    collector.push(" ");
    collector.push("'*'");
    collector.push("");
    assert_eq!(collector.value(), "SELECT '*'");
}

#[test]
fn add_bind_appends_after_what_is_there() {
    let mut collector = SqlCollector::new();
    collector.push("LIMIT ");
    collector.add_bind(&Bind::from(5u64));
    assert_eq!(collector.value(), "LIMIT 5");
}

#[test]
fn unsigned_integers_are_bare_digits() {
    assert_eq!(bound(BindValue::UintKind(0)), "0");
    assert_eq!(bound(BindValue::UintKind(1234567890)), "1234567890");
    assert_eq!(bound(BindValue::UintKind(u64::MAX)), "18446744073709551615");
}

#[test]
fn signed_integers_are_bare_digits_with_a_sign() {
    assert_eq!(bound(BindValue::IntKind(17)), "17");
    assert_eq!(bound(BindValue::IntKind(-17)), "-17");
    assert_eq!(bound(BindValue::IntKind(i64::MIN)), "-9223372036854775808");
}

#[test]
fn booleans_are_quoted_letters() {
    assert_eq!(bound(BindValue::BoolKind(true)), "'t'");
    assert_eq!(bound(BindValue::BoolKind(false)), "'f'");
}

#[test]
fn strings_are_quoted() {
    assert_eq!(bound(BindValue::StringKind("omg".to_string())), "'omg'");
    assert_eq!(bound(BindValue::StringKind(String::new())), "''");
}

#[test]
fn strings_keep_embedded_quotes_as_they_are() {
    assert_eq!(bound(BindValue::StringKind("it's".to_string())), "'it's'");
    assert_eq!(bound(BindValue::StringKind("'".to_string())), "'''");
}

#[test]
fn floats_are_bare_decimal_text() {
    let single = FloatText::parse(&2.5f32.to_string()).unwrap();
    assert_eq!(bound(BindValue::F32Kind(single)), "2.5");
    let double = FloatText::parse(&(-0.125f64).to_string()).unwrap();
    assert_eq!(bound(BindValue::F64Kind(double)), "-0.125");
    let whole = FloatText::parse(&3.0f64.to_string()).unwrap();
    assert_eq!(bound(BindValue::F64Kind(whole)), "3");
}

#[test]
fn float_text_takes_only_numbers() {
    assert_eq!(FloatText::parse("1.5").unwrap().as_str(), "1.5");
    assert!(FloatText::parse("1.5 OR 1=1").is_none());
    assert!(FloatText::parse("NaN").is_none());
    assert!(FloatText::parse("").is_none());
}

#[test]
fn bind_from_tags_each_type() {
    assert!(matches!(Bind::from(3u64).value, BindValue::UintKind(3)));
    assert!(matches!(Bind::from(-3i64).value, BindValue::IntKind(-3)));
    assert!(matches!(Bind::from(true).value, BindValue::BoolKind(true)));
    match Bind::from("text").value {
        BindValue::StringKind(s) => assert_eq!(s, "text"),
        _ => panic!("a string slice binds as a string"),
    }
    match Bind::from("owned".to_string()).value {
        BindValue::StringKind(s) => assert_eq!(s, "owned"),
        _ => panic!("a string binds as a string"),
    }
}
