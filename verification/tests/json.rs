use hqaudio_api::json::{bool_val, get, i32_val, i64_val, member_of, opt_str_val, str_val, JsonNumber, JsonValue};

fn s(t: &str) -> JsonValue {
    JsonValue::Str(t.to_string())
}

fn obj(entries: Vec<(&str, JsonValue)>) -> JsonValue {
    JsonValue::Object(entries.into_iter().map(|(k, v)| (k.to_string(), v)).collect())
}

#[test]
fn reading_members() {
    let v = obj(vec![("a", s("x")), ("b", JsonValue::Null)]);
    assert_eq!(get(&v, "a"), Some(&s("x")));
    assert_eq!(get(&v, "b"), Some(&JsonValue::Null));
    assert_eq!(get(&v, "c"), None);
    assert_eq!(member_of(&v, "c"), &JsonValue::Null);
    assert_eq!(get(&s("x"), "a"), None);
}

#[test]
fn reading_text() {
    assert_eq!(str_val(&s("abc")), "abc");
    assert_eq!(str_val(&JsonValue::Number(JsonNumber::PosInt(3))), "");
    assert_eq!(opt_str_val(&s("abc")), Some("abc".to_string()));
    assert_eq!(opt_str_val(&s("")), None);
    assert_eq!(opt_str_val(&JsonValue::Bool(true)), None);
}

#[test]
fn reading_flags() {
    assert!(bool_val(&s("1")));
    assert!(bool_val(&s("true")));
    assert!(bool_val(&JsonValue::Bool(true)));
    assert!(bool_val(&JsonValue::Number(JsonNumber::PosInt(1))));
    assert!(!bool_val(&s("0")));
    assert!(!bool_val(&s("yes")));
    assert!(!bool_val(&JsonValue::Bool(false)));
    assert!(!bool_val(&JsonValue::Number(JsonNumber::PosInt(2))));
    assert!(!bool_val(&JsonValue::Null));
}

#[test]
fn reading_integers() {
    assert_eq!(i64_val(&s("215")), Some(215));
    assert_eq!(i64_val(&s("2:15")), None);
    assert_eq!(i64_val(&JsonValue::Number(JsonNumber::NegInt(-4))), Some(-4));
    assert_eq!(i64_val(&JsonValue::Number(JsonNumber::PosInt(u64::MAX))), None);
    assert_eq!(i64_val(&JsonValue::Number(JsonNumber::Float)), None);
    assert_eq!(i64_val(&JsonValue::Null), None);
    assert_eq!(i32_val(&s("12")), 12);
    assert_eq!(i32_val(&s("twelve")), 0);
    assert_eq!(i32_val(&JsonValue::Number(JsonNumber::PosInt(4294967297))), 1);
    assert_eq!(i32_val(&JsonValue::Null), 0);
}
