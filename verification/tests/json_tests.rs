use brewhouse::json::{
    get_bool_field, get_int_field, get_str_field, get_str_list_field, obj_field, str_eq, JsonValue,
};

fn obj(fields: Vec<(&str, JsonValue)>) -> JsonValue {
    JsonValue::Obj(
        fields
            .into_iter()
            .map(|(k, v)| (k.to_string(), v))
            .collect(),
    )
}

fn text(s: &str) -> JsonValue {
    JsonValue::Text(s.to_string())
}

#[test]
fn lookup_takes_the_first_binding_of_a_repeated_key() {
    let v = obj(vec![("k", text("first")), ("k", text("second"))]);
    assert_eq!(get_str_field(&v, "k").as_deref(), Some("first"));
}

#[test]
fn lookup_misses_on_non_objects() {
    assert!(obj_field(&JsonValue::Null, "k").is_none());
    assert!(obj_field(&text("k"), "k").is_none());
    assert!(obj_field(&JsonValue::Arr(Vec::new()), "k").is_none());
}

#[test]
fn field_readers_are_shape_strict() {
    let v = obj(vec![
        ("s", text("x")),
        ("b", JsonValue::Bool(true)),
        ("i", JsonValue::Int(-7)),
        ("l", JsonValue::Arr(vec![text("a"), text("b")])),
        ("bad", JsonValue::Arr(vec![text("a"), JsonValue::Int(1)])),
    ]);
    assert_eq!(get_str_field(&v, "s").as_deref(), Some("x"));
    assert_eq!(get_str_field(&v, "b"), None);
    assert_eq!(get_bool_field(&v, "b"), Some(true));
    assert_eq!(get_bool_field(&v, "i"), None);
    assert_eq!(get_int_field(&v, "i"), Some(-7));
    assert_eq!(get_int_field(&v, "s"), None);
    assert_eq!(
        get_str_list_field(&v, "l"),
        Some(vec!["a".to_string(), "b".to_string()])
    );
    assert_eq!(get_str_list_field(&v, "bad"), None);
    assert_eq!(get_str_field(&v, "missing"), None);
}

#[test]
fn extreme_integers_survive_decoding() {
    let payload = format!(
        "{{\"formulae\":[{{\"name\":\"jq\",\"versions\":{{\"stable\":\"1\"}},\
         \"installed\":[{{\"version\":\"1\",\"time\":{}}}]}}]}}",
        i64::MAX
    );
    let f = brewhouse::parse::parse_detail(&payload).unwrap();
    assert_eq!(f.installed.unwrap()[0].time, Some(i64::MAX));
}

#[test]
fn string_comparison_is_exact() {
    assert!(str_eq("", ""));
    assert!(str_eq("abc", "abc"));
    assert!(!str_eq("abc", "abd"));
    assert!(!str_eq("abc", "ab"));
    assert!(str_eq("naïve", "naïve"));
}
