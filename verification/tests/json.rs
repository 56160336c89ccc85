use serde_json::{Number, Value};
use simeis::json::get_json_key;

fn obj(entries: Vec<(&str, Value)>) -> Value {
    let mut m = serde_json::Map::new();
    for (k, v) in entries {
        m.insert(k.to_string(), v);
    }
    Value::Object(m)
}

#[test]
fn test_get_json_by_key() {
    let data = obj(vec![(
        "a",
        obj(vec![
            ("b", obj(vec![("c", obj(vec![("d", obj(vec![("e", Value::Number(Number::from(3u64)))]))]))])),
            ("f", obj(vec![("g", Value::Number(Number::from(5u64)))])),
        ]),
    )]);

    assert_eq!(
        get_json_key(&data, "a.b.c.d.e").and_then(|v| v.as_number().and_then(|v| v.as_u64())),
        Some(3)
    );

    assert_eq!(
        get_json_key(&data, "a.f.g").and_then(|v| v.as_number().and_then(|v| v.as_u64())),
        Some(5)
    );

    assert!(get_json_key(&data, "a.b.c.d.e.f").is_none());
    assert!(get_json_key(&data, "a.b").is_some());
    assert!(get_json_key(&data, "a.b.x").is_none());
}

#[test]
fn json_path_needs_objects_all_the_way() {
    let data = obj(vec![
        ("list", Value::Array(vec![Value::Bool(true)])),
        ("name", Value::String("x".to_string())),
    ]);
    assert_eq!(get_json_key(&data, "name"), Some(Value::String("x".to_string())));
    assert!(get_json_key(&data, "list.0").is_none());
    assert!(get_json_key(&Value::Bool(true), "a").is_none());
    assert!(get_json_key(&data, "").is_none());
}
