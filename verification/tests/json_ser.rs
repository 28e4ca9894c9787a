use mev_matchmaker::json::{serialize_json, JsonVal};

#[test]
fn serialize_scalars() {
    assert_eq!(serialize_json(&JsonVal::Bool(true)), "true");
    assert_eq!(serialize_json(&JsonVal::Bool(false)), "false");
    assert_eq!(serialize_json(&JsonVal::Num(0)), "0");
    assert_eq!(serialize_json(&JsonVal::Num(1234)), "1234");
    assert_eq!(serialize_json(&JsonVal::Str("hello".to_string())), "\"hello\"");
}

#[test]
fn serialize_escapes() {
    let v = JsonVal::Str("a\"b\\c\nd".to_string());
    assert_eq!(serialize_json(&v), "\"a\\\"b\\\\c\\u000ad\"");
}

#[test]
fn serialize_array_and_object() {
    let arr = JsonVal::Arr(vec![JsonVal::Num(1), JsonVal::Bool(false), JsonVal::Str("x".to_string())]);
    assert_eq!(serialize_json(&arr), "[1,false,\"x\"]");
    let obj = JsonVal::Obj(vec![
        ("a".to_string(), JsonVal::Num(1)),
        ("b".to_string(), JsonVal::Arr(vec![])),
        ("c".to_string(), JsonVal::Obj(vec![("d".to_string(), JsonVal::Bool(true))])),
    ]);
    assert_eq!(serialize_json(&obj), "{\"a\":1,\"b\":[],\"c\":{\"d\":true}}");
}

#[test]
fn serialized_output_is_valid_json() {
    let obj = JsonVal::Obj(vec![
        ("name".to_string(), JsonVal::Str("quote \" slash \\ tab\t".to_string())),
        ("nums".to_string(), JsonVal::Arr(vec![JsonVal::Num(7), JsonVal::Num(0)])),
        ("flag".to_string(), JsonVal::Bool(true)),
    ]);
    let text = serialize_json(&obj);
    let parsed: serde_json::Value = serde_json::from_str(&text).expect("canonical output parses");
    assert_eq!(parsed["name"], serde_json::Value::String("quote \" slash \\ tab\t".to_string()));
    assert_eq!(parsed["nums"][0], serde_json::Value::from(7u64));
    assert_eq!(parsed["flag"], serde_json::Value::Bool(true));
}

#[test]
fn serialization_is_reproducible() {
    let make = || {
        JsonVal::Obj(vec![
            ("k1".to_string(), JsonVal::Str("v".to_string())),
            ("k2".to_string(), JsonVal::Num(9)),
        ])
    };
    assert_eq!(serialize_json(&make()), serialize_json(&make()));
    assert_eq!(serialize_json(&make()), "{\"k1\":\"v\",\"k2\":9}");
}
