use closhell_payment_gateway::JsonValue;

#[test]
fn parse_and_read_members() {
    let v = JsonValue::parse(r#"{"type":"invoice.paid","n":42,"big":18446744073709551615,"f":1.5,"o":{"k":"v"},"s":"x"}"#).unwrap();
    assert_eq!(v.get("type").and_then(|t| t.as_str()), Some("invoice.paid"));
    assert_eq!(v.get("n").and_then(|n| n.as_i64()), Some(42));
    assert_eq!(v.get("big").and_then(|n| n.as_i64()), None);
    assert_eq!(v.get("f").and_then(|n| n.as_i64()), None);
    assert_eq!(v.get("o").and_then(|o| o.get("k")).and_then(|k| k.as_str()), Some("v"));
    assert!(v.get("missing").is_none());
    assert!(v.get("s").and_then(|s| s.get("k")).is_none());
    assert!(matches!(v.get("big"), Some(JsonValue::Number(t)) if t == "18446744073709551615"));
    assert!(matches!(v.get("f"), Some(JsonValue::Number(t)) if t == "1.5"));
}

#[test]
fn parse_rejects_bad_json() {
    let e = JsonValue::parse("{not json").unwrap_err();
    assert!(!e.is_empty());
}

#[test]
fn string_maps_need_all_string_members() {
    let v = JsonValue::parse(r#"{"a":"1","b":"2"}"#).unwrap();
    let m = v.to_string_map().unwrap();
    assert_eq!(m.get("a").map(|s| s.as_str()), Some("1"));
    assert_eq!(m.len(), 2);
    let w = JsonValue::parse(r#"{"a":"1","b":2}"#).unwrap();
    assert!(w.to_string_map().is_none());
    let x = JsonValue::parse(r#"["a"]"#).unwrap();
    assert!(x.to_string_map().is_none());
}

#[test]
fn last_duplicate_member_counts() {
    let v = JsonValue::Object(vec![
        ("k".to_string(), JsonValue::String("first".to_string())),
        ("k".to_string(), JsonValue::String("last".to_string())),
    ]);
    assert_eq!(v.get("k").and_then(|k| k.as_str()), Some("last"));
    assert_eq!(v.to_string_map().unwrap().get("k").map(|s| s.as_str()), Some("last"));
}

#[test]
fn integer_numbers_in_i64_range() {
    let v = JsonValue::parse(r#"{"min":-9223372036854775808,"max":9223372036854775807,"over":9223372036854775808,"neg":-17,"zero":0,"e":1e3}"#).unwrap();
    assert_eq!(v.get("min").and_then(|n| n.as_i64()), Some(i64::MIN));
    assert_eq!(v.get("max").and_then(|n| n.as_i64()), Some(i64::MAX));
    assert_eq!(v.get("over").and_then(|n| n.as_i64()), None);
    assert_eq!(v.get("neg").and_then(|n| n.as_i64()), Some(-17));
    assert_eq!(v.get("zero").and_then(|n| n.as_i64()), Some(0));
    assert_eq!(v.get("e").and_then(|n| n.as_i64()), None);
    assert_eq!(JsonValue::Number("-".to_string()).as_i64(), None);
    assert_eq!(JsonValue::String("5".to_string()).as_i64(), None);
}

#[test]
fn clone_copies_the_whole_document() {
    let v = JsonValue::parse(r#"{"a":[1,"x",null,true,{"b":2.5}],"c":"d"}"#).unwrap();
    let w = v.clone();
    assert_eq!(format!("{:?}", v), format!("{:?}", w));
    assert_eq!(w.get("c").and_then(|c| c.as_str()), Some("d"));
}
