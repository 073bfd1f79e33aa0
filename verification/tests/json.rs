use nix_parser::json::from_json;
use nix_parser::json::ConversionError;
use nix_parser::resolver::find_key_pair;
use nix_parser::value::DynamicValue;

#[test]
fn scalars_convert() {
    assert_eq!(from_json(&serde_json::Value::Null), Ok(DynamicValue::Null));
    assert_eq!(
        from_json(&serde_json::Value::Bool(true)),
        Ok(DynamicValue::Bool(true))
    );
    assert_eq!(
        from_json(&serde_json::Value::String("hi".to_string())),
        Ok(DynamicValue::Str("hi".to_string()))
    );
}

#[test]
fn integral_numbers_in_signed_range_become_integers() {
    let v = serde_json::Value::Number(serde_json::Number::from(42i64));
    assert_eq!(from_json(&v), Ok(DynamicValue::Int(42)));
    let min = serde_json::Value::Number(serde_json::Number::from(i64::MIN));
    assert_eq!(from_json(&min), Ok(DynamicValue::Int(i64::MIN)));
    let max = serde_json::Value::Number(serde_json::Number::from(i64::MAX));
    assert_eq!(from_json(&max), Ok(DynamicValue::Int(i64::MAX)));
}

#[test]
fn other_numbers_become_floats() {
    let v: serde_json::Value = serde_json::from_str("2.5").unwrap();
    assert_eq!(from_json(&v), Ok(DynamicValue::Float("2.5".to_string())));
    // An exact integer beyond 64-bit signed range is not an integer here.
    let big = serde_json::Value::Number(serde_json::Number::from(u64::MAX));
    assert_eq!(
        from_json(&big),
        Ok(DynamicValue::Float("18446744073709551615".to_string()))
    );
}

#[test]
fn arrays_keep_element_order() {
    let v: serde_json::Value = serde_json::from_str(r#"[1, "two", null]"#).unwrap();
    assert_eq!(
        from_json(&v),
        Ok(DynamicValue::Arr(vec![
            DynamicValue::Int(1),
            DynamicValue::Str("two".to_string()),
            DynamicValue::Null,
        ]))
    );
}

#[test]
fn objects_keep_insertion_order() {
    let v: serde_json::Value = serde_json::from_str(r#"{"zeta": 1, "alpha": 2, "mid": 3}"#).unwrap();
    assert_eq!(
        from_json(&v),
        Ok(DynamicValue::Obj(vec![
            ("zeta".to_string(), DynamicValue::Int(1)),
            ("alpha".to_string(), DynamicValue::Int(2)),
            ("mid".to_string(), DynamicValue::Int(3)),
        ]))
    );
}

#[test]
fn conversion_rejects_too_deep_trees() {
    let mut v = serde_json::Value::Null;
    for _ in 0..300 {
        v = serde_json::Value::Array(vec![v]);
    }
    assert_eq!(from_json(&v), Err(ConversionError::TooDeep));
}

#[test]
fn parsed_tree_feeds_the_resolver() {
    // The serialized shape a parsed `{ a = 1; b = { c = 2; }; }` takes in the
    // boundary format.
    let text = r#"{
        "expression": {
            "Map": {
                "recursive": false,
                "bindings": [
                    {"KeyValue": {
                        "from": [{"Raw": {"content": "a",
                            "span": {"start": {"line": 1, "column": 3}, "end": {"line": 1, "column": 4}}}}],
                        "to": {"Integer": {"value": "1",
                            "span": {"start": {"line": 1, "column": 7}, "end": {"line": 1, "column": 8}}}}
                    }},
                    {"KeyValue": {
                        "from": [{"Raw": {"content": "b",
                            "span": {"start": {"line": 1, "column": 10}, "end": {"line": 1, "column": 11}}}}],
                        "to": {"Map": {"recursive": false, "bindings": [
                            {"KeyValue": {
                                "from": [{"Raw": {"content": "c",
                                    "span": {"start": {"line": 1, "column": 16}, "end": {"line": 1, "column": 17}}}}],
                                "to": {"Integer": {"value": "2",
                                    "span": {"start": {"line": 1, "column": 20}, "end": {"line": 1, "column": 21}}}}
                            }}
                        ], "span": {"start": {"line": 1, "column": 14}, "end": {"line": 1, "column": 24}}}}
                    }}
                ],
                "span": {"start": {"line": 1, "column": 1}, "end": {"line": 1, "column": 26}}
            }
        }
    }"#;
    let value: serde_json::Value = serde_json::from_str(text).unwrap();
    let tree = from_json(&value).unwrap();
    match find_key_pair(&tree, "a").unwrap() {
        Some(DynamicValue::Obj(entries)) => {
            assert_eq!(entries[0].0, "Integer");
        }
        other => panic!("expected an Integer node, found {:?}", other),
    }
    assert!(find_key_pair(&tree, "c").unwrap().is_some());
    assert_eq!(find_key_pair(&tree, "missing"), Ok(None));
}

#[test]
fn conversion_is_deterministic() {
    let text = r#"{"a": [1, 2.5, {"b": null}], "c": "x"}"#;
    let first: serde_json::Value = serde_json::from_str(text).unwrap();
    let second: serde_json::Value = serde_json::from_str(text).unwrap();
    assert_eq!(from_json(&first), from_json(&second));
    assert_eq!(from_json(&first), from_json(&first));
}
