use nix_parser::resolver::find_key_pair;
use nix_parser::value::DepthError;
use nix_parser::resolver::process_keyvalue;
use nix_parser::value::DynamicValue;

/// A `Raw` part in dynamic-value shape.
fn raw_part(content: &str) -> DynamicValue {
    DynamicValue::Obj(vec![(
        "Raw".to_string(),
        DynamicValue::Obj(vec![(
            "content".to_string(),
            DynamicValue::Str(content.to_string()),
        )]),
    )])
}

/// A `KeyValue` binding node in dynamic-value shape: `key = value`.
fn kv_node(key: &str, value: DynamicValue) -> DynamicValue {
    DynamicValue::Obj(vec![(
        "KeyValue".to_string(),
        DynamicValue::Obj(vec![
            (
                "from".to_string(),
                DynamicValue::Arr(vec![raw_part(key)]),
            ),
            ("to".to_string(), value),
        ]),
    )])
}

#[test]
fn first_match_shadows_later_bindings() {
    let tree = DynamicValue::Arr(vec![
        kv_node("a", DynamicValue::Int(1)),
        kv_node("b", DynamicValue::Int(1)),
        kv_node("c", DynamicValue::Int(2)),
        kv_node("b", DynamicValue::Int(2)),
    ]);
    assert_eq!(find_key_pair(&tree, "b"), Ok(Some(&DynamicValue::Int(1))));
    assert_eq!(find_key_pair(&tree, "z"), Ok(None));
}

#[test]
fn nested_reach_through_map_values() {
    // Equivalent to `{ a = 1; b = { c = 2; }; }`.
    let inner = DynamicValue::Obj(vec![(
        "Map".to_string(),
        DynamicValue::Obj(vec![(
            "bindings".to_string(),
            DynamicValue::Arr(vec![kv_node("c", DynamicValue::Int(2))]),
        )]),
    )]);
    let tree = DynamicValue::Obj(vec![(
        "Map".to_string(),
        DynamicValue::Obj(vec![(
            "bindings".to_string(),
            DynamicValue::Arr(vec![
                kv_node("a", DynamicValue::Int(1)),
                kv_node("b", inner),
            ]),
        )]),
    )]);
    assert_eq!(find_key_pair(&tree, "a"), Ok(Some(&DynamicValue::Int(1))));
    assert_eq!(find_key_pair(&tree, "c"), Ok(Some(&DynamicValue::Int(2))));
    assert_eq!(find_key_pair(&tree, "missing"), Ok(None));
}

#[test]
fn tolerates_unanticipated_shapes() {
    let tree = DynamicValue::Obj(vec![
        ("x".to_string(), DynamicValue::Arr(vec![
            DynamicValue::Null,
            DynamicValue::Bool(true),
            DynamicValue::Float("2.5".to_string()),
            DynamicValue::Arr(vec![DynamicValue::Obj(vec![(
                "deep".to_string(),
                DynamicValue::Arr(vec![DynamicValue::Str("leaf".to_string())]),
            )])]),
        ])),
        ("y".to_string(), DynamicValue::Int(7)),
    ]);
    assert_eq!(find_key_pair(&tree, "x"), Ok(None));
    assert_eq!(find_key_pair(&tree, "deep"), Ok(None));
    assert_eq!(find_key_pair(&tree, "leaf"), Ok(None));
}

#[test]
fn repeated_searches_return_equal_results() {
    let tree = DynamicValue::Arr(vec![
        kv_node("k", DynamicValue::Str("v".to_string())),
    ]);
    let first = find_key_pair(&tree, "k");
    let second = find_key_pair(&tree, "k");
    assert_eq!(first, second);
    let absent_first = find_key_pair(&tree, "nope");
    let absent_second = find_key_pair(&tree, "nope");
    assert_eq!(absent_first, absent_second);
}

#[test]
fn multi_segment_path_is_not_eligible() {
    // `from` holds two Raw parts, so the binding is skipped even though one
    // part's content equals the key.
    let tree = DynamicValue::Obj(vec![(
        "KeyValue".to_string(),
        DynamicValue::Obj(vec![
            (
                "from".to_string(),
                DynamicValue::Arr(vec![raw_part("x"), raw_part("b")]),
            ),
            ("to".to_string(), DynamicValue::Int(9)),
        ]),
    )]);
    assert_eq!(find_key_pair(&tree, "b"), Ok(None));
}

#[test]
fn interpolated_path_is_not_eligible() {
    let tree = DynamicValue::Obj(vec![(
        "KeyValue".to_string(),
        DynamicValue::Obj(vec![
            (
                "from".to_string(),
                DynamicValue::Arr(vec![DynamicValue::Obj(vec![(
                    "Interpolation".to_string(),
                    DynamicValue::Obj(vec![]),
                )])]),
            ),
            ("to".to_string(), DynamicValue::Int(9)),
        ]),
    )]);
    assert_eq!(find_key_pair(&tree, "b"), Ok(None));
}

#[test]
fn local_match_preempts_descent() {
    // The same map binds `k` directly and carries a nested binding of `k`;
    // the direct one wins.
    let nested = kv_node("k", DynamicValue::Int(2));
    let tree = DynamicValue::Obj(vec![
        (
            "KeyValue".to_string(),
            DynamicValue::Obj(vec![
                (
                    "from".to_string(),
                    DynamicValue::Arr(vec![raw_part("k")]),
                ),
                ("to".to_string(), DynamicValue::Int(1)),
            ]),
        ),
        ("other".to_string(), nested),
    ]);
    assert_eq!(find_key_pair(&tree, "k"), Ok(Some(&DynamicValue::Int(1))));
}

#[test]
fn process_keyvalue_matches_only_locally() {
    let direct = kv_node("k", DynamicValue::Int(5));
    assert_eq!(process_keyvalue(&direct, "k"), Some(&DynamicValue::Int(5)));
    assert_eq!(process_keyvalue(&direct, "other"), None);
    // A nested binding is not a local match.
    let wrapped = DynamicValue::Obj(vec![("inner".to_string(), direct)]);
    assert_eq!(process_keyvalue(&wrapped, "k"), None);
    assert_eq!(find_key_pair(&wrapped, "k"), Ok(Some(&DynamicValue::Int(5))));
}

#[test]
fn binding_without_to_is_skipped() {
    let tree = DynamicValue::Obj(vec![(
        "KeyValue".to_string(),
        DynamicValue::Obj(vec![(
            "from".to_string(),
            DynamicValue::Arr(vec![raw_part("k")]),
        )]),
    )]);
    assert_eq!(find_key_pair(&tree, "k"), Ok(None));
}

#[test]
fn scalars_never_match() {
    assert_eq!(find_key_pair(&DynamicValue::Null, "k"), Ok(None));
    assert_eq!(find_key_pair(&DynamicValue::Bool(false), "k"), Ok(None));
    assert_eq!(find_key_pair(&DynamicValue::Int(3), "k"), Ok(None));
    assert_eq!(find_key_pair(&DynamicValue::Str("k".to_string()), "k"), Ok(None));
}

#[test]
fn search_rejects_too_deep_trees() {
    let mut tree = kv_node("k", DynamicValue::Int(1));
    for _ in 0..300 {
        tree = DynamicValue::Arr(vec![tree]);
    }
    assert_eq!(find_key_pair(&tree, "k"), Err(DepthError::TooDeep));
}

#[test]
fn search_reaches_the_depth_ceiling() {
    // 200 wrappers around a binding keep the tree within the ceiling, so
    // the binding is still found.
    let mut tree = kv_node("k", DynamicValue::Int(1));
    for _ in 0..200 {
        tree = DynamicValue::Arr(vec![tree]);
    }
    assert_eq!(find_key_pair(&tree, "k"), Ok(Some(&DynamicValue::Int(1))));
}
