use nix_parser::bridge::from_host;
use nix_parser::bridge::to_host;
use nix_parser::value::DepthError;
use nix_parser::bridge::HostValue;
use nix_parser::value::DynamicValue;

/// A small tree exercising all six shapes, with several map keys in a fixed
/// insertion order.
fn sample_value() -> DynamicValue {
    DynamicValue::Obj(vec![
        ("zeta".to_string(), DynamicValue::Null),
        ("alpha".to_string(), DynamicValue::Bool(true)),
        (
            "items".to_string(),
            DynamicValue::Arr(vec![
                DynamicValue::Int(-7),
                DynamicValue::Float("2.5".to_string()),
                DynamicValue::Str("text".to_string()),
            ]),
        ),
    ])
}

#[test]
fn to_host_converts_every_shape() {
    let host = to_host(&sample_value()).unwrap();
    let expected = HostValue::Dict(vec![
        ("zeta".to_string(), HostValue::Null),
        ("alpha".to_string(), HostValue::Bool(true)),
        (
            "items".to_string(),
            HostValue::List(vec![
                HostValue::Int(-7),
                HostValue::Float("2.5".to_string()),
                HostValue::Str("text".to_string()),
            ]),
        ),
    ]);
    assert_eq!(host, expected);
}

#[test]
fn round_trip_reproduces_value_and_order() {
    let original = sample_value();
    let host = to_host(&original).unwrap();
    let back = from_host(&host).unwrap();
    assert_eq!(back, original);
}

#[test]
fn round_trip_keeps_duplicate_and_reordered_keys() {
    let original = DynamicValue::Obj(vec![
        ("b".to_string(), DynamicValue::Int(1)),
        ("a".to_string(), DynamicValue::Int(2)),
        ("b".to_string(), DynamicValue::Int(3)),
    ]);
    let back = from_host(&to_host(&original).unwrap()).unwrap();
    assert_eq!(back, original);
}

#[test]
fn empty_composites_convert() {
    let original = DynamicValue::Arr(vec![DynamicValue::Obj(vec![]), DynamicValue::Arr(vec![])]);
    let host = to_host(&original).unwrap();
    assert_eq!(
        host,
        HostValue::List(vec![HostValue::Dict(vec![]), HostValue::List(vec![])])
    );
    assert_eq!(from_host(&host).unwrap(), original);
}

#[test]
fn to_host_rejects_too_deep_trees() {
    // 256 wrappers around a scalar give depth 257, one past the ceiling.
    let mut v = DynamicValue::Null;
    for _ in 0..256 {
        v = DynamicValue::Arr(vec![v]);
    }
    assert_eq!(to_host(&v), Err(DepthError::TooDeep));
}

#[test]
fn to_host_accepts_trees_at_the_depth_ceiling() {
    // 255 wrappers around a scalar give depth 256, exactly the ceiling.
    let mut v = DynamicValue::Null;
    for _ in 0..255 {
        v = DynamicValue::Arr(vec![v]);
    }
    assert!(to_host(&v).is_ok());
}

#[test]
fn from_host_rejects_too_deep_trees() {
    let mut h = HostValue::Int(0);
    for _ in 0..256 {
        h = HostValue::Dict(vec![("k".to_string(), h)]);
    }
    assert_eq!(from_host(&h), Err(DepthError::TooDeep));
}
