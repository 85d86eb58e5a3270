use permguard::json::{Json, JsonMap};
use permguard::mapper::map_service::{EncodeError, MapService, MAX_DEPTH};
use permguard::pdp::{Kind, ListValue, Struct, Value};

fn map_of(entries: Vec<(&str, Json)>) -> JsonMap {
    let mut m = JsonMap::new();
    for (k, v) in entries {
        m.insert(k.to_string(), v);
    }
    m
}

fn nested_arrays(levels: usize) -> Json {
    let mut v = Json::Number(1.0f64.to_bits());
    for _ in 0..levels {
        v = Json::Array(vec![v]);
    }
    v
}

#[test]
fn round_trip_keeps_nested_value() {
    let inner = map_of(vec![
        ("flag", Json::Bool(true)),
        ("none", Json::Null),
        ("n", Json::Number(42.0f64.to_bits())),
    ]);
    let v = Json::Object(map_of(vec![
        ("name", Json::String("alice".to_string())),
        ("age", Json::Number(9007199254740991.0f64.to_bits())),
        ("tags", Json::Array(vec![Json::String("a".to_string()), Json::Number((-3.5f64).to_bits())])),
        ("inner", Json::Object(inner)),
        ("empty", Json::Object(JsonMap::new())),
        ("list", Json::Array(vec![])),
    ]));
    let wire = MapService::convert_to_value(&v, MAX_DEPTH).unwrap();
    let back = MapService::convert_from_value(&wire);
    assert_eq!(back, v);
}

#[test]
fn scalars_encode_to_matching_variants() {
    let w = MapService::convert_to_value(&Json::Null, MAX_DEPTH).unwrap();
    assert_eq!(w, Value { kind: Some(Kind::NullValue(0)) });
    let w = MapService::convert_to_value(&Json::Bool(false), MAX_DEPTH).unwrap();
    assert_eq!(w, Value { kind: Some(Kind::BoolValue(false)) });
    let w = MapService::convert_to_value(&Json::Number(2.5f64.to_bits()), MAX_DEPTH).unwrap();
    assert_eq!(w, Value { kind: Some(Kind::NumberValue(2.5f64.to_bits())) });
    let w = MapService::convert_to_value(&Json::String("x".to_string()), MAX_DEPTH).unwrap();
    assert_eq!(w, Value { kind: Some(Kind::StringValue("x".to_string())) });
}

#[test]
fn array_encodes_to_list_in_order() {
    let v = Json::Array(vec![Json::Bool(true), Json::String("b".to_string())]);
    let w = MapService::convert_to_value(&v, MAX_DEPTH).unwrap();
    let expected = Value {
        kind: Some(Kind::ListValue(ListValue {
            values: vec![
                Value { kind: Some(Kind::BoolValue(true)) },
                Value { kind: Some(Kind::StringValue("b".to_string())) },
            ],
        })),
    };
    assert_eq!(w, expected);
}

#[test]
fn unset_kind_decodes_to_null() {
    let back = MapService::convert_from_value(&Value { kind: None });
    assert_eq!(back, Json::Null);
}

#[test]
fn non_finite_number_decodes_to_null() {
    let nan = Value { kind: Some(Kind::NumberValue(f64::NAN.to_bits())) };
    assert_eq!(MapService::convert_from_value(&nan), Json::Null);
    let inf = Value { kind: Some(Kind::NumberValue(f64::INFINITY.to_bits())) };
    assert_eq!(MapService::convert_from_value(&inf), Json::Null);
    let fin = Value { kind: Some(Kind::NumberValue(7.0f64.to_bits())) };
    assert_eq!(MapService::convert_from_value(&fin), Json::Number(7.0f64.to_bits()));
}

#[test]
fn nesting_at_the_limit_is_accepted() {
    let v = nested_arrays(MAX_DEPTH);
    assert!(MapService::convert_to_value(&v, MAX_DEPTH).is_ok());
}

#[test]
fn nesting_past_the_limit_is_refused() {
    let v = nested_arrays(MAX_DEPTH + 1);
    assert_eq!(MapService::convert_to_value(&v, MAX_DEPTH), Err(EncodeError::TooDeep));
    let m = map_of(vec![("deep", v)]);
    assert_eq!(MapService::from_dictionary(Some(&m)), Err(EncodeError::TooDeep));
}

#[test]
fn absent_map_encodes_to_empty_struct() {
    let st = MapService::from_dictionary(None).unwrap();
    assert_eq!(st.fields.len(), 0);
}

#[test]
fn map_encodes_each_entry() {
    let m = map_of(vec![("a", Json::Bool(true)), ("b", Json::Null)]);
    let st = MapService::from_dictionary(Some(&m)).unwrap();
    assert_eq!(st.fields.len(), 2);
    assert_eq!(st.fields[0].0, "a");
    assert_eq!(st.fields[0].1, Value { kind: Some(Kind::BoolValue(true)) });
    assert_eq!(st.fields[1].0, "b");
    assert_eq!(st.fields[1].1, Value { kind: Some(Kind::NullValue(0)) });
}

#[test]
fn entity_holes_are_dropped() {
    let a = map_of(vec![("id", Json::String("A".to_string()))]);
    let b = map_of(vec![("id", Json::String("B".to_string()))]);
    let items = vec![Some(a), None, Some(b)];
    let list = MapService::to_repeated_struct(Some(&items)).unwrap();
    assert_eq!(list.len(), 2);
    assert_eq!(list[0].fields[0].1, Value { kind: Some(Kind::StringValue("A".to_string())) });
    assert_eq!(list[1].fields[0].1, Value { kind: Some(Kind::StringValue("B".to_string())) });
}

#[test]
fn absent_entity_list_encodes_to_empty_list() {
    let list = MapService::to_repeated_struct(None).unwrap();
    assert!(list.is_empty());
}

#[test]
fn struct_decodes_to_map() {
    let st = Struct {
        fields: vec![
            ("x".to_string(), Value { kind: Some(Kind::NumberValue(3.0f64.to_bits())) }),
            ("y".to_string(), Value { kind: Some(Kind::StringValue("v".to_string())) }),
        ],
    };
    let m = MapService::to_dictionary(&st);
    let expected = map_of(vec![
        ("x", Json::Number(3.0f64.to_bits())),
        ("y", Json::String("v".to_string())),
    ]);
    assert_eq!(m, expected);
}

#[test]
fn insert_replaces_value_of_same_key() {
    let mut m = JsonMap::new();
    m.insert("k".to_string(), Json::Bool(false));
    m.insert("j".to_string(), Json::Null);
    m.insert("k".to_string(), Json::Bool(true));
    assert_eq!(m.len(), 2);
    assert_eq!(m.entries[0], ("k".to_string(), Json::Bool(true)));
    assert_eq!(m.entries[1], ("j".to_string(), Json::Null));
}

#[test]
fn deep_copy_copies_or_gives_empty() {
    let m = map_of(vec![("a", Json::Array(vec![Json::Null]))]);
    assert_eq!(permguard::json::deep_copy(Some(&m)), m);
    assert_eq!(permguard::json::deep_copy(None).len(), 0);
    let c = m.clone();
    assert_eq!(c, m);
}
