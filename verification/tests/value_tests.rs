use valuepath::Table;
use valuepath::Value;

fn sample_values() -> Vec<Value> {
    vec![
        Value::String("hello".to_owned()),
        Value::Integer(42),
        Value::Float(3.5f64.to_bits()),
        Value::Boolean(true),
        Value::Datetime("1979-05-27T07:32:00Z".to_owned()),
        Value::Array(vec![Value::Integer(1), Value::Boolean(false)]),
        Value::Table(Table::new()),
    ]
}

#[test]
fn same_type_is_reflexive() {
    for v in sample_values() {
        assert!(v.same_type(&v));
    }
}

#[test]
fn same_type_is_symmetric() {
    let values = sample_values();
    for a in &values {
        for b in &values {
            assert_eq!(a.same_type(b), b.same_type(a));
        }
    }
}

#[test]
fn same_type_ignores_payload() {
    let a = Value::String("one".to_owned());
    let b = Value::String("two".to_owned());
    assert!(a.same_type(&b));
    let c = Value::Integer(1);
    let d = Value::Integer(-7);
    assert!(c.same_type(&d));
    assert!(!a.same_type(&c));
}

#[test]
fn type_str_names_are_stable() {
    let values = sample_values();
    let names: Vec<&str> = values.iter().map(|v| v.type_str()).collect();
    assert_eq!(
        names,
        vec!["string", "integer", "float", "boolean", "datetime", "array", "table"]
    );
}

#[test]
fn exactly_one_projector_is_present() {
    for (i, v) in sample_values().iter().enumerate() {
        let present = [
            v.as_str().is_some(),
            v.as_integer().is_some(),
            v.as_float().is_some(),
            v.as_bool().is_some(),
            v.as_datetime().is_some(),
            v.as_slice().is_some(),
            v.as_table().is_some(),
        ];
        let count = present.iter().filter(|p| **p).count();
        assert_eq!(count, 1, "value #{} must satisfy exactly one projector", i);
        assert!(present[i], "value #{} must satisfy its own projector", i);
    }
}

#[test]
fn type_str_agrees_with_projectors() {
    for v in sample_values() {
        match v.type_str() {
            "string" => assert!(v.as_str().is_some()),
            "integer" => assert!(v.as_integer().is_some()),
            "float" => assert!(v.as_float().is_some()),
            "boolean" => assert!(v.as_bool().is_some()),
            "datetime" => assert!(v.as_datetime().is_some()),
            "array" => assert!(v.as_slice().is_some()),
            "table" => assert!(v.as_table().is_some()),
            other => panic!("unexpected type name {}", other),
        }
    }
}

#[test]
fn projectors_return_the_payload() {
    assert_eq!(Value::String("abc".to_owned()).as_str(), Some("abc"));
    assert_eq!(Value::Integer(-3).as_integer(), Some(-3));
    assert_eq!(Value::Float(2.25f64.to_bits()).as_float(), Some(2.25f64.to_bits()));
    assert_eq!(Value::Boolean(false).as_bool(), Some(false));
    assert_eq!(
        Value::Datetime("1979-05-27T07:32:00Z".to_owned()).as_datetime(),
        Some("1979-05-27T07:32:00Z")
    );
    let arr = Value::Array(vec![Value::Integer(1), Value::Integer(2)]);
    let slice = arr.as_slice().unwrap();
    assert_eq!(slice.len(), 2);
    assert_eq!(slice[0].as_integer(), Some(1));
    assert_eq!(slice[1].as_integer(), Some(2));
}

#[test]
fn float_bits_round_trip() {
    let x = -12.75f64;
    let v = Value::Float(x.to_bits());
    assert_eq!(f64::from_bits(v.as_float().unwrap()), x);
}

#[test]
fn table_insert_and_get() {
    let mut t = Table::new();
    t.insert("port".to_owned(), Value::Integer(80));
    t.insert("host".to_owned(), Value::String("localhost".to_owned()));
    assert_eq!(t.len(), 2);
    assert_eq!(t.get("port").unwrap().as_integer(), Some(80));
    assert_eq!(t.get("host").unwrap().as_str(), Some("localhost"));
    assert!(t.get("missing").is_none());
}

#[test]
fn table_insert_replaces_equal_key() {
    let mut t = Table::new();
    t.insert("key".to_owned(), Value::Integer(1));
    t.insert("key".to_owned(), Value::Integer(2));
    assert_eq!(t.len(), 1);
    assert_eq!(t.get("key").unwrap().as_integer(), Some(2));
}

#[test]
fn table_entries_are_sorted_by_key() {
    let mut t = Table::new();
    t.insert("banana".to_owned(), Value::Integer(2));
    t.insert("apple".to_owned(), Value::Integer(1));
    t.insert("cherry".to_owned(), Value::Integer(3));
    let mut keys: Vec<String> = Vec::new();
    let mut i = 0;
    while let Some(entry) = t.entry(i) {
        keys.push(entry.0.clone());
        i += 1;
    }
    assert_eq!(keys, vec!["apple", "banana", "cherry"]);
    assert!(t.entry(3).is_none());
}

#[test]
fn empty_table_has_no_entries() {
    let t = Table::new();
    assert_eq!(t.len(), 0);
    assert!(t.entry(0).is_none());
    assert!(t.get("anything").is_none());
}
