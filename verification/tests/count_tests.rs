use tuple_set::Tuple;
use tuple_set::TupleContains;
use tuple_set::TypeTag;
use tuple_set::Value;

#[test]
fn test_count_single_occurrence() {
    let tuple = Tuple::new(vec![
        Value::I32(42),
        Value::Str("hello".to_string()),
        Value::F64(2.5f64.to_bits()),
    ])
    .unwrap();
    assert_eq!(tuple.count(TypeTag::I32), 1);
    assert_eq!(tuple.count(TypeTag::Str), 1);
    assert_eq!(tuple.count(TypeTag::F64), 1);
}

#[test]
fn test_count_not_found() {
    let tuple = Tuple::new(vec![
        Value::I32(42),
        Value::Str("hello".to_string()),
        Value::F64(2.5f64.to_bits()),
    ])
    .unwrap();
    assert_eq!(tuple.count(TypeTag::Bool), 0);
    assert_eq!(tuple.count(TypeTag::Char), 0);
}

#[test]
fn count_tests_test_count_duplicates() {
    let tuple = Tuple::new(vec![
        Value::I32(42),
        Value::Str("hello".to_string()),
        Value::I32(100),
    ])
    .unwrap();
    assert_eq!(tuple.count(TypeTag::I32), 2);
}

#[test]
fn test_count_many_duplicates() {
    let tuple = Tuple::new(vec![
        Value::I32(1),
        Value::I32(2),
        Value::I32(3),
        Value::I32(4),
        Value::I32(5),
    ])
    .unwrap();
    assert_eq!(tuple.count(TypeTag::I32), 5);
}

#[test]
fn test_contains_unique_true() {
    let tuple = Tuple::new(vec![
        Value::I32(42),
        Value::Str("hello".to_string()),
        Value::F64(2.5f64.to_bits()),
    ])
    .unwrap();
    assert!(tuple.contains_unique(TypeTag::I32));
    assert!(tuple.contains_unique(TypeTag::Str));
    assert!(tuple.contains_unique(TypeTag::F64));
}

#[test]
fn test_contains_unique_false_not_found() {
    let tuple = Tuple::new(vec![
        Value::I32(42),
        Value::Str("hello".to_string()),
        Value::F64(2.5f64.to_bits()),
    ])
    .unwrap();
    assert!(!tuple.contains_unique(TypeTag::Bool));
}

#[test]
fn test_contains_unique_false_duplicates() {
    let tuple = Tuple::new(vec![
        Value::I32(42),
        Value::Str("hello".to_string()),
        Value::I32(100),
    ])
    .unwrap();
    assert!(!tuple.contains_unique(TypeTag::I32));
}
