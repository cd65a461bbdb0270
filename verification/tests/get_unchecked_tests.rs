use tuple_set::Tuple;
use tuple_set::TupleSet;
use tuple_set::TypeTag;
use tuple_set::Value;

#[test]
fn test_get_unchecked_simple() {
    let tuple = Tuple::new(vec![
        Value::I32(42),
        Value::Str("hello".to_string()),
        Value::F64(2.5f64.to_bits()),
    ])
    .unwrap();
    let value = tuple.get_unchecked(TypeTag::I32);
    assert_eq!(*value, Value::I32(42));
}

#[test]
fn test_get_unchecked_multiple_accesses() {
    let tuple = Tuple::new(vec![
        Value::I32(42),
        Value::Str("test".to_string()),
        Value::F64(2.5f64.to_bits()),
    ])
    .unwrap();
    let value = tuple.get_unchecked(TypeTag::I32);
    assert_eq!(*value, Value::I32(42));
    let value = tuple.get_unchecked(TypeTag::Str);
    assert_eq!(*value, Value::Str("test".to_string()));
    let value = tuple.get_unchecked(TypeTag::F64);
    assert_eq!(*value, Value::F64(2.5f64.to_bits()));
}

#[test]
fn test_get_unchecked_with_duplicates() {
    let tuple = Tuple::new(vec![
        Value::I32(42),
        Value::I32(100),
        Value::Str("hello".to_string()),
    ])
    .unwrap();
    // Should get the first occurrence
    let value = tuple.get_unchecked(TypeTag::I32);
    assert_eq!(*value, Value::I32(42));
}

#[test]
fn test_get_unchecked_single_element() {
    let tuple = Tuple::new(vec![Value::I32(999)]).unwrap();
    let value = tuple.get_unchecked(TypeTag::I32);
    assert_eq!(*value, Value::I32(999));
}

#[test]
fn test_get_unchecked_large_tuple() {
    let tuple = Tuple::new(vec![
        Value::I32(1),
        Value::U32(2),
        Value::I64(3),
        Value::U64(4),
        Value::F32(5.0f32.to_bits()),
        Value::F64(6.0f64.to_bits()),
        Value::Bool(true),
        Value::Char('x'),
    ])
    .unwrap();
    let value = tuple.get_unchecked(TypeTag::Bool);
    assert_eq!(*value, Value::Bool(true));

    let value = tuple.get_unchecked(TypeTag::Char);
    assert_eq!(*value, Value::Char('x'));
}
