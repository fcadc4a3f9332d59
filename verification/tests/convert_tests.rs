//! The converter on concrete trees: numeric classification, scalars, and
//! order preservation for sequences and maps.

use fswatch::convert::convert;
use fswatch::value::DynamicValue;
use fswatch::value::SerializedValue;

#[test]
fn null_converts_to_null() {
    assert_eq!(convert(&SerializedValue::Null), DynamicValue::Null);
}

#[test]
fn bool_preserved_exactly() {
    assert_eq!(convert(&SerializedValue::Bool(true)), DynamicValue::Bool(true));
    assert_eq!(convert(&SerializedValue::Bool(false)), DynamicValue::Bool(false));
}

#[test]
fn unsigned_integers_become_uint64() {
    assert_eq!(convert(&SerializedValue::NumU(0)), DynamicValue::UInt64(0));
    assert_eq!(convert(&SerializedValue::NumU(1)), DynamicValue::UInt64(1));
    assert_eq!(
        convert(&SerializedValue::NumU(u64::MAX)),
        DynamicValue::UInt64(u64::MAX)
    );
}

#[test]
fn negative_integers_become_int64() {
    assert_eq!(convert(&SerializedValue::NumI(-1)), DynamicValue::Int64(-1));
    assert_eq!(
        convert(&SerializedValue::NumI(i64::MIN)),
        DynamicValue::Int64(i64::MIN)
    );
}

#[test]
fn nonnegative_signed_integers_become_uint64() {
    assert_eq!(convert(&SerializedValue::NumI(0)), DynamicValue::UInt64(0));
    assert_eq!(convert(&SerializedValue::NumI(5)), DynamicValue::UInt64(5));
    assert_eq!(
        convert(&SerializedValue::NumI(i64::MAX)),
        DynamicValue::UInt64(i64::MAX as u64)
    );
}

#[test]
fn non_integral_numbers_become_float64_with_same_bits() {
    let bits = 2.5f64.to_bits();
    assert_eq!(
        convert(&SerializedValue::NumF(bits)),
        DynamicValue::Float64(bits)
    );
    let neg = (-0.125f64).to_bits();
    assert_eq!(
        convert(&SerializedValue::NumF(neg)),
        DynamicValue::Float64(neg)
    );
}

#[test]
fn strings_preserved_byte_for_byte() {
    assert_eq!(
        convert(&SerializedValue::Text("héllo".to_string())),
        DynamicValue::Text("héllo".to_string())
    );
}

#[test]
fn sequences_convert_elementwise_in_order() {
    let input = SerializedValue::Arr(vec![
        SerializedValue::NumU(1),
        SerializedValue::NumI(-2),
        SerializedValue::Text("x".to_string()),
    ]);
    let expected = DynamicValue::Sequence(vec![
        DynamicValue::UInt64(1),
        DynamicValue::Int64(-2),
        DynamicValue::Text("x".to_string()),
    ]);
    assert_eq!(convert(&input), expected);
}

#[test]
fn empty_sequence_and_empty_map_convert() {
    assert_eq!(
        convert(&SerializedValue::Arr(vec![])),
        DynamicValue::Sequence(vec![])
    );
    assert_eq!(
        convert(&SerializedValue::Obj(vec![])),
        DynamicValue::Mapping(vec![])
    );
}

#[test]
fn map_key_order_is_source_order_not_sorted() {
    let input = SerializedValue::Obj(vec![
        ("zeta".to_string(), SerializedValue::NumU(1)),
        ("alpha".to_string(), SerializedValue::Null),
    ]);
    let expected = DynamicValue::Mapping(vec![
        ("zeta".to_string(), DynamicValue::UInt64(1)),
        ("alpha".to_string(), DynamicValue::Null),
    ]);
    assert_eq!(convert(&input), expected);
}

#[test]
fn nested_trees_convert_recursively() {
    let input = SerializedValue::Obj(vec![(
        "outer".to_string(),
        SerializedValue::Arr(vec![SerializedValue::Obj(vec![(
            "inner".to_string(),
            SerializedValue::Arr(vec![SerializedValue::Bool(true)]),
        )])]),
    )]);
    let expected = DynamicValue::Mapping(vec![(
        "outer".to_string(),
        DynamicValue::Sequence(vec![DynamicValue::Mapping(vec![(
            "inner".to_string(),
            DynamicValue::Sequence(vec![DynamicValue::Bool(true)]),
        )])]),
    )]);
    assert_eq!(convert(&input), expected);
}
