//! Parsing JSON texts into serialized trees and converting them: the whole
//! generic pipeline, including numeric classification and key order.

use fswatch::convert::convert;
use fswatch::json::parse_serialized;
use fswatch::value::DynamicValue;
use fswatch::value::SerializedValue;

#[test]
fn example_document_converts_to_expected_tree() {
    let sv = parse_serialized("{\"a\": [1, 2.5, \"x\"], \"b\": null}").unwrap();
    let expected = DynamicValue::Mapping(vec![
        (
            "a".to_string(),
            DynamicValue::Sequence(vec![
                DynamicValue::UInt64(1),
                DynamicValue::Float64(2.5f64.to_bits()),
                DynamicValue::Text("x".to_string()),
            ]),
        ),
        ("b".to_string(), DynamicValue::Null),
    ]);
    assert_eq!(convert(&sv), expected);
}

#[test]
fn parse_reads_scalars() {
    assert_eq!(parse_serialized("null").unwrap(), SerializedValue::Null);
    assert_eq!(parse_serialized("true").unwrap(), SerializedValue::Bool(true));
    assert_eq!(parse_serialized("7").unwrap(), SerializedValue::NumU(7));
    assert_eq!(parse_serialized("-7").unwrap(), SerializedValue::NumI(-7));
    assert_eq!(
        parse_serialized("0.5").unwrap(),
        SerializedValue::NumF(0.5f64.to_bits())
    );
    assert_eq!(
        parse_serialized("\"hi\"").unwrap(),
        SerializedValue::Text("hi".to_string())
    );
}

#[test]
fn parse_keeps_source_key_order() {
    let sv = parse_serialized("{\"zeta\": 1, \"alpha\": 2, \"mid\": 3}").unwrap();
    match sv {
        SerializedValue::Obj(entries) => {
            let keys: Vec<&str> = entries.iter().map(|e| e.0.as_str()).collect();
            assert_eq!(keys, vec!["zeta", "alpha", "mid"]);
        }
        other => panic!("expected an object, got {:?}", other),
    }
}

#[test]
fn parse_rejects_invalid_json() {
    assert!(parse_serialized("{not json").is_none());
    assert!(parse_serialized("").is_none());
}

#[test]
fn large_unsigned_and_large_negative_integers_classified() {
    assert_eq!(
        parse_serialized("18446744073709551615").unwrap(),
        SerializedValue::NumU(u64::MAX)
    );
    assert_eq!(
        parse_serialized("-9223372036854775808").unwrap(),
        SerializedValue::NumI(i64::MIN)
    );
}

#[test]
fn integer_beyond_u64_range_falls_back_to_float() {
    let sv = parse_serialized("18446744073709551616").unwrap();
    assert_eq!(sv, SerializedValue::NumF(18446744073709551616.0f64.to_bits()));
}
