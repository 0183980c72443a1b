//! Tests of the scalar coercion rule.

use nerpa_controller::record::Record;
use nerpa_controller::translate::extract_record_value;

#[test]
fn booleans_coerce_to_one_and_zero() {
    assert_eq!(extract_record_value(&Record::Bool(true)), 1);
    assert_eq!(extract_record_value(&Record::Bool(false)), 0);
}

#[test]
fn integers_in_range_coerce_to_themselves() {
    assert_eq!(extract_record_value(&Record::Int(0)), 0);
    assert_eq!(extract_record_value(&Record::Int(5)), 5);
    assert_eq!(extract_record_value(&Record::Int(65535)), 65535);
}

#[test]
fn integers_out_of_range_coerce_to_zero() {
    assert_eq!(extract_record_value(&Record::Int(65536)), 0);
    assert_eq!(extract_record_value(&Record::Int(-1)), 0);
    assert_eq!(extract_record_value(&Record::Int(1 << 40)), 0);
}

#[test]
fn other_variants_coerce_to_one() {
    assert_eq!(extract_record_value(&Record::Str("x".to_string())), 1);
    assert_eq!(
        extract_record_value(&Record::NamedStruct("T".to_string(), vec![])),
        1
    );
}

#[test]
fn coercion_of_the_same_value_is_stable() {
    let r = Record::Int(321);
    assert_eq!(extract_record_value(&r), extract_record_value(&r));
    let s = Record::Str("p".to_string());
    assert_eq!(extract_record_value(&s), extract_record_value(&s));
}
