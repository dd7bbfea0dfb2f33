use rorm::error::ErrorKind;
use rorm::json::{
    json_equals, json_to_bool, json_value_to_rorm_value, param_value_to_json, widen_f32, JsonObject,
    JsonValue,
};
use rorm::value::{FromValue, ToValue, Value};

fn round_trip(v: &Value) -> Value {
    let j = param_value_to_json(v).unwrap();
    json_value_to_rorm_value(&j).unwrap()
}

#[test]
fn round_trip_keeps_primitives() {
    assert_eq!(round_trip(&Value::Null), Value::Null);
    assert_eq!(round_trip(&Value::Bool(true)), Value::Bool(true));
    assert_eq!(round_trip(&Value::U64(7)), Value::U64(7));
    assert_eq!(round_trip(&Value::I64(-7)), Value::I64(-7));
    assert_eq!(round_trip(&Value::Str("abc".to_string())), Value::Str("abc".to_string()));
    let bits = 1.5f64.to_bits();
    assert_eq!(round_trip(&Value::F64(bits)), Value::F64(bits));
}

#[test]
fn round_trip_widens_narrow_integers() {
    assert_eq!(round_trip(&Value::U8(5)), Value::U64(5));
    assert_eq!(round_trip(&Value::I16(-3)), Value::I64(-3));
    assert_eq!(round_trip(&Value::I32(4)), Value::U64(4));
}

#[test]
fn bytes_have_no_json_form() {
    let r = param_value_to_json(&Value::Bytes(vec![1, 2]));
    assert_eq!(r.unwrap_err().error_kind(), ErrorKind::Argument);
}

#[test]
fn containers_have_no_value_form() {
    let a = JsonValue::Array { len: 1, text: "[1]".to_string() };
    assert_eq!(json_value_to_rorm_value(&a).unwrap_err().error_kind(), ErrorKind::FromValue);
}

#[test]
fn non_finite_floats_become_null() {
    let j = param_value_to_json(&Value::F64(f64::INFINITY.to_bits())).unwrap();
    assert!(matches!(j, JsonValue::Null));
}

#[test]
fn f32_widening_is_exact() {
    for x in [0.0f32, -0.0, 1.0, -2.5, 3.1415927, f32::MIN_POSITIVE, 1.0e-40, f32::MAX, f32::INFINITY] {
        assert_eq!(widen_f32(x.to_bits()), (x as f64).to_bits());
    }
}

#[test]
fn truthiness_of_json() {
    assert!(!json_to_bool(&JsonValue::Null));
    assert!(json_to_bool(&JsonValue::Bool(true)));
    assert!(!json_to_bool(&JsonValue::UInt(0)));
    assert!(json_to_bool(&JsonValue::NegInt(-1)));
    assert!(!json_to_bool(&JsonValue::Float((-0.0f64).to_bits())));
    assert!(json_to_bool(&JsonValue::Float(0.5f64.to_bits())));
    assert!(!json_to_bool(&JsonValue::Str(String::new())));
    assert!(json_to_bool(&JsonValue::Str("a".to_string())));
    assert!(!json_to_bool(&JsonValue::Array { len: 0, text: "[]".to_string() }));
    assert!(json_to_bool(&JsonValue::Object { len: 1, text: "{\"a\":1}".to_string() }));
}

#[test]
fn equality_of_json() {
    assert!(json_equals(&JsonValue::UInt(1), &JsonValue::UInt(1)));
    assert!(!json_equals(&JsonValue::UInt(1), &JsonValue::Float(1.0f64.to_bits())));
    assert!(json_equals(&JsonValue::Float(0.0f64.to_bits()), &JsonValue::Float((-0.0f64).to_bits())));
    assert!(json_equals(&JsonValue::Str("a".to_string()), &JsonValue::Str("a".to_string())));
    assert!(!json_equals(&JsonValue::Str("a".to_string()), &JsonValue::Null));
}

#[test]
fn object_insert_replaces_field() {
    let mut o = JsonObject::new();
    o.insert("a".to_string(), JsonValue::UInt(1));
    o.insert("b".to_string(), JsonValue::UInt(2));
    o.insert("a".to_string(), JsonValue::UInt(3));
    assert!(matches!(o.get("a"), Some(JsonValue::UInt(3))));
    assert!(matches!(o.get("b"), Some(JsonValue::UInt(2))));
    assert!(o.get("c").is_none());
    assert_eq!(o.entries.len(), 2);
}

#[test]
fn typed_reads_of_values() {
    assert_eq!(u8::from_value(&Value::U64(300)).unwrap(), 44);
    assert_eq!(i64::from_value(&Value::I8(-5)).unwrap(), -5);
    assert_eq!(u32::from_value(&Value::I32(-1)).unwrap(), u32::MAX);
    assert!(bool::from_value(&Value::U16(2)).unwrap());
    assert!(!bool::from_value(&Value::I64(0)).unwrap());
    assert_eq!(String::from_value(&Value::Str("a".to_string())).unwrap(), "a");
    assert_eq!(Option::<u8>::from_value(&Value::Null).unwrap(), None);
    assert_eq!(Option::<u8>::from_value(&Value::U8(1)).unwrap(), Some(1));
    assert_eq!(u8::from_value(&Value::Str("1".to_string())).unwrap_err().error_kind(), ErrorKind::FromValue);
    assert_eq!(bool::from_value(&Value::Null).unwrap_err().error_kind(), ErrorKind::FromValue);
    assert_eq!(7u16.to_value(), Value::U16(7));
    assert_eq!(Some("x".to_string()).to_value(), Value::Str("x".to_string()));
    assert_eq!(None::<i32>.to_value(), Value::Null);
}
