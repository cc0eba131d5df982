use ibm_appconfiguration_rust_sdk::config_value::{value_of, ConfigValue, ValueType};
use ibm_appconfiguration_rust_sdk::errors::Error;
use ibm_appconfiguration_rust_sdk::value::Value;

#[test]
fn config_value_accessors() {
    assert_eq!(ConfigValue::PosInt(7).as_i64(), Some(7));
    assert_eq!(ConfigValue::PosInt(u64::MAX).as_i64(), None);
    assert_eq!(ConfigValue::NegInt(-3).as_i64(), Some(-3));
    assert_eq!(ConfigValue::NegInt(-3).as_u64(), None);
    assert_eq!(ConfigValue::PosInt(u64::MAX).as_u64(), Some(u64::MAX));
    assert_eq!(ConfigValue::Bool(true).as_boolean(), Some(true));
    assert_eq!(ConfigValue::Str("x".into()).as_boolean(), None);
    assert_eq!(ConfigValue::Str("x".into()).as_string(), Some("x".to_string()));
    assert_eq!(ConfigValue::Null.as_string(), None);
    assert!(ConfigValue::Str("$default".into()).is_default());
    assert!(!ConfigValue::Str("default".into()).is_default());
    assert!(!ConfigValue::Null.is_default());
}

#[test]
fn config_values_convert_by_declared_type() {
    assert_eq!(value_of(ValueType::Numeric, &ConfigValue::PosInt(5)).unwrap(), Value::Int64(5));
    assert_eq!(value_of(ValueType::Numeric, &ConfigValue::PosInt(u64::MAX)).unwrap(), Value::UInt64(u64::MAX));
    assert_eq!(value_of(ValueType::Boolean, &ConfigValue::Bool(false)).unwrap(), Value::Boolean(false));
    assert_eq!(value_of(ValueType::String, &ConfigValue::Str("s".into())).unwrap(), Value::String("s".into()));
    assert!(matches!(
        value_of(ValueType::Numeric, &ConfigValue::Str("s".into())),
        Err(Error::ProtocolError(ref m)) if m == "Cannot convert numeric type"
    ));
    assert!(matches!(value_of(ValueType::Boolean, &ConfigValue::PosInt(1)), Err(Error::MismatchType)));
    assert_eq!(ValueType::SecretRef.label(), "SECRETREF");
}
