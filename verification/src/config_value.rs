use vstd::prelude::*;
use vstd::string::*;

use crate::errors::Error;
use crate::value::Value;

verus! {

/// A configuration value as received from the server (a JSON value).
///
/// Integers are kept as JSON parsers keep them: a non-negative integer in
/// `PosInt`, a negative one in `NegInt`. A number with a fraction or an
/// exponent is `Float`, carried as its IEEE-754 binary64 bit pattern.
/// Arrays and objects are `Structured`: no rule of the library reads them.
#[derive(Debug, Clone, PartialEq, Eq)]
pub enum ConfigValue {
    Null,
    Bool(bool),
    PosInt(u64),
    NegInt(i64),
    Float(u64),
    Str(String),
    Structured,
}

/// The declared data type of a feature or property.
#[derive(Debug, Clone, Copy, PartialEq, Eq, Structural)]
pub enum ValueType {
    Numeric,
    Boolean,
    String,
    SecretRef,
}

/// The marker string that stands for "use the default".
pub open spec fn default_marker() -> Seq<char> {
    "$default"@
}

/// The integer a configuration value holds when it fits `i64`.
pub open spec fn spec_as_i64(v: ConfigValue) -> Option<i64> {
    match v {
        ConfigValue::PosInt(n) => if n <= i64::MAX { Some(n as i64) } else { None },
        ConfigValue::NegInt(n) => Some(n),
        _ => None,
    }
}

/// The integer a configuration value holds when it fits `u64`.
pub open spec fn spec_as_u64(v: ConfigValue) -> Option<u64> {
    match v {
        ConfigValue::PosInt(n) => Some(n),
        _ => None,
    }
}

/// The value an evaluation hands out for a configuration value of the
/// given type, or `None` when the configuration value has another type.
pub open spec fn spec_value_of(kind: ValueType, v: ConfigValue) -> Option<Value> {
    match kind {
        ValueType::Numeric => match spec_as_i64(v) {
            Some(n) => Some(Value::Int64(n)),
            None => match v {
                ConfigValue::PosInt(n) => Some(Value::UInt64(n)),
                ConfigValue::Float(b) => Some(Value::Float64Bits(b)),
                _ => None,
            },
        },
        ValueType::Boolean => match v {
            ConfigValue::Bool(b) => Some(Value::Boolean(b)),
            _ => None,
        },
        ValueType::String | ValueType::SecretRef => match v {
            ConfigValue::Str(s) => Some(Value::String(s)),
            _ => None,
        },
    }
}

/// The error of a failed conversion: a protocol error for numbers, a type
/// mismatch otherwise.
pub open spec fn is_conversion_error(kind: ValueType, e: Error) -> bool {
    if kind == ValueType::Numeric {
        e matches Error::ProtocolError(m) && m@ == "Cannot convert numeric type"@
    } else {
        e == Error::MismatchType
    }
}

/// Whether a configuration value is the marker `"$default"`.
pub open spec fn spec_is_default(v: ConfigValue) -> bool {
    v matches ConfigValue::Str(s) && s@ == default_marker()
}

impl ConfigValue {
    /// The integer held, when it fits `i64`.
    pub fn as_i64(&self) -> (r: Option<i64>)
        ensures
            r == spec_as_i64(*self),
    {
        match self {
            ConfigValue::PosInt(n) => if *n <= 9223372036854775807u64 { Some(*n as i64) } else { None },
            ConfigValue::NegInt(n) => Some(*n),
            _ => None,
        }
    }

    /// The integer held, when it fits `u64`.
    pub fn as_u64(&self) -> (r: Option<u64>)
        ensures
            r == spec_as_u64(*self),
    {
        match self {
            ConfigValue::PosInt(n) => Some(*n),
            _ => None,
        }
    }

    /// The boolean held, if any.
    pub fn as_boolean(&self) -> (r: Option<bool>)
        ensures
            r == (match *self {
                ConfigValue::Bool(b) => Some(b),
                _ => None,
            }),
    {
        match self {
            ConfigValue::Bool(b) => Some(*b),
            _ => None,
        }
    }

    /// The string held, if any.
    pub fn as_string(&self) -> (r: Option<String>)
        ensures
            r == (match *self {
                ConfigValue::Str(s) => Some(s),
                _ => None,
            }),
    {
        match self {
            ConfigValue::Str(s) => Some(s.clone()),
            _ => None,
        }
    }

    /// Whether this is the marker `"$default"`.
    pub fn is_default(&self) -> (r: bool)
        ensures
            r == spec_is_default(*self),
    {
        match self {
            ConfigValue::Str(s) => {
                let marker = String::from_str("$default");
                *s == marker
            },
            _ => false,
        }
    }

    /// An exact copy.
    pub fn duplicate(&self) -> (r: ConfigValue)
        ensures
            r == *self,
    {
        match self {
            ConfigValue::Null => ConfigValue::Null,
            ConfigValue::Bool(b) => ConfigValue::Bool(*b),
            ConfigValue::PosInt(n) => ConfigValue::PosInt(*n),
            ConfigValue::NegInt(n) => ConfigValue::NegInt(*n),
            ConfigValue::Float(b) => ConfigValue::Float(*b),
            ConfigValue::Str(s) => ConfigValue::Str(s.clone()),
            ConfigValue::Structured => ConfigValue::Structured,
        }
    }
}

impl ValueType {
    /// The name of the type as the server writes it.
    pub fn label(&self) -> (r: String)
        ensures
            r@ == spec_type_label(*self),
    {
        match self {
            ValueType::Numeric => String::from_str("NUMERIC"),
            ValueType::Boolean => String::from_str("BOOLEAN"),
            ValueType::String => String::from_str("STRING"),
            ValueType::SecretRef => String::from_str("SECRETREF"),
        }
    }
}

/// The name of a data type as the server writes it.
pub open spec fn spec_type_label(t: ValueType) -> Seq<char> {
    match t {
        ValueType::Numeric => "NUMERIC"@,
        ValueType::Boolean => "BOOLEAN"@,
        ValueType::String => "STRING"@,
        ValueType::SecretRef => "SECRETREF"@,
    }
}

/// Converts a configuration value of the given declared type into the
/// value handed to users.
pub fn value_of(kind: ValueType, v: &ConfigValue) -> (r: core::result::Result<Value, Error>)
    ensures
        match spec_value_of(kind, *v) {
            Some(x) => r == Ok::<Value, Error>(x),
            None => r matches Err(e) && is_conversion_error(kind, e),
        },
{
    match kind {
        ValueType::Numeric => {
            if let Some(n) = v.as_i64() {
                Ok(Value::Int64(n))
            } else {
                match v {
                    ConfigValue::PosInt(n) => Ok(Value::UInt64(*n)),
                    ConfigValue::Float(b) => Ok(Value::Float64Bits(*b)),
                    _ => Err(Error::ProtocolError(String::from_str("Cannot convert numeric type"))),
                }
            }
        },
        ValueType::Boolean => match v {
            ConfigValue::Bool(b) => Ok(Value::Boolean(*b)),
            _ => Err(Error::MismatchType),
        },
        ValueType::String | ValueType::SecretRef => match v {
            ConfigValue::Str(s) => Ok(Value::String(s.clone())),
            _ => Err(Error::MismatchType),
        },
    }
}

} // verus!
