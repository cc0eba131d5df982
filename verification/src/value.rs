use vstd::prelude::*;

verus! {

/// A value of a feature or property, as handed to the user after evaluation.
///
/// Numbers that fit neither `i64` nor `u64` are IEEE-754 binary64 numbers;
/// the library carries them as their 64-bit pattern in `Float64Bits` and
/// never computes on them.
#[derive(Debug, Clone, PartialEq, Eq)]
pub enum Value {
    Boolean(bool),
    Int64(i64),
    UInt64(u64),
    Float64Bits(u64),
    String(String),
}

impl Value {
    /// An exact copy.
    pub fn duplicate(&self) -> (r: Value)
        ensures
            r == *self,
    {
        match self {
            Value::Boolean(b) => Value::Boolean(*b),
            Value::Int64(n) => Value::Int64(*n),
            Value::UInt64(n) => Value::UInt64(*n),
            Value::Float64Bits(b) => Value::Float64Bits(*b),
            Value::String(s) => Value::String(s.clone()),
        }
    }
}

} // verus!
