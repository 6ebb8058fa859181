//! Scalar values: a tagged union over the supported physical kinds,
//! including the distinguished `Null`.

use vstd::prelude::*;

verus! {

/// A single scalar cell value. `Null` is the absence of a value.
#[derive(Debug)]
pub enum DataValue {
    Null,
    Boolean(bool),
    Int64(i64),
    UInt64(u64),
    Utf8(String),
}

impl DataValue {
    /// Whether this value is the SQL NULL.
    pub fn is_null(&self) -> (r: bool)
        ensures
            r == (self is Null),
    {
        matches!(self, DataValue::Null)
    }
}

impl Clone for DataValue {
    fn clone(&self) -> (r: Self)
        ensures
            r == *self,
    {
        match self {
            DataValue::Null => DataValue::Null,
            DataValue::Boolean(b) => DataValue::Boolean(*b),
            DataValue::Int64(v) => DataValue::Int64(*v),
            DataValue::UInt64(v) => DataValue::UInt64(*v),
            DataValue::Utf8(s) => DataValue::Utf8(s.clone()),
        }
    }
}

impl PartialEq for DataValue {
    fn eq(&self, other: &Self) -> (r: bool) {
        match (self, other) {
            (DataValue::Null, DataValue::Null) => true,
            (DataValue::Boolean(a), DataValue::Boolean(b)) => a == b,
            (DataValue::Int64(a), DataValue::Int64(b)) => a == b,
            (DataValue::UInt64(a), DataValue::UInt64(b)) => a == b,
            (DataValue::Utf8(a), DataValue::Utf8(b)) => *a == *b,
            _ => false,
        }
    }
}

impl vstd::std_specs::cmp::PartialEqSpecImpl for DataValue {
    open spec fn obeys_eq_spec() -> bool {
        true
    }

    open spec fn eq_spec(&self, other: &Self) -> bool {
        match (self, other) {
            (DataValue::Null, DataValue::Null) => true,
            (DataValue::Boolean(a), DataValue::Boolean(b)) => a == b,
            (DataValue::Int64(a), DataValue::Int64(b)) => a == b,
            (DataValue::UInt64(a), DataValue::UInt64(b)) => a == b,
            (DataValue::Utf8(a), DataValue::Utf8(b)) => a@ == b@,
            _ => false,
        }
    }
}

} // verus!
