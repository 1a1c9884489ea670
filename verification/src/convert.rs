//! Conversions between host values and tagged values.
//!
//! Every conversion in is total; 32-bit integers widen to 64 bits. A
//! conversion out succeeds exactly when the value carries the tag asked for:
//! nothing is coerced, not even between integer widths.

use crate::value::{Value, ValueView};
use serde_json::Value as JsonDocument;
use vstd::prelude::*;
use vstd::std_specs::convert::{FromSpecImpl, TryIntoSpecImpl};

verus! {

impl From<&i32> for Value {
    fn from(i: &i32) -> (value: Value) {
        Value::I64(*i as i64)
    }
}

impl FromSpecImpl<&i32> for Value {
    open spec fn obeys_from_spec() -> bool {
        true
    }

    open spec fn from_spec(i: &i32) -> Value {
        Value::I64(*i as i64)
    }
}

impl From<&u32> for Value {
    fn from(u: &u32) -> (value: Value) {
        Value::U64(*u as u64)
    }
}

impl FromSpecImpl<&u32> for Value {
    open spec fn obeys_from_spec() -> bool {
        true
    }

    open spec fn from_spec(u: &u32) -> Value {
        Value::U64(*u as u64)
    }
}

impl From<&i64> for Value {
    fn from(i: &i64) -> (value: Value) {
        Value::I64(*i)
    }
}

impl FromSpecImpl<&i64> for Value {
    open spec fn obeys_from_spec() -> bool {
        true
    }

    open spec fn from_spec(i: &i64) -> Value {
        Value::I64(*i)
    }
}

impl From<&u64> for Value {
    fn from(u: &u64) -> (value: Value) {
        Value::U64(*u)
    }
}

impl FromSpecImpl<&u64> for Value {
    open spec fn obeys_from_spec() -> bool {
        true
    }

    open spec fn from_spec(u: &u64) -> Value {
        Value::U64(*u)
    }
}

impl From<i32> for Value {
    fn from(i: i32) -> (value: Value) {
        Value::I64(i as i64)
    }
}

impl FromSpecImpl<i32> for Value {
    open spec fn obeys_from_spec() -> bool {
        true
    }

    open spec fn from_spec(i: i32) -> Value {
        Value::I64(i as i64)
    }
}

impl From<u32> for Value {
    fn from(u: u32) -> (value: Value) {
        Value::U64(u as u64)
    }
}

impl FromSpecImpl<u32> for Value {
    open spec fn obeys_from_spec() -> bool {
        true
    }

    open spec fn from_spec(u: u32) -> Value {
        Value::U64(u as u64)
    }
}

impl From<i64> for Value {
    fn from(i: i64) -> (value: Value) {
        Value::I64(i)
    }
}

impl FromSpecImpl<i64> for Value {
    open spec fn obeys_from_spec() -> bool {
        true
    }

    open spec fn from_spec(i: i64) -> Value {
        Value::I64(i)
    }
}

impl From<u64> for Value {
    fn from(u: u64) -> (value: Value) {
        Value::U64(u)
    }
}

impl FromSpecImpl<u64> for Value {
    open spec fn obeys_from_spec() -> bool {
        true
    }

    open spec fn from_spec(u: u64) -> Value {
        Value::U64(u)
    }
}

impl From<&bool> for Value {
    fn from(b: &bool) -> (value: Value) {
        Value::Bool(*b)
    }
}

impl FromSpecImpl<&bool> for Value {
    open spec fn obeys_from_spec() -> bool {
        true
    }

    open spec fn from_spec(b: &bool) -> Value {
        Value::Bool(*b)
    }
}

impl From<bool> for Value {
    fn from(b: bool) -> (value: Value) {
        Value::Bool(b)
    }
}

impl FromSpecImpl<bool> for Value {
    open spec fn obeys_from_spec() -> bool {
        true
    }

    open spec fn from_spec(b: bool) -> Value {
        Value::Bool(b)
    }
}

impl From<&str> for Value {
    fn from(s: &str) -> (value: Value)
        ensures
            value@ == ValueView::String(s@),
    {
        Value::String(s.to_owned())
    }
}

/// The string of the result is made afresh, so the conversion is stated by
/// its `ensures`, over the view, and not by `from_spec`.
impl FromSpecImpl<&str> for Value {
    open spec fn obeys_from_spec() -> bool {
        false
    }

    open spec fn from_spec(s: &str) -> Value {
        arbitrary()
    }
}

impl From<String> for Value {
    fn from(s: String) -> (value: Value) {
        Value::String(s)
    }
}

impl FromSpecImpl<String> for Value {
    open spec fn obeys_from_spec() -> bool {
        true
    }

    open spec fn from_spec(s: String) -> Value {
        Value::String(s)
    }
}

impl From<JsonDocument> for Value {
    fn from(doc: JsonDocument) -> (value: Value) {
        Value::Json(Box::new(doc))
    }
}

impl FromSpecImpl<JsonDocument> for Value {
    open spec fn obeys_from_spec() -> bool {
        true
    }

    open spec fn from_spec(doc: JsonDocument) -> Value {
        Value::Json(Box::new(doc))
    }
}

impl From<Box<JsonDocument>> for Value {
    fn from(doc: Box<JsonDocument>) -> (value: Value) {
        Value::Json(doc)
    }
}

impl FromSpecImpl<Box<JsonDocument>> for Value {
    open spec fn obeys_from_spec() -> bool {
        true
    }

    open spec fn from_spec(doc: Box<JsonDocument>) -> Value {
        Value::Json(doc)
    }
}

impl TryInto<i64> for Value {
    type Error = ();

    fn try_into(self) -> (r: Result<i64, ()>) {
        match self {
            Value::I64(i) => Ok(i),
            _ => Err(()),
        }
    }
}

impl TryIntoSpecImpl<i64> for Value {
    open spec fn obeys_try_into_spec() -> bool {
        true
    }

    open spec fn try_into_spec(self) -> Result<i64, ()> {
        match self {
            Value::I64(i) => Ok(i),
            _ => Err(()),
        }
    }
}

impl TryInto<u64> for Value {
    type Error = ();

    fn try_into(self) -> (r: Result<u64, ()>) {
        match self {
            Value::U64(u) => Ok(u),
            _ => Err(()),
        }
    }
}

impl TryIntoSpecImpl<u64> for Value {
    open spec fn obeys_try_into_spec() -> bool {
        true
    }

    open spec fn try_into_spec(self) -> Result<u64, ()> {
        match self {
            Value::U64(u) => Ok(u),
            _ => Err(()),
        }
    }
}

impl TryInto<bool> for Value {
    type Error = ();

    fn try_into(self) -> (r: Result<bool, ()>) {
        match self {
            Value::Bool(b) => Ok(b),
            _ => Err(()),
        }
    }
}

impl TryIntoSpecImpl<bool> for Value {
    open spec fn obeys_try_into_spec() -> bool {
        true
    }

    open spec fn try_into_spec(self) -> Result<bool, ()> {
        match self {
            Value::Bool(b) => Ok(b),
            _ => Err(()),
        }
    }
}

impl TryInto<String> for Value {
    type Error = ();

    fn try_into(self) -> (r: Result<String, ()>) {
        match self {
            Value::String(s) => Ok(s),
            _ => Err(()),
        }
    }
}

impl TryIntoSpecImpl<String> for Value {
    open spec fn obeys_try_into_spec() -> bool {
        true
    }

    open spec fn try_into_spec(self) -> Result<String, ()> {
        match self {
            Value::String(s) => Ok(s),
            _ => Err(()),
        }
    }
}

impl Value {
    /// The double with the given IEEE-754 bit pattern, as a value.
    pub fn from_f64_bits(bits: u64) -> (value: Value)
        ensures
            value == Value::F64(bits),
    {
        Value::F64(bits)
    }

    /// The IEEE-754 bit pattern of the double that the value carries; fails
    /// where the value carries another tag.
    pub fn try_into_f64_bits(self) -> (r: Result<u64, ()>)
        ensures
            r == (match self {
                Value::F64(bits) => Ok::<u64, ()>(bits),
                _ => Err::<u64, ()>(()),
            }),
    {
        match self {
            Value::F64(bits) => Ok(bits),
            _ => Err(()),
        }
    }
}

} // verus!
