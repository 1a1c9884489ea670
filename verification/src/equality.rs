//! What `==` means on values, errors and records.

use crate::codec::{json_eq, json_equal};
use crate::schema::{DataEntry, SchemaError};
use crate::text::{same_bytes, same_text};
use crate::value::{Value, ValueView};
use vstd::prelude::*;
use vstd::std_specs::cmp::PartialEqSpecImpl;

verus! {

impl ValueView {
    /// Whether two values are equal: they carry the same tag and the same
    /// payload. Doubles are equal where their bit patterns are, and
    /// documents where `serde_json` holds them to be.
    pub open spec fn equals(self, other: ValueView) -> bool {
        match (self, other) {
            (ValueView::Json(a), ValueView::Json(b)) => json_equal(a, b),
            _ => self == other,
        }
    }
}

impl PartialEq for Value {
    fn eq(&self, other: &Value) -> (same: bool) {
        match (self, other) {
            (Value::String(a), Value::String(b)) => same_text(a.as_str(), b.as_str()),
            (Value::F64(a), Value::F64(b)) => *a == *b,
            (Value::I64(a), Value::I64(b)) => *a == *b,
            (Value::U64(a), Value::U64(b)) => *a == *b,
            (Value::Bool(a), Value::Bool(b)) => *a == *b,
            (Value::Json(a), Value::Json(b)) => json_eq(a, b),
            _ => false,
        }
    }
}

impl PartialEqSpecImpl for Value {
    open spec fn obeys_eq_spec() -> bool {
        true
    }

    open spec fn eq_spec(&self, other: &Value) -> bool {
        self@.equals(other@)
    }
}

impl PartialEq for SchemaError {
    fn eq(&self, other: &SchemaError) -> (same: bool) {
        match (self, other) {
            (SchemaError::NoSuchField(a), SchemaError::NoSuchField(b)) => same_text(
                a.as_str(),
                b.as_str(),
            ),
            (SchemaError::EncodingError, SchemaError::EncodingError) => true,
            _ => false,
        }
    }
}

impl PartialEqSpecImpl for SchemaError {
    open spec fn obeys_eq_spec() -> bool {
        true
    }

    open spec fn eq_spec(&self, other: &SchemaError) -> bool {
        self@ == other@
    }
}

impl PartialEq for DataEntry {
    fn eq(&self, other: &DataEntry) -> (same: bool) {
        let mine = self.fields();
        let theirs = other.fields();
        assert(self@.len() == mine.len() && other@.len() == theirs.len());
        if mine.len() != theirs.len() {
            return false;
        }
        let mut i: usize = 0;
        while i < mine.len()
            invariant
                i <= mine.len() == theirs.len(),
                self@.len() == mine.len(),
                other@.len() == theirs.len(),
                forall|j: int| 0 <= j < mine.len() ==> self@[j] == mine[j]@,
                forall|j: int| 0 <= j < theirs.len() ==> other@[j] == theirs[j]@,
                forall|j: int| 0 <= j < i ==> self@[j] == other@[j],
            decreases mine.len() - i,
        {
            if !same_bytes(mine[i].as_slice(), theirs[i].as_slice()) {
                assert(self@[i as int] != other@[i as int]);
                return false;
            }
            i += 1;
        }
        assert(self@ =~= other@);
        true
    }
}

impl PartialEqSpecImpl for DataEntry {
    open spec fn obeys_eq_spec() -> bool {
        true
    }

    open spec fn eq_spec(&self, other: &DataEntry) -> bool {
        self@ == other@
    }
}

} // verus!
