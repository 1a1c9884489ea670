//! Tagged values and their type tags.

use crate::codec::{
    bincode_deserialize_bool, bincode_deserialize_i64, bincode_deserialize_string,
    bincode_deserialize_u64, bool_decoding, bool_encoding, i64_decoding, i64_encoding,
    json_clone, json_from_slice, json_parse, json_text, text_decoding, text_encoding, u64_decoding,
    u64_encoding, Encode,
};
use crate::text::same_text;
use serde_json::Value as JsonDocument;
use vstd::bytes::{lemma_auto_spec_u64_to_from_le_bytes, spec_u64_to_le_bytes};
use vstd::prelude::*;
use vstd::utf8::{encode_utf8, encode_utf8_decode_utf8, encode_utf8_valid_utf8};

verus! {

/// The document type of `serde_json`, as carried by [`Value::Json`]. Its
/// contents are opaque to the proofs: a document is only ever encoded,
/// decoded, copied and handed on.
#[verifier::external_type_specification]
#[verifier::external_body]
pub struct ExJsonDocument(JsonDocument);

/// The declared type of a key or of a field.
#[derive(Debug, Clone, Copy, PartialEq, Eq, Structural)]
pub enum ValueType {
    String,
    F64,
    I64,
    U64,
    Bool,
    Json,
}

/// The type that a spelling names: `int` and `i64` name `I64`, `u64` names
/// `U64`, `str` names `String`, `bool` names `Bool` and `json` names `Json`.
/// No spelling names `F64`, and no other text names a type.
pub open spec fn type_named(name: Seq<char>) -> Option<ValueType> {
    if name == "json"@ {
        Some(ValueType::Json)
    } else if name == "int"@ || name == "i64"@ {
        Some(ValueType::I64)
    } else if name == "u64"@ {
        Some(ValueType::U64)
    } else if name == "str"@ {
        Some(ValueType::String)
    } else if name == "bool"@ {
        Some(ValueType::Bool)
    } else {
        None
    }
}

impl ValueType {
    /// The type that the spelling names, if it names one.
    pub fn from_type_name(name: &str) -> (named: Option<ValueType>)
        ensures
            named == type_named(name@),
    {
        if same_text(name, "json") {
            Some(ValueType::Json)
        } else if same_text(name, "int") || same_text(name, "i64") {
            Some(ValueType::I64)
        } else if same_text(name, "u64") {
            Some(ValueType::U64)
        } else if same_text(name, "str") {
            Some(ValueType::String)
        } else if same_text(name, "bool") {
            Some(ValueType::Bool)
        } else {
            None
        }
    }
}

/// A tagged value. Exactly one payload is carried; there is no null value.
///
/// The `F64` payload is the IEEE-754 bit pattern of the double: doubles are
/// told apart by their bits, as their encodings are.
#[derive(Debug)]
pub enum Value {
    String(String),
    F64(u64),
    I64(i64),
    U64(u64),
    Bool(bool),
    Json(Box<JsonDocument>),
}

impl Clone for Value {
    fn clone(&self) -> (res: Value)
        ensures
            res == *self,
    {
        match self {
            Value::String(s) => Value::String(s.clone()),
            Value::F64(bits) => Value::F64(*bits),
            Value::I64(i) => Value::I64(*i),
            Value::U64(u) => Value::U64(*u),
            Value::Bool(b) => Value::Bool(*b),
            Value::Json(doc) => Value::Json(Box::new(json_clone(doc))),
        }
    }
}

/// The mathematical content of a [`Value`].
pub enum ValueView {
    String(Seq<char>),
    F64(u64),
    I64(i64),
    U64(u64),
    Bool(bool),
    Json(JsonDocument),
}

impl ValueView {
    /// The tag of this value.
    pub open spec fn tag(self) -> ValueType {
        match self {
            ValueView::String(_) => ValueType::String,
            ValueView::F64(_) => ValueType::F64,
            ValueView::I64(_) => ValueType::I64,
            ValueView::U64(_) => ValueType::U64,
            ValueView::Bool(_) => ValueType::Bool,
            ValueView::Json(_) => ValueType::Json,
        }
    }
}

impl View for Value {
    type V = ValueView;

    open spec fn view(&self) -> ValueView {
        match *self {
            Value::String(s) => ValueView::String(s@),
            Value::F64(bits) => ValueView::F64(bits),
            Value::I64(i) => ValueView::I64(i),
            Value::U64(u) => ValueView::U64(u),
            Value::Bool(b) => ValueView::Bool(b),
            Value::Json(doc) => ValueView::Json(*doc),
        }
    }
}

/// Why a blob could not be read: it is no encoding of the declared type.
#[derive(Debug, Clone, Copy, PartialEq, Eq, Structural)]
pub struct DecodeError {
    /// The type the blob was read against.
    pub expected: ValueType,
}

impl ValueView {
    /// Whether the value has a field encoding: a text must be short enough
    /// for its byte length to fit the eight-byte prefix. Every [`Value`] in
    /// memory is.
    pub open spec fn encodable(self) -> bool {
        self matches ValueView::String(s) ==> encode_utf8(s).len() <= u64::MAX
    }

    /// The field encoding of the value: its payload alone, without a tag.
    pub open spec fn encoding(self) -> Seq<u8> {
        match self {
            ValueView::String(s) => text_encoding(s),
            ValueView::F64(bits) => u64_encoding(bits),
            ValueView::I64(i) => i64_encoding(i),
            ValueView::U64(u) => u64_encoding(u),
            ValueView::Bool(b) => bool_encoding(b),
            ValueView::Json(doc) => json_text(doc),
        }
    }

    /// The value that the bytes encode when read as type `t`, or `None`
    /// where they are no encoding of that type.
    pub open spec fn decoding(bytes: Seq<u8>, t: ValueType) -> Option<ValueView> {
        match t {
            ValueType::String => match text_decoding(bytes) {
                Some(s) => Some(ValueView::String(s)),
                None => None,
            },
            ValueType::F64 => match u64_decoding(bytes) {
                Some(bits) => Some(ValueView::F64(bits)),
                None => None,
            },
            ValueType::I64 => match i64_decoding(bytes) {
                Some(i) => Some(ValueView::I64(i)),
                None => None,
            },
            ValueType::U64 => match u64_decoding(bytes) {
                Some(u) => Some(ValueView::U64(u)),
                None => None,
            },
            ValueType::Bool => match bool_decoding(bytes) {
                Some(b) => Some(ValueView::Bool(b)),
                None => None,
            },
            ValueType::Json => match json_parse(bytes) {
                Some(doc) => Some(ValueView::Json(doc)),
                None => None,
            },
        }
    }

    /// Reading an encoding against the value's own tag gives the value back,
    /// for every value that is not a document.
    pub proof fn lemma_decoding_of_encoding(self)
        requires
            self.tag() != ValueType::Json,
            self.encodable(),
        ensures
            ValueView::decoding(self.encoding(), self.tag()) == Some(self),
    {
        lemma_auto_spec_u64_to_from_le_bytes();
        match self {
            ValueView::String(s) => {
                let body = encode_utf8(s);
                let prefix = spec_u64_to_le_bytes(body.len() as u64);
                let bytes = prefix + body;
                assert(bytes.subrange(0, 8) == prefix);
                assert(bytes.subrange(8, 8 + body.len() as int) == body);
                encode_utf8_valid_utf8(s);
                encode_utf8_decode_utf8(s);
            },
            ValueView::F64(bits) => {
                assert(u64_encoding(bits).subrange(0, 8) == u64_encoding(bits));
            },
            ValueView::I64(i) => {
                assert(i64_encoding(i).subrange(0, 8) == i64_encoding(i));
                assert((i as u64) as i64 == i) by (bit_vector);
            },
            ValueView::U64(u) => {
                assert(u64_encoding(u).subrange(0, 8) == u64_encoding(u));
            },
            ValueView::Bool(b) => {},
            ValueView::Json(_) => {},
        }
    }
}

impl Value {
    /// The tag of this value.
    pub fn value_type(&self) -> (t: ValueType)
        ensures
            t == self@.tag(),
    {
        match self {
            Value::String(_) => ValueType::String,
            Value::F64(_) => ValueType::F64,
            Value::I64(_) => ValueType::I64,
            Value::U64(_) => ValueType::U64,
            Value::Bool(_) => ValueType::Bool,
            Value::Json(_) => ValueType::Json,
        }
    }

    /// Encodes the payload as a field blob. The blob carries no tag; unless
    /// the value is a document, reading it against the value's own tag gives
    /// the value back.
    pub fn serialize_inner(&self) -> (bytes: Vec<u8>)
        ensures
            bytes@ == self@.encoding(),
            self@.encodable(),
            self@.tag() != ValueType::Json ==> ValueView::decoding(bytes@, self@.tag()) == Some(
                self@,
            ),
    {
        let bytes = match self {
            Value::String(s) => s.encode(),
            Value::F64(bits) => bits.encode(),
            Value::I64(i) => i.encode(),
            Value::U64(u) => u.encode(),
            Value::Bool(b) => b.encode(),
            Value::Json(doc) => doc.encode(),
        };
        proof {
            lemma_auto_spec_u64_to_from_le_bytes();
            assert(bytes@.len() == bytes.len() <= usize::MAX);
            if self@.tag() != ValueType::Json {
                self@.lemma_decoding_of_encoding();
            }
        }
        bytes
    }

    /// Reads a field blob against its declared type. Succeeds exactly when
    /// the bytes are an encoding of that type, and the value then carries
    /// that tag; bytes beyond the encoding are ignored for every type but
    /// documents.
    pub fn from_bytes(data: &[u8], value_type: &ValueType) -> (r: Result<Value, DecodeError>)
        ensures
            match r {
                Ok(v) => ValueView::decoding(data@, *value_type) == Some(v@) && v@.tag()
                    == *value_type,
                Err(e) => ValueView::decoding(data@, *value_type) is None && e.expected
                    == *value_type,
            },
    {
        let failed = DecodeError { expected: *value_type };
        match value_type {
            ValueType::String => match bincode_deserialize_string(data) {
                Ok(s) => Ok(Value::String(s)),
                Err(_) => Err(failed),
            },
            ValueType::F64 => match bincode_deserialize_u64(data) {
                Ok(bits) => Ok(Value::F64(bits)),
                Err(_) => Err(failed),
            },
            ValueType::I64 => match bincode_deserialize_i64(data) {
                Ok(i) => Ok(Value::I64(i)),
                Err(_) => Err(failed),
            },
            ValueType::U64 => match bincode_deserialize_u64(data) {
                Ok(u) => Ok(Value::U64(u)),
                Err(_) => Err(failed),
            },
            ValueType::Bool => match bincode_deserialize_bool(data) {
                Ok(b) => Ok(Value::Bool(b)),
                Err(_) => Err(failed),
            },
            ValueType::Json => match json_from_slice(data) {
                Ok(doc) => Ok(Value::Json(Box::new(doc))),
                Err(_) => Err(failed),
            },
        }
    }
}

} // verus!
