//! The byte format of field blobs, and the calls into `bincode` and
//! `serde_json` that produce and read it.
//!
//! Numbers and booleans are fixed-width little-endian, text is its UTF-8
//! bytes behind an eight-byte little-endian length, and a document is its
//! JSON text. A blob carries no tag: it is read against a declared type.

use serde_json::Value as JsonDocument;
use vstd::bytes::{spec_u64_from_le_bytes, spec_u64_to_le_bytes};
use vstd::prelude::*;
use vstd::utf8::{decode_utf8, encode_utf8, valid_utf8};

verus! {

/// The error of `bincode`; nothing is read from it.
#[verifier::external_type_specification]
#[verifier::external_body]
pub struct ExBincodeErrorKind(bincode::ErrorKind);

/// The error of `serde_json`; nothing is read from it.
#[verifier::external_type_specification]
#[verifier::external_body]
pub struct ExJsonError(serde_json::Error);

/// The JSON text that `serde_json::to_vec` writes for a document.
pub uninterp spec fn json_text(doc: JsonDocument) -> Seq<u8>;

/// The document that `serde_json::from_slice` reads from the bytes, or
/// `None` where it rejects them.
pub uninterp spec fn json_parse(bytes: Seq<u8>) -> Option<JsonDocument>;

/// Whether `serde_json` holds two documents to be equal with `==`.
pub uninterp spec fn json_equal(a: JsonDocument, b: JsonDocument) -> bool;

/// Eight bytes, least significant first.
pub open spec fn u64_encoding(x: u64) -> Seq<u8> {
    spec_u64_to_le_bytes(x)
}

/// The two's complement of `x` in eight bytes, least significant first.
pub open spec fn i64_encoding(x: i64) -> Seq<u8> {
    spec_u64_to_le_bytes(x as u64)
}

/// One byte: 1 for `true`, 0 for `false`.
pub open spec fn bool_encoding(b: bool) -> Seq<u8> {
    seq![if b { 1u8 } else { 0u8 }]
}

/// The length of the UTF-8 form in eight bytes, then the UTF-8 form.
pub open spec fn text_encoding(s: Seq<char>) -> Seq<u8> {
    spec_u64_to_le_bytes(encode_utf8(s).len() as u64) + encode_utf8(s)
}

/// The number in the first eight bytes; bytes beyond them are ignored.
pub open spec fn u64_decoding(bytes: Seq<u8>) -> Option<u64> {
    if bytes.len() >= 8 {
        Some(spec_u64_from_le_bytes(bytes.subrange(0, 8)))
    } else {
        None
    }
}

/// The signed number in the first eight bytes; bytes beyond them are ignored.
pub open spec fn i64_decoding(bytes: Seq<u8>) -> Option<i64> {
    if bytes.len() >= 8 {
        Some(spec_u64_from_le_bytes(bytes.subrange(0, 8)) as i64)
    } else {
        None
    }
}

/// The boolean in the first byte, which must be 0 or 1; bytes beyond it are
/// ignored.
pub open spec fn bool_decoding(bytes: Seq<u8>) -> Option<bool> {
    if bytes.len() >= 1 && bytes[0] == 1 {
        Some(true)
    } else if bytes.len() >= 1 && bytes[0] == 0 {
        Some(false)
    } else {
        None
    }
}

/// The text behind an eight-byte length: the length must not run past the
/// end and the bytes it covers must be UTF-8; bytes beyond them are ignored.
pub open spec fn text_decoding(bytes: Seq<u8>) -> Option<Seq<char>> {
    if bytes.len() < 8 {
        None
    } else {
        let n = spec_u64_from_le_bytes(bytes.subrange(0, 8));
        if n > bytes.len() - 8 {
            None
        } else if valid_utf8(bytes.subrange(8, 8 + n)) {
            Some(decode_utf8(bytes.subrange(8, 8 + n)))
        } else {
            None
        }
    }
}

/// `bincode::serialize` on a `u64`: it never fails and writes the eight
/// little-endian bytes of the number.
#[verifier::external_body]
pub(crate) fn bincode_serialize_u64(x: u64) -> (r: Result<Vec<u8>, Box<bincode::ErrorKind>>)
    ensures
        r is Ok,
        r->Ok_0@ == u64_encoding(x),
{
    bincode::serialize(&x)
}

/// `bincode::serialize` on an `i64`: it never fails and writes the eight
/// little-endian bytes of the number's two's complement.
#[verifier::external_body]
pub(crate) fn bincode_serialize_i64(x: i64) -> (r: Result<Vec<u8>, Box<bincode::ErrorKind>>)
    ensures
        r is Ok,
        r->Ok_0@ == i64_encoding(x),
{
    bincode::serialize(&x)
}

/// `bincode::serialize` on a `bool`: it never fails and writes one byte,
/// 1 or 0.
#[verifier::external_body]
pub(crate) fn bincode_serialize_bool(b: bool) -> (r: Result<Vec<u8>, Box<bincode::ErrorKind>>)
    ensures
        r is Ok,
        r->Ok_0@ == bool_encoding(b),
{
    bincode::serialize(&b)
}

/// `bincode::serialize` on a string: it never fails and writes the byte
/// length as eight little-endian bytes, then the string's UTF-8 bytes.
#[verifier::external_body]
pub(crate) fn bincode_serialize_str(s: &str) -> (r: Result<Vec<u8>, Box<bincode::ErrorKind>>)
    ensures
        r is Ok,
        r->Ok_0@ == text_encoding(s@),
{
    bincode::serialize(s)
}

/// `bincode::deserialize` to a `u64`: it fails on fewer than eight bytes and
/// otherwise reads the first eight as a little-endian number.
#[verifier::external_body]
pub(crate) fn bincode_deserialize_u64(data: &[u8]) -> (r: Result<u64, Box<bincode::ErrorKind>>)
    ensures
        r is Ok <==> u64_decoding(data@) is Some,
        r is Ok ==> Some(r->Ok_0) == u64_decoding(data@),
{
    bincode::deserialize(data)
}

/// `bincode::deserialize` to an `i64`: it fails on fewer than eight bytes and
/// otherwise reads the first eight as a little-endian two's complement.
#[verifier::external_body]
pub(crate) fn bincode_deserialize_i64(data: &[u8]) -> (r: Result<i64, Box<bincode::ErrorKind>>)
    ensures
        r is Ok <==> i64_decoding(data@) is Some,
        r is Ok ==> Some(r->Ok_0) == i64_decoding(data@),
{
    bincode::deserialize(data)
}

/// `bincode::deserialize` to a `bool`: it succeeds exactly when there is a
/// first byte and that byte is 0 or 1.
#[verifier::external_body]
pub(crate) fn bincode_deserialize_bool(data: &[u8]) -> (r: Result<bool, Box<bincode::ErrorKind>>)
    ensures
        r is Ok <==> bool_decoding(data@) is Some,
        r is Ok ==> Some(r->Ok_0) == bool_decoding(data@),
{
    bincode::deserialize(data)
}

/// `bincode::deserialize` to a `String`: it reads an eight-byte length, fails
/// where fewer bytes follow or where those bytes are not UTF-8, and otherwise
/// yields the text they encode.
#[verifier::external_body]
pub(crate) fn bincode_deserialize_string(data: &[u8]) -> (r: Result<
    String,
    Box<bincode::ErrorKind>,
>)
    ensures
        r is Ok <==> text_decoding(data@) is Some,
        r is Ok ==> Some(r->Ok_0@) == text_decoding(data@),
{
    bincode::deserialize(data)
}

/// `serde_json::to_vec` on a document: it never fails, and what it writes is
/// the document's JSON text.
#[verifier::external_body]
pub(crate) fn json_to_vec(doc: &JsonDocument) -> (r: Result<Vec<u8>, serde_json::Error>)
    ensures
        r is Ok,
        r->Ok_0@ == json_text(*doc),
{
    serde_json::to_vec(doc)
}

/// `serde_json::from_slice` to a document: it yields the document that the
/// bytes spell, or fails where they are not JSON text.
#[verifier::external_body]
pub(crate) fn json_from_slice(data: &[u8]) -> (r: Result<JsonDocument, serde_json::Error>)
    ensures
        r is Ok <==> json_parse(data@) is Some,
        r is Ok ==> Some(r->Ok_0) == json_parse(data@),
{
    serde_json::from_slice(data)
}

/// `clone` on a document of `serde_json`: it yields the same document.
#[verifier::external_body]
pub(crate) fn json_clone(doc: &JsonDocument) -> (copy: JsonDocument)
    ensures
        copy == *doc,
{
    doc.clone()
}

/// `==` on two documents of `serde_json`.
#[verifier::external_body]
pub(crate) fn json_eq(a: &JsonDocument, b: &JsonDocument) -> (same: bool)
    ensures
        same == json_equal(*a, *b),
{
    a == b
}

/// A value that has a field encoding of its own: what a record can hold in
/// a blob without going through a tagged value.
pub trait Encode {
    /// The bytes of the blob.
    spec fn encoding(&self) -> Seq<u8>;

    /// Encodes the value as a blob.
    fn encode(&self) -> (bytes: Vec<u8>)
        ensures
            bytes@ == self.encoding(),
    ;
}

impl Encode for u64 {
    open spec fn encoding(&self) -> Seq<u8> {
        u64_encoding(*self)
    }

    fn encode(&self) -> (bytes: Vec<u8>) {
        match bincode_serialize_u64(*self) {
            Ok(bytes) => bytes,
            Err(_) => unreached(),
        }
    }
}

impl Encode for i64 {
    open spec fn encoding(&self) -> Seq<u8> {
        i64_encoding(*self)
    }

    fn encode(&self) -> (bytes: Vec<u8>) {
        match bincode_serialize_i64(*self) {
            Ok(bytes) => bytes,
            Err(_) => unreached(),
        }
    }
}

impl Encode for bool {
    open spec fn encoding(&self) -> Seq<u8> {
        bool_encoding(*self)
    }

    fn encode(&self) -> (bytes: Vec<u8>) {
        match bincode_serialize_bool(*self) {
            Ok(bytes) => bytes,
            Err(_) => unreached(),
        }
    }
}

impl<'a> Encode for &'a str {
    open spec fn encoding(&self) -> Seq<u8> {
        text_encoding((*self)@)
    }

    fn encode(&self) -> (bytes: Vec<u8>) {
        match bincode_serialize_str(*self) {
            Ok(bytes) => bytes,
            Err(_) => unreached(),
        }
    }
}

impl Encode for String {
    open spec fn encoding(&self) -> Seq<u8> {
        text_encoding(self@)
    }

    fn encode(&self) -> (bytes: Vec<u8>) {
        match bincode_serialize_str(self.as_str()) {
            Ok(bytes) => bytes,
            Err(_) => unreached(),
        }
    }
}

impl Encode for JsonDocument {
    open spec fn encoding(&self) -> Seq<u8> {
        json_text(*self)
    }

    fn encode(&self) -> (bytes: Vec<u8>) {
        match json_to_vec(self) {
            Ok(bytes) => bytes,
            Err(_) => unreached(),
        }
    }
}

} // verus!
