//! A compact, typed schema-and-record model: tagged values, their byte
//! encoding, schemas of named typed fields, and positional records that are
//! read and written through their schema.

pub mod builders;
pub mod codec;
pub mod convert;
pub mod equality;
pub mod laws;
pub mod schema;
pub mod text;
pub mod value;

pub use builders::{EntryBuilder, EntryBuilderView, SchemaBuilder};
pub use codec::Encode;
pub use schema::{DataEntry, Schema, SchemaError, SchemaErrorView, SchemaView, Tuple};
pub use text::{same_bytes, same_text};
pub use value::{DecodeError, Value, ValueType, ValueView};
pub use vstd::hash_map::StringHashMap;
