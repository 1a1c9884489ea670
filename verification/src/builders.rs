//! Builders for schemas and for records.

use crate::codec::Encode;
use crate::schema::{field_list, DataEntry, Schema, SchemaView};
use crate::text::same_text;
use crate::value::{Value, ValueType};
use vstd::hash_map::StringHashMap;
use vstd::prelude::*;

verus! {

/// Collects the fields of a schema one by one. No two fields of a builder
/// share a name.
pub struct SchemaBuilder {
    key: ValueType,
    fields: Vec<(String, ValueType)>,
}

impl View for SchemaBuilder {
    type V = SchemaView;

    closed spec fn view(&self) -> SchemaView {
        SchemaView { key: self.key, fields: field_list(self.fields@) }
    }
}

impl SchemaBuilder {
    #[verifier::type_invariant]
    spec fn names_differ(self) -> bool {
        self@.has_unique_names()
    }

    /// Starts a schema with the given key type and no fields.
    pub fn new(key: ValueType) -> (builder: SchemaBuilder)
        ensures
            builder@ == (SchemaView { key, fields: Seq::empty() }),
    {
        let fields: Vec<(String, ValueType)> = Vec::new();
        assert(field_list(fields@) =~= Seq::empty());
        SchemaBuilder { key, fields }
    }

    /// Whether a field of this name was added already.
    pub fn has_field(&self, name: &str) -> (found: bool)
        ensures
            found == self@.has_field(name@),
    {
        let mut i: usize = 0;
        while i < self.fields.len()
            invariant
                i <= self.fields.len(),
                forall|j: int| 0 <= j < i ==> self@.names()[j] != name@,
            decreases self.fields.len() - i,
        {
            if same_text(self.fields[i].0.as_str(), name) {
                assert(self@.names()[i as int] == name@);
                return true;
            }
            i += 1;
        }
        false
    }

    /// Appends a field. The name must be new to the builder.
    #[must_use]
    pub fn add_field(self, name: &str, vtype: ValueType) -> (builder: SchemaBuilder)
        requires
            !self@.has_field(name@),
        ensures
            builder@ == (SchemaView { key: self@.key, fields: self@.fields.push((name@, vtype)) }),
    {
        proof {
            use_type_invariant(&self);
        }
        let ghost before = self@;
        let SchemaBuilder { key, mut fields } = self;
        fields.push((name.to_owned(), vtype));
        proof {
            let after = SchemaView { key, fields: field_list(fields@) };
            assert(after.fields =~= before.fields.push((name@, vtype)));
            assert(after.names() =~= before.names().push(name@));
        }
        SchemaBuilder { key, fields }
    }

    /// Finishes the schema: it has the builder's key type and fields, and no
    /// two of its fields share a name.
    #[must_use]
    pub fn build(self) -> (schema: Schema)
        ensures
            schema@ == self@,
            schema@.has_unique_names(),
    {
        proof {
            use_type_invariant(&self);
        }
        Schema::from_parts(self.key, self.fields)
    }
}

/// Collects the blobs of a record by field name.
pub struct EntryBuilder<'a> {
    fields: StringHashMap<Vec<u8>>,
    schema: &'a Vec<(String, ValueType)>,
}

/// The mathematical content of an [`EntryBuilder`].
pub struct EntryBuilderView {
    /// The fields of the schema that the record is built for.
    pub schema: Seq<(Seq<char>, ValueType)>,
    /// The blobs recorded so far, by name.
    pub recorded: Map<Seq<char>, Seq<u8>>,
}

impl EntryBuilderView {
    /// The names of the schema's fields, in order.
    pub open spec fn names(self) -> Seq<Seq<char>> {
        self.schema.map_values(|field: (Seq<char>, ValueType)| field.0)
    }

    /// Whether a record can be built: every field of the schema has a
    /// recorded blob, and no two fields share a name, since a blob is used
    /// up by the first field that takes it.
    pub open spec fn is_complete(self) -> bool {
        &&& self.names().no_duplicates()
        &&& forall|i: int|
            0 <= i < self.schema.len() ==> self.recorded.contains_key(#[trigger] self.names()[i])
    }

    /// The record that is built: for each field of the schema, in order, the
    /// blob recorded under its name. Blobs under other names are left out.
    pub open spec fn built(self) -> Seq<Seq<u8>> {
        Seq::new(self.schema.len(), |i: int| self.recorded[self.names()[i]])
    }
}

impl<'a> View for EntryBuilder<'a> {
    type V = EntryBuilderView;

    closed spec fn view(&self) -> EntryBuilderView {
        EntryBuilderView {
            schema: field_list(self.schema@),
            recorded: self.fields@.map_values(|blob: Vec<u8>| blob@),
        }
    }
}

impl<'a> EntryBuilder<'a> {
    pub(crate) fn new(schema: &'a Vec<(String, ValueType)>) -> (builder: EntryBuilder<'a>)
        ensures
            builder@ == (EntryBuilderView {
                schema: field_list(schema@),
                recorded: Map::empty(),
            }),
    {
        let fields: StringHashMap<Vec<u8>> = StringHashMap::new();
        assert(fields@.map_values(|blob: Vec<u8>| blob@) =~= Map::empty());
        EntryBuilder { fields, schema }
    }

    fn record(self, name: &str, bytes: Vec<u8>) -> (builder: EntryBuilder<'a>)
        ensures
            builder@ == (EntryBuilderView {
                schema: self@.schema,
                recorded: self@.recorded.insert(name@, bytes@),
            }),
    {
        let EntryBuilder { mut fields, schema } = self;
        let ghost before = fields@;
        fields.insert(name.to_owned(), bytes);
        assert(fields@.map_values(|blob: Vec<u8>| blob@) =~= before.map_values(
            |blob: Vec<u8>| blob@,
        ).insert(name@, bytes@));
        EntryBuilder { fields, schema }
    }

    /// Encodes `value` and records the blob under `name`, in place of any
    /// blob recorded under that name before. Neither the name nor the
    /// value's type is held against the schema.
    #[must_use]
    pub fn set_field<T: Encode>(self, name: &str, value: &T) -> (builder: EntryBuilder<'a>)
        ensures
            builder@ == (EntryBuilderView {
                schema: self@.schema,
                recorded: self@.recorded.insert(name@, value.encoding()),
            }),
    {
        let bytes = value.encode();
        self.record(name, bytes)
    }

    /// Encodes the payload of `value` and records the blob under `name`, in
    /// place of any blob recorded under that name before. Neither the name
    /// nor the value's tag is held against the schema.
    #[must_use]
    pub fn set_field_from_value(self, name: &str, value: &Value) -> (builder: EntryBuilder<'a>)
        ensures
            builder@ == (EntryBuilderView {
                schema: self@.schema,
                recorded: self@.recorded.insert(name@, value@.encoding()),
            }),
    {
        let bytes = value.serialize_inner();
        self.record(name, bytes)
    }

    /// Whether [`Self::build`] can be called.
    pub fn is_complete(&self) -> (complete: bool)
        ensures
            complete == self@.is_complete(),
    {
        let ghost names = self@.names();
        let mut i: usize = 0;
        while i < self.schema.len()
            invariant
                i <= self.schema.len(),
                names == self@.names(),
                names.len() == self.schema.len(),
                forall|k: int| 0 <= k < i ==> self@.recorded.contains_key(#[trigger] names[k]),
                forall|k: int, l: int| 0 <= l < k < i ==> names[k] != names[l],
            decreases self.schema.len() - i,
        {
            if !self.fields.contains_key(self.schema[i].0.as_str()) {
                assert(!self@.recorded.contains_key(names[i as int]));
                return false;
            }
            let mut j: usize = 0;
            while j < i
                invariant
                    j <= i < self.schema.len(),
                    names == self@.names(),
                    forall|l: int| 0 <= l < j ==> names[i as int] != names[l],
                decreases i - j,
            {
                if same_text(self.schema[j].0.as_str(), self.schema[i].0.as_str()) {
                    assert(names[j as int] == names[i as int]);
                    return false;
                }
                j += 1;
            }
            i += 1;
        }
        true
    }

    /// Builds the record: for each field of the schema, in order, the blob
    /// recorded under its name. Every field must have a recorded blob, and
    /// no two fields may share a name.
    #[must_use]
    pub fn build(self) -> (entry: DataEntry)
        requires
            self@.is_complete(),
        ensures
            entry@ == self@.built(),
            entry@.len() == self@.schema.len(),
    {
        let ghost names = self@.names();
        let mut fields: Vec<Vec<u8>> = Vec::new();
        let mut i: usize = 0;
        while i < self.schema.len()
            invariant
                i <= self.schema.len(),
                self@.is_complete(),
                names == self@.names(),
                fields.len() == i,
                forall|k: int| 0 <= k < i ==> (#[trigger] fields[k])@ == self@.recorded[names[k]],
            decreases self.schema.len() - i,
        {
            assert(self@.recorded.contains_key(names[i as int]));
            let blob = match self.fields.get(self.schema[i].0.as_str()) {
                Some(blob) => blob.clone(),
                None => unreached(),
            };
            fields.push(blob);
            i += 1;
        }
        let entry = DataEntry::from_fields(fields);
        assert(entry@ =~= self@.built());
        entry
    }
}

} // verus!
