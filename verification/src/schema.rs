//! Schemas, records, and field-addressed access to a record through its
//! schema.

use crate::builders::{EntryBuilder, EntryBuilderView};
use crate::text::same_text;
use crate::value::{Value, ValueType, ValueView};
use vstd::hash_map::StringHashMap;
use vstd::prelude::*;
use vstd::string::StringExecFns;

verus! {

/// The ways in which access to a record can fail.
#[derive(Debug, Eq)]
pub enum SchemaError {
    /// The schema has no field of this name.
    NoSuchField(String),
    /// The record does not have one blob per field, or a blob is no encoding
    /// of its field's type.
    EncodingError,
}

/// The mathematical content of a [`SchemaError`].
pub enum SchemaErrorView {
    NoSuchField(Seq<char>),
    EncodingError,
}

impl SchemaErrorView {
    /// The text that describes the error.
    pub open spec fn message(self) -> Seq<char> {
        match self {
            SchemaErrorView::NoSuchField(name) => "No such field: "@ + name,
            SchemaErrorView::EncodingError => "Failed to encode or decode data"@,
        }
    }
}

impl View for SchemaError {
    type V = SchemaErrorView;

    open spec fn view(&self) -> SchemaErrorView {
        match *self {
            SchemaError::NoSuchField(name) => SchemaErrorView::NoSuchField(name@),
            SchemaError::EncodingError => SchemaErrorView::EncodingError,
        }
    }
}

impl Clone for SchemaError {
    fn clone(&self) -> (res: Self)
        ensures
            res == *self,
    {
        match self {
            SchemaError::NoSuchField(name) => SchemaError::NoSuchField(name.clone()),
            SchemaError::EncodingError => SchemaError::EncodingError,
        }
    }
}

impl SchemaError {
    /// The text that describes the error.
    pub fn to_string(&self) -> (text: String)
        ensures
            text@ == self@.message(),
    {
        match self {
            SchemaError::NoSuchField(name) => String::from_str("No such field: ").concat(
                name.as_str(),
            ),
            SchemaError::EncodingError => String::from_str("Failed to encode or decode data"),
        }
    }
}

/// A record: one opaque blob per field of some schema, in the schema's order.
/// It carries no names and no type tags, and means something only together
/// with its schema.
#[derive(Debug, Eq)]
pub struct DataEntry {
    fields: Vec<Vec<u8>>,
}

/// The blobs as byte sequences.
pub open spec fn blobs(fields: Seq<Vec<u8>>) -> Seq<Seq<u8>> {
    fields.map_values(|blob: Vec<u8>| blob@)
}

impl View for DataEntry {
    type V = Seq<Seq<u8>>;

    closed spec fn view(&self) -> Seq<Seq<u8>> {
        blobs(self.fields@)
    }
}

impl Clone for DataEntry {
    fn clone(&self) -> (res: DataEntry)
        ensures
            res@ == self@,
    {
        let fields = self.fields.clone();
        assert(blobs(fields@) =~= blobs(self.fields@));
        DataEntry { fields }
    }
}

impl Default for DataEntry {
    /// The record without blobs.
    fn default() -> (entry: DataEntry)
        ensures
            entry@ == Seq::<Seq<u8>>::empty(),
    {
        DataEntry { fields: Vec::new() }
    }
}

impl DataEntry {
    /// Makes a record of the given blobs. Nothing is checked here: whether
    /// they fit a schema shows at each access through that schema.
    pub fn from_fields(fields: Vec<Vec<u8>>) -> (entry: DataEntry)
        ensures
            entry@ == blobs(fields@),
    {
        DataEntry { fields }
    }

    /// The blobs of the record, in order.
    pub fn fields(&self) -> (fields: &Vec<Vec<u8>>)
        ensures
            blobs(fields@) == self@,
    {
        &self.fields
    }
}

/// The fields of a record by name, each with its value, in the record's
/// order.
pub type Tuple = Vec<(String, Value)>;

/// The pairs of name and value as mathematical values.
pub open spec fn pairs(tuple: Seq<(String, Value)>) -> Seq<(Seq<char>, ValueView)> {
    tuple.map_values(|pair: (String, Value)| (pair.0@, pair.1@))
}

/// The values of a map as mathematical values.
pub open spec fn values(map: Map<Seq<char>, Value>) -> Map<Seq<char>, ValueView> {
    map.map_values(|value: Value| value@)
}

/// The names as texts.
pub open spec fn texts(names: Seq<&str>) -> Seq<Seq<char>> {
    names.map_values(|name: &str| name@)
}

/// The map that binds each name to the value of the last pair that bears it.
pub open spec fn bindings(pairs: Seq<(Seq<char>, ValueView)>) -> Map<Seq<char>, ValueView>
    decreases pairs.len(),
{
    if pairs.len() == 0 {
        Map::empty()
    } else {
        bindings(pairs.drop_last()).insert(pairs.last().0, pairs.last().1)
    }
}

/// A description of records: the type of their key and their fields in
/// order, each with a name and a type. The order of the fields is the order
/// of the blobs in a record.
#[derive(Debug)]
pub struct Schema {
    key: ValueType,
    fields: Vec<(String, ValueType)>,
}

/// The fields as pairs of name and type.
pub open spec fn field_list(fields: Seq<(String, ValueType)>) -> Seq<(Seq<char>, ValueType)> {
    fields.map_values(|field: (String, ValueType)| (field.0@, field.1))
}

/// The mathematical content of a [`Schema`].
pub struct SchemaView {
    pub key: ValueType,
    pub fields: Seq<(Seq<char>, ValueType)>,
}

impl SchemaView {
    /// The names of the fields, in order.
    pub open spec fn names(self) -> Seq<Seq<char>> {
        self.fields.map_values(|field: (Seq<char>, ValueType)| field.0)
    }

    /// Whether no two fields share a name.
    pub open spec fn has_unique_names(self) -> bool {
        self.names().no_duplicates()
    }

    /// Whether some field has this name.
    pub open spec fn has_field(self, name: Seq<char>) -> bool {
        self.names().contains(name)
    }

    /// Whether `at` is the place of the first field of this name.
    pub open spec fn is_position(self, name: Seq<char>, at: int) -> bool {
        &&& 0 <= at < self.fields.len()
        &&& self.fields[at].0 == name
        &&& forall|j: int| 0 <= j < at ==> self.fields[j].0 != name
    }

    /// The place of the first field of this name. Meaningful where
    /// [`Self::has_field`] holds.
    pub open spec fn position(self, name: Seq<char>) -> int {
        choose|at: int| self.is_position(name, at)
    }

    /// The declared type of the first field of this name.
    pub open spec fn field_type(self, name: Seq<char>) -> ValueType {
        self.fields[self.position(name)].1
    }

    /// Whether the record has one blob per field.
    pub open spec fn fits(self, entry: Seq<Seq<u8>>) -> bool {
        entry.len() == self.fields.len()
    }

    /// Whether the record is complete for this schema: it has one blob per
    /// field, and each blob is an encoding of its field's type.
    pub open spec fn conforms(self, entry: Seq<Seq<u8>>) -> bool {
        &&& self.fits(entry)
        &&& forall|i: int|
            0 <= i < self.fields.len() ==> (#[trigger] ValueView::decoding(
                entry[i],
                self.fields[i].1,
            )) is Some
    }

    /// What reading the field `name` of the record gives.
    pub open spec fn read(self, entry: Seq<Seq<u8>>, name: Seq<char>) -> Result<
        ValueView,
        SchemaErrorView,
    > {
        if !self.fits(entry) {
            Err(SchemaErrorView::EncodingError)
        } else if !self.has_field(name) {
            Err(SchemaErrorView::NoSuchField(name))
        } else {
            match ValueView::decoding(entry[self.position(name)], self.field_type(name)) {
                Some(value) => Ok(value),
                None => Err(SchemaErrorView::EncodingError),
            }
        }
    }

    /// What writing `value` to the field `name` of the record answers.
    pub open spec fn write_result(self, entry: Seq<Seq<u8>>, name: Seq<char>) -> Result<
        (),
        SchemaErrorView,
    > {
        if !self.fits(entry) {
            Err(SchemaErrorView::EncodingError)
        } else if !self.has_field(name) {
            Err(SchemaErrorView::NoSuchField(name))
        } else {
            Ok(())
        }
    }

    /// The record after writing `value` to the field `name`: the blob at the
    /// field's place is replaced by the value's encoding, whatever the
    /// value's tag; a failed write leaves the record as it was.
    pub open spec fn written(self, entry: Seq<Seq<u8>>, name: Seq<char>, value: ValueView) -> Seq<
        Seq<u8>,
    > {
        if self.write_result(entry, name) is Ok {
            entry.update(self.position(name), value.encoding())
        } else {
            entry
        }
    }

    /// The fields of a complete record in order, each with its name and its
    /// decoded value.
    pub open spec fn decoded(self, entry: Seq<Seq<u8>>) -> Seq<(Seq<char>, ValueView)> {
        Seq::new(
            self.fields.len(),
            |i: int|
                (self.fields[i].0, ValueView::decoding(entry[i], self.fields[i].1).unwrap()),
        )
    }

    /// What reading all fields of the record gives.
    pub open spec fn read_all(self, entry: Seq<Seq<u8>>) -> Result<
        Seq<(Seq<char>, ValueView)>,
        SchemaErrorView,
    > {
        if self.conforms(entry) {
            Ok(self.decoded(entry))
        } else {
            Err(SchemaErrorView::EncodingError)
        }
    }

    /// Whether a record that was cut down to the fields `filter`, in that
    /// order, is complete: it has one blob per name, and each blob is an
    /// encoding of the type that the schema declares for its name.
    pub open spec fn selection_conforms(self, entry: Seq<Seq<u8>>, filter: Seq<Seq<char>>) -> bool {
        &&& entry.len() == filter.len()
        &&& forall|i: int|
            0 <= i < filter.len() ==> (#[trigger] ValueView::decoding(
                entry[i],
                self.field_type(filter[i]),
            )) is Some
    }

    /// The blobs of such a record in order, each with the name at its place
    /// in `filter` and its decoded value.
    pub open spec fn selected(self, entry: Seq<Seq<u8>>, filter: Seq<Seq<char>>) -> Seq<
        (Seq<char>, ValueView),
    > {
        Seq::new(
            filter.len(),
            |i: int|
                (filter[i], ValueView::decoding(entry[i], self.field_type(filter[i])).unwrap()),
        )
    }

    /// What reading all blobs of such a record gives.
    pub open spec fn read_selection(self, entry: Seq<Seq<u8>>, filter: Seq<Seq<char>>) -> Result<
        Seq<(Seq<char>, ValueView)>,
        SchemaErrorView,
    > {
        if self.selection_conforms(entry, filter) {
            Ok(self.selected(entry, filter))
        } else {
            Err(SchemaErrorView::EncodingError)
        }
    }

    /// A field's place is unique: whatever satisfies [`Self::is_position`] is
    /// [`Self::position`], and a name has a place exactly when some field
    /// bears it.
    pub proof fn lemma_position(self, name: Seq<char>)
        ensures
            self.has_field(name) <==> exists|at: int| self.is_position(name, at),
            self.has_field(name) ==> self.is_position(name, self.position(name)),
            forall|at: int| self.is_position(name, at) ==> at == self.position(name),
    {
        let names = self.names();
        if self.has_field(name) {
            let at = names.index_of_first(name);
            names.index_of_first_ensures(name);
            assert forall|j: int| 0 <= j < at.unwrap() implies self.fields[j].0 != name by {
                assert(names[j] != name);
            }
            assert(self.is_position(name, at.unwrap()));
        }
        if exists|at: int| self.is_position(name, at) {
            let at = choose|at: int| self.is_position(name, at);
            assert(names[at] == name);
        }
        assert forall|at: int| self.is_position(name, at) implies at == self.position(name) by {
            let chosen = self.position(name);
            assert(self.is_position(name, chosen));
            if at < chosen {
                assert(self.fields[at].0 != name);
            } else if chosen < at {
                assert(self.fields[chosen].0 != name);
            }
        }
    }
}

impl View for Schema {
    type V = SchemaView;

    closed spec fn view(&self) -> SchemaView {
        SchemaView { key: self.key, fields: field_list(self.fields@) }
    }
}

impl Schema {
    /// Makes a schema of a key type and fields. Nothing is checked here:
    /// that no two fields share a name is the caller's to see to.
    pub fn from_parts(key: ValueType, fields: Vec<(String, ValueType)>) -> (schema: Schema)
        ensures
            schema@ == (SchemaView { key, fields: field_list(fields@) }),
    {
        Schema { key, fields }
    }

    /// The declared type of a record's key.
    pub fn get_key_type(&self) -> (key: ValueType)
        ensures
            key == self@.key,
    {
        self.key
    }

    /// The fields, in order.
    pub fn get_field_types(&self) -> (fields: &Vec<(String, ValueType)>)
        ensures
            field_list(fields@) == self@.fields,
    {
        &self.fields
    }

    /// A copy of the key type and of the fields.
    pub fn clone_inner(&self) -> (parts: (ValueType, Vec<(String, ValueType)>))
        ensures
            parts.0 == self@.key,
            field_list(parts.1@) == self@.fields,
    {
        let mut fields: Vec<(String, ValueType)> = Vec::new();
        let mut i: usize = 0;
        while i < self.fields.len()
            invariant
                i <= self.fields.len(),
                fields.len() == i,
                forall|j: int| 0 <= j < i ==> fields[j] == self.fields[j],
            decreases self.fields.len() - i,
        {
            let name = self.fields[i].0.clone();
            fields.push((name, self.fields[i].1));
            i += 1;
        }
        assert(fields@ =~= self.fields@);
        (self.key, fields)
    }

    /// The place of the first field named `name`, found by going through the
    /// fields in order.
    pub fn field_position(&self, name: &str) -> (found: Option<usize>)
        ensures
            found is Some <==> self@.has_field(name@),
            found matches Some(at) ==> at == self@.position(name@) && self@.is_position(
                name@,
                at as int,
            ),
    {
        let mut i: usize = 0;
        while i < self.fields.len()
            invariant
                i <= self.fields.len(),
                forall|j: int| 0 <= j < i ==> self@.fields[j].0 != name@,
            decreases self.fields.len() - i,
        {
            if same_text(self.fields[i].0.as_str(), name) {
                proof {
                    assert(self@.is_position(name@, i as int));
                    self@.lemma_position(name@);
                }
                return Some(i);
            }
            i += 1;
        }
        proof {
            self@.lemma_position(name@);
        }
        None
    }

    /// Writes `value` to the field `name` of the record, replacing the blob
    /// at the field's place by the value's encoding. The value's tag is not
    /// held against the field's type. A record without one blob per field is
    /// refused with `EncodingError`, an unknown name with `NoSuchField`; the
    /// record is then left as it was.
    pub fn set_field(&self, entry: &mut DataEntry, name: &str, value: &Value) -> (r: Result<
        (),
        SchemaError,
    >)
        ensures
            r is Ok <==> self@.write_result(old(entry)@, name@) is Ok,
            r matches Err(e) ==> Err::<(), SchemaErrorView>(e@) == self@.write_result(
                old(entry)@,
                name@,
            ),
            final(entry)@ == self@.written(old(entry)@, name@, value@),
    {
        if entry.fields.len() != self.fields.len() {
            return Err(SchemaError::EncodingError);
        }
        let bytes = value.serialize_inner();
        match self.field_position(name) {
            Some(at) => {
                entry.fields.set(at, bytes);
                assert(entry@ =~= self@.written(old(entry)@, name@, value@));
                Ok(())
            },
            None => Err(SchemaError::NoSuchField(name.to_owned())),
        }
    }

    /// Reads the field `name` of the record: the blob at the field's place,
    /// decoded against the field's declared type. A record without one blob
    /// per field is refused with `EncodingError`, an unknown name with
    /// `NoSuchField`, and a blob that is no encoding of the field's type
    /// with `EncodingError`.
    pub fn get_field(&self, entry: &DataEntry, name: &str) -> (r: Result<Value, SchemaError>)
        ensures
            match r {
                Ok(value) => self@.read(entry@, name@) == Ok::<ValueView, SchemaErrorView>(
                    value@,
                ),
                Err(e) => self@.read(entry@, name@) == Err::<ValueView, SchemaErrorView>(e@),
            },
    {
        if entry.fields.len() != self.fields.len() {
            return Err(SchemaError::EncodingError);
        }
        match self.field_position(name) {
            Some(at) => match Value::from_bytes(entry.fields[at].as_slice(), &self.fields[at].1) {
                Ok(value) => Ok(value),
                Err(_) => Err(SchemaError::EncodingError),
            },
            None => Err(SchemaError::NoSuchField(name.to_owned())),
        }
    }

    /// Reads all fields of the record, in the schema's order, each with its
    /// name. A record that is not complete for this schema is refused with
    /// `EncodingError`.
    pub fn get_fields_as_tuple(&self, entry: &DataEntry) -> (r: Result<Tuple, SchemaError>)
        ensures
            match r {
                Ok(tuple) => self@.read_all(entry@) == Ok::<
                    Seq<(Seq<char>, ValueView)>,
                    SchemaErrorView,
                >(pairs(tuple@)),
                Err(e) => self@.read_all(entry@) == Err::<
                    Seq<(Seq<char>, ValueView)>,
                    SchemaErrorView,
                >(e@),
            },
    {
        if entry.fields.len() != self.fields.len() {
            return Err(SchemaError::EncodingError);
        }
        let mut result: Vec<(String, Value)> = Vec::new();
        let mut pos: usize = 0;
        while pos < self.fields.len()
            invariant
                pos <= self.fields.len() == entry.fields.len(),
                result.len() == pos,
                forall|j: int|
                    0 <= j < pos ==> Some(result[j].1@) == (#[trigger] ValueView::decoding(
                        entry@[j],
                        self@.fields[j].1,
                    )) && result[j].0@ == self@.fields[j].0,
            decreases self.fields.len() - pos,
        {
            match Value::from_bytes(entry.fields[pos].as_slice(), &self.fields[pos].1) {
                Ok(value) => {
                    result.push((self.fields[pos].0.clone(), value));
                },
                Err(_) => {
                    assert(ValueView::decoding(entry@[pos as int], self@.fields[pos as int].1)
                        is None);
                    return Err(SchemaError::EncodingError);
                },
            }
            pos += 1;
        }
        assert(pairs(result@) =~= self@.decoded(entry@));
        Ok(result)
    }

    /// Reads all fields of the record into a map from name to value. A
    /// record that is not complete for this schema is refused with
    /// `EncodingError`.
    pub fn get_fields(&self, entry: &DataEntry) -> (r: Result<StringHashMap<Value>, SchemaError>)
        ensures
            match r {
                Ok(map) => self@.read_all(entry@) is Ok && values(map@) == bindings(
                    self@.decoded(entry@),
                ),
                Err(e) => self@.read_all(entry@) == Err::<
                    Seq<(Seq<char>, ValueView)>,
                    SchemaErrorView,
                >(e@),
            },
    {
        if entry.fields.len() != self.fields.len() {
            return Err(SchemaError::EncodingError);
        }
        let mut result: StringHashMap<Value> = StringHashMap::new();
        let mut pos: usize = 0;
        assert(self@.decoded(entry@).subrange(0, 0) =~= Seq::empty());
        assert(values(result@) =~= Map::empty());
        while pos < self.fields.len()
            invariant
                pos <= self.fields.len() == entry.fields.len(),
                forall|j: int|
                    0 <= j < pos ==> (#[trigger] ValueView::decoding(
                        entry@[j],
                        self@.fields[j].1,
                    )) is Some,
                values(result@) == bindings(self@.decoded(entry@).subrange(0, pos as int)),
            decreases self.fields.len() - pos,
        {
            match Value::from_bytes(entry.fields[pos].as_slice(), &self.fields[pos].1) {
                Ok(value) => {
                    let ghost before = result@;
                    let ghost read = self@.decoded(entry@);
                    result.insert(self.fields[pos].0.clone(), value);
                    proof {
                        assert(read.subrange(0, pos + 1).drop_last() =~= read.subrange(
                            0,
                            pos as int,
                        ));
                        assert(values(result@) =~= values(before).insert(
                            read[pos as int].0,
                            read[pos as int].1,
                        ));
                    }
                },
                Err(_) => {
                    assert(ValueView::decoding(entry@[pos as int], self@.fields[pos as int].1)
                        is None);
                    return Err(SchemaError::EncodingError);
                },
            }
            pos += 1;
        }
        assert(self@.decoded(entry@).subrange(0, pos as int) =~= self@.decoded(entry@));
        Ok(result)
    }

    /// Reads a record that was cut down to the fields `filter`, in that
    /// order, into a map from name to value: the blob at each place is
    /// decoded against the type that the schema declares for the name at the
    /// same place in `filter`. A record without one blob per name, or with a
    /// blob that is no encoding of that type, is refused with
    /// `EncodingError`.
    pub fn get_fields_with_filter(&self, entry: &DataEntry, filter: &[&str]) -> (r: Result<
        StringHashMap<Value>,
        SchemaError,
    >)
        requires
            entry@.len() == filter@.len() ==> forall|i: int|
                0 <= i < filter@.len() ==> self@.has_field(#[trigger] filter@[i]@),
        ensures
            match r {
                Ok(map) => self@.read_selection(entry@, texts(filter@)) is Ok && values(map@)
                    == bindings(self@.selected(entry@, texts(filter@))),
                Err(e) => self@.read_selection(entry@, texts(filter@)) == Err::<
                    Seq<(Seq<char>, ValueView)>,
                    SchemaErrorView,
                >(e@),
            },
    {
        if entry.fields.len() != filter.len() {
            return Err(SchemaError::EncodingError);
        }
        let ghost names = texts(filter@);
        let mut result: StringHashMap<Value> = StringHashMap::new();
        let mut pos: usize = 0;
        assert(self@.selected(entry@, names).subrange(0, 0) =~= Seq::empty());
        assert(values(result@) =~= Map::empty());
        while pos < filter.len()
            invariant
                pos <= filter@.len() == entry.fields.len(),
                names == texts(filter@),
                forall|i: int| 0 <= i < filter@.len() ==> self@.has_field(#[trigger] filter@[i]@),
                forall|j: int|
                    0 <= j < pos ==> (#[trigger] ValueView::decoding(
                        entry@[j],
                        self@.field_type(names[j]),
                    )) is Some,
                values(result@) == bindings(self@.selected(entry@, names).subrange(0, pos as int)),
            decreases filter@.len() - pos,
        {
            let name = filter[pos];
            let at = match self.field_position(name) {
                Some(at) => at,
                None => unreached(),
            };
            match Value::from_bytes(entry.fields[pos].as_slice(), &self.fields[at].1) {
                Ok(value) => {
                    let ghost before = result@;
                    let ghost read = self@.selected(entry@, names);
                    result.insert(name.to_owned(), value);
                    proof {
                        assert(read.subrange(0, pos + 1).drop_last() =~= read.subrange(
                            0,
                            pos as int,
                        ));
                        assert(values(result@) =~= values(before).insert(
                            read[pos as int].0,
                            read[pos as int].1,
                        ));
                    }
                },
                Err(_) => {
                    assert(ValueView::decoding(
                        entry@[pos as int],
                        self@.field_type(names[pos as int]),
                    ) is None);
                    return Err(SchemaError::EncodingError);
                },
            }
            pos += 1;
        }
        assert(self@.selected(entry@, names).subrange(0, pos as int) =~= self@.selected(
            entry@,
            names,
        ));
        Ok(result)
    }

    /// Starts a record for this schema, with no blob recorded yet.
    pub fn build_entry(&self) -> (builder: EntryBuilder<'_>)
        ensures
            builder@ == (EntryBuilderView { schema: self@.fields, recorded: Map::empty() }),
    {
        EntryBuilder::new(&self.fields)
    }
}

} // verus!
