//! What holds of every schema and every record, stated over the functions
//! that the contracts of the accessors and builders speak of.

use crate::builders::EntryBuilderView;
use crate::schema::{bindings, SchemaErrorView, SchemaView};
use crate::value::{ValueType, ValueView};
use vstd::prelude::*;

verus! {

/// The blobs that encode the given values, one for one.
pub open spec fn encodings(values: Seq<ValueView>) -> Seq<Seq<u8>> {
    values.map_values(|value: ValueView| value.encoding())
}

/// A value that is read from a blob carries the tag that the blob was read
/// against.
pub proof fn lemma_decoding_has_declared_tag(bytes: Seq<u8>, t: ValueType)
    ensures
        ValueView::decoding(bytes, t) matches Some(value) ==> value.tag() == t,
{
}

/// A map of bindings has exactly the names of its pairs as keys, and binds
/// each name to the value of the last pair that bears it.
pub proof fn lemma_bindings(pairs: Seq<(Seq<char>, ValueView)>)
    ensures
        forall|name: Seq<char>|
            bindings(pairs).contains_key(name) <==> exists|i: int|
                0 <= i < pairs.len() && (#[trigger] pairs[i]).0 == name,
        forall|i: int|
            0 <= i < pairs.len() && (forall|j: int| i < j < pairs.len() ==> pairs[j].0 != pairs[i].0)
                ==> bindings(pairs)[(#[trigger] pairs[i]).0] == pairs[i].1,
    decreases pairs.len(),
{
    if pairs.len() > 0 {
        let front = pairs.drop_last();
        let last = pairs.last();
        lemma_bindings(front);
        assert(bindings(pairs) == bindings(front).insert(last.0, last.1));
        assert forall|name: Seq<char>| bindings(pairs).contains_key(name) implies exists|i: int|
            0 <= i < pairs.len() && (#[trigger] pairs[i]).0 == name by {
            if name == last.0 {
                assert(pairs[pairs.len() - 1].0 == name);
            } else {
                assert(bindings(front).contains_key(name));
                let i = choose|i: int| 0 <= i < front.len() && (#[trigger] front[i]).0 == name;
                assert(pairs[i].0 == name);
            }
        }
        assert forall|name: Seq<char>|
            (exists|i: int|
                0 <= i < pairs.len() && (#[trigger] pairs[i]).0 == name) implies bindings(
            pairs,
        ).contains_key(name) by {
            let i = choose|i: int| 0 <= i < pairs.len() && (#[trigger] pairs[i]).0 == name;
            if i < front.len() {
                assert(front[i].0 == name);
            }
        }
        assert forall|i: int|
            0 <= i < pairs.len() && (forall|j: int|
                i < j < pairs.len() ==> pairs[j].0 != pairs[i].0) implies bindings(
            pairs,
        )[(#[trigger] pairs[i]).0] == pairs[i].1 by {
            if i < front.len() {
                assert(front[i] == pairs[i]);
                assert(pairs[pairs.len() - 1].0 != pairs[i].0);
                assert forall|j: int| i < j < front.len() implies front[j].0 != front[i].0 by {
                    assert(front[j] == pairs[j]);
                }
            }
        }
    }
}

/// A record that is built for a schema has one blob per field of the schema.
pub proof fn lemma_built_record_fits(schema: SchemaView, builder: EntryBuilderView)
    requires
        builder.schema == schema.fields,
        builder.is_complete(),
    ensures
        schema.fits(builder.built()),
{
}

/// A record whose blobs encode values of the declared types, none of them a
/// document, is complete for the schema, and reading all its fields gives
/// those values back, each under its field's name.
pub proof fn lemma_encoded_record_conforms(schema: SchemaView, values: Seq<ValueView>)
    requires
        values.len() == schema.fields.len(),
        forall|i: int|
            0 <= i < values.len() ==> {
                &&& (#[trigger] values[i]).tag() == schema.fields[i].1
                &&& values[i].tag() != ValueType::Json
                &&& values[i].encodable()
            },
    ensures
        schema.conforms(encodings(values)),
        schema.decoded(encodings(values)) == Seq::new(
            values.len(),
            |i: int| (schema.fields[i].0, values[i]),
        ),
{
    let entry = encodings(values);
    assert forall|i: int| 0 <= i < schema.fields.len() implies (#[trigger] ValueView::decoding(
        entry[i],
        schema.fields[i].1,
    )) == Some(values[i]) by {
        values[i].lemma_decoding_of_encoding();
    }
    assert(schema.decoded(entry) =~= Seq::new(
        values.len(),
        |i: int| (schema.fields[i].0, values[i]),
    ));
}

/// Reading a field that the schema has from a complete record succeeds, and
/// the value carries the field's declared type as its tag.
pub proof fn lemma_read_of_complete_record(
    schema: SchemaView,
    entry: Seq<Seq<u8>>,
    name: Seq<char>,
)
    requires
        schema.conforms(entry),
        schema.has_field(name),
    ensures
        schema.read(entry, name) is Ok,
        schema.read(entry, name)->Ok_0.tag() == schema.field_type(name),
{
    schema.lemma_position(name);
}

/// After a value of the field's declared type is written to a field, reading
/// that field gives the value back; the record keeps its length, every
/// other blob stays as it was, and so does what reading any other name gives.
///
/// A document is held to this only where its JSON text reads back as the
/// same document.
pub proof fn lemma_read_after_write(
    schema: SchemaView,
    entry: Seq<Seq<u8>>,
    name: Seq<char>,
    value: ValueView,
)
    requires
        schema.fits(entry),
        schema.has_field(name),
        value.tag() == schema.field_type(name),
        value.encodable(),
        value.tag() == ValueType::Json ==> ValueView::decoding(value.encoding(), ValueType::Json)
            == Some(value),
    ensures
        schema.write_result(entry, name) is Ok,
        schema.read(schema.written(entry, name, value), name) == Ok::<ValueView, SchemaErrorView>(
            value,
        ),
        schema.fits(schema.written(entry, name, value)),
        forall|i: int|
            0 <= i < entry.len() && i != schema.position(name) ==> schema.written(
                entry,
                name,
                value,
            )[i] == entry[i],
        forall|other: Seq<char>|
            other != name ==> schema.read(schema.written(entry, name, value), other)
                == schema.read(entry, other),
{
    schema.lemma_position(name);
    if value.tag() != ValueType::Json {
        value.lemma_decoding_of_encoding();
    }
    assert forall|other: Seq<char>| other != name implies schema.read(
        schema.written(entry, name, value),
        other,
    ) == schema.read(entry, other) by {
        schema.lemma_position(other);
    }
}

/// Reading all fields of a complete record succeeds. The pairs come in the
/// schema's order, one per field and under the field's name; the map has
/// exactly the schema's field names as keys, and where no two fields share
/// a name it binds each name to the value of its field.
pub proof fn lemma_read_all_of_complete_record(schema: SchemaView, entry: Seq<Seq<u8>>)
    requires
        schema.conforms(entry),
    ensures
        schema.read_all(entry) is Ok,
        schema.decoded(entry).len() == schema.fields.len(),
        forall|i: int|
            0 <= i < schema.fields.len() ==> (#[trigger] schema.decoded(entry)[i]).0
                == schema.fields[i].0,
        bindings(schema.decoded(entry)).dom() == schema.names().to_set(),
        schema.has_unique_names() ==> forall|i: int|
            0 <= i < schema.fields.len() ==> bindings(schema.decoded(entry))[(
            #[trigger] schema.fields[i]).0] == schema.decoded(entry)[i].1,
{
    let read = schema.decoded(entry);
    let names = schema.names();
    lemma_bindings(read);
    assert forall|name: Seq<char>| bindings(read).dom().contains(name) implies names.to_set()
        .contains(name) by {
        let i = choose|i: int| 0 <= i < read.len() && (#[trigger] read[i]).0 == name;
        assert(names[i] == name);
    }
    assert forall|name: Seq<char>| names.to_set().contains(name) implies bindings(read).dom()
        .contains(name) by {
        let i = choose|i: int| 0 <= i < names.len() && names[i] == name;
        assert(read[i].0 == name);
    }
    assert(bindings(read).dom() =~= names.to_set());
    if schema.has_unique_names() {
        assert forall|i: int| 0 <= i < schema.fields.len() implies bindings(read)[(
        #[trigger] schema.fields[i]).0] == read[i].1 by {
            assert forall|j: int| i < j < read.len() implies read[j].0 != read[i].0 by {
                assert(names[j] != names[i]);
            }
            assert(read[i].0 == schema.fields[i].0);
        }
    }
}

/// A name that the schema does not have is answered with `NoSuchField` of
/// that name, by a read and by a write, on every record with one blob per
/// field; the write leaves the record as it was.
pub proof fn lemma_unknown_name(
    schema: SchemaView,
    entry: Seq<Seq<u8>>,
    name: Seq<char>,
    value: ValueView,
)
    requires
        schema.fits(entry),
        !schema.has_field(name),
    ensures
        schema.read(entry, name) == Err::<ValueView, SchemaErrorView>(
            SchemaErrorView::NoSuchField(name),
        ),
        schema.write_result(entry, name) == Err::<(), SchemaErrorView>(
            SchemaErrorView::NoSuchField(name),
        ),
        schema.written(entry, name, value) == entry,
{
}

/// A record that does not have one blob per field is answered with
/// `EncodingError` by every access that goes by the schema's fields,
/// whatever the name; a write leaves it as it was.
pub proof fn lemma_misfit_record(
    schema: SchemaView,
    entry: Seq<Seq<u8>>,
    name: Seq<char>,
    value: ValueView,
)
    requires
        !schema.fits(entry),
    ensures
        schema.read(entry, name) == Err::<ValueView, SchemaErrorView>(
            SchemaErrorView::EncodingError,
        ),
        schema.write_result(entry, name) == Err::<(), SchemaErrorView>(
            SchemaErrorView::EncodingError,
        ),
        schema.written(entry, name, value) == entry,
        schema.read_all(entry) == Err::<Seq<(Seq<char>, ValueView)>, SchemaErrorView>(
            SchemaErrorView::EncodingError,
        ),
{
}

/// A record that was cut down to a list of names is answered with
/// `EncodingError` where it does not have one blob per name.
pub proof fn lemma_misfit_selection(
    schema: SchemaView,
    entry: Seq<Seq<u8>>,
    filter: Seq<Seq<char>>,
)
    requires
        entry.len() != filter.len(),
    ensures
        schema.read_selection(entry, filter) == Err::<
            Seq<(Seq<char>, ValueView)>,
            SchemaErrorView,
        >(SchemaErrorView::EncodingError),
{
}

} // verus!
