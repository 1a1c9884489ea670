use record_schema::{DataEntry, Schema, SchemaBuilder, SchemaError, Value, ValueType};

fn two_field_schema() -> Schema {
    SchemaBuilder::new(ValueType::Bool)
        .add_field("value1", ValueType::String)
        .add_field("value2", ValueType::I64)
        .build()
}

fn foobar_entry(schema: &Schema) -> DataEntry {
    schema
        .build_entry()
        .set_field("value1", &"foobar")
        .set_field("value2", &42i64)
        .build()
}

#[test]
fn get_is_set() {
    let schema = SchemaBuilder::new(ValueType::Bool)
        .add_field("value1", ValueType::String)
        .add_field("value2", ValueType::I64)
        .build();

    let mut entry = schema
        .build_entry()
        .set_field("value1", &"foobar")
        .set_field("value2", &42i64)
        .build();

    assert_eq!(schema.get_field(&entry, "value1").unwrap(), "foobar".into());
    assert_eq!(schema.get_field(&entry, "value2").unwrap(), 42.into());

    schema
        .set_field(&mut entry, "value1", &"foobaz".into())
        .unwrap();

    assert_eq!(schema.get_field(&entry, "value1").unwrap(), "foobaz".into());
    assert_eq!(
        schema.get_fields(&entry).unwrap().get("value1"),
        Some(&"foobaz".into())
    );
    assert_eq!(
        schema
            .get_fields_as_tuple(&entry)
            .unwrap()
            .get(1)
            .unwrap()
            .1,
        42.into()
    );
}

#[test]
fn built_entry_reads_back() {
    let schema = two_field_schema();
    let entry = foobar_entry(&schema);
    assert_eq!(
        schema.get_field(&entry, "value1"),
        Ok(Value::String("foobar".to_string()))
    );
    assert_eq!(schema.get_field(&entry, "value2"), Ok(Value::I64(42)));
}

#[test]
fn built_entry_has_one_blob_per_field() {
    let schema = two_field_schema();
    let entry = foobar_entry(&schema);
    assert_eq!(entry.fields().len(), schema.get_field_types().len());
    assert_eq!(
        entry.fields()[0],
        vec![6u8, 0, 0, 0, 0, 0, 0, 0, b'f', b'o', b'o', b'b', b'a', b'r']
    );
    assert_eq!(entry.fields()[1], vec![42u8, 0, 0, 0, 0, 0, 0, 0]);
}

#[test]
fn read_value_carries_declared_tag() {
    let schema = two_field_schema();
    let entry = foobar_entry(&schema);
    assert_eq!(
        schema.get_field(&entry, "value1").unwrap().value_type(),
        ValueType::String
    );
    assert_eq!(
        schema.get_field(&entry, "value2").unwrap().value_type(),
        ValueType::I64
    );
}

#[test]
fn write_replaces_one_field_only() {
    let schema = two_field_schema();
    let mut entry = foobar_entry(&schema);
    let before = entry.clone();
    assert_eq!(
        schema.set_field(&mut entry, "value1", &Value::String("foobaz".to_string())),
        Ok(())
    );
    assert_eq!(
        schema.get_field(&entry, "value1"),
        Ok(Value::String("foobaz".to_string()))
    );
    assert_eq!(schema.get_fields(&entry).unwrap().get("value2"), Some(&Value::I64(42)));
    assert_eq!(entry.fields().len(), 2);
    assert_eq!(entry.fields()[1], before.fields()[1]);
    assert_ne!(entry, before);
}

#[test]
fn write_does_not_check_the_tag() {
    let schema = two_field_schema();
    let mut entry = foobar_entry(&schema);
    assert_eq!(schema.set_field(&mut entry, "value1", &Value::Bool(true)), Ok(()));
    assert_eq!(entry.fields()[0], vec![1u8]);
    assert_eq!(schema.get_field(&entry, "value1"), Err(SchemaError::EncodingError));
    assert_eq!(schema.get_fields(&entry).err(), Some(SchemaError::EncodingError));
    assert_eq!(schema.get_fields_as_tuple(&entry), Err(SchemaError::EncodingError));
}

#[test]
fn tuple_keeps_schema_order() {
    let schema = two_field_schema();
    let entry = foobar_entry(&schema);
    let tuple = schema.get_fields_as_tuple(&entry).unwrap();
    assert_eq!(tuple.len(), 2);
    assert_eq!(tuple[0], ("value1".to_string(), Value::String("foobar".to_string())));
    assert_eq!(tuple[1], ("value2".to_string(), Value::I64(42)));
}

#[test]
fn map_has_the_field_names_as_keys() {
    let schema = two_field_schema();
    let entry = foobar_entry(&schema);
    let map = schema.get_fields(&entry).unwrap();
    assert_eq!(map.len(), 2);
    assert!(map.contains_key("value1"));
    assert!(map.contains_key("value2"));
    assert!(!map.contains_key("value3"));
    assert_eq!(map.get("value1"), Some(&Value::String("foobar".to_string())));
    assert_eq!(map.get("value2"), Some(&Value::I64(42)));
}

#[test]
fn unknown_name_is_no_such_field() {
    let schema = two_field_schema();
    let mut entry = foobar_entry(&schema);
    let before = entry.clone();
    assert_eq!(
        schema.set_field(&mut entry, "no_such", &Value::I64(0)),
        Err(SchemaError::NoSuchField("no_such".to_string()))
    );
    assert_eq!(entry, before);
    assert_eq!(
        schema.get_field(&entry, "no_such"),
        Err(SchemaError::NoSuchField("no_such".to_string()))
    );
}

#[test]
fn empty_entry_is_encoding_error() {
    let schema = two_field_schema();
    let mut entry = DataEntry::from_fields(vec![]);
    assert_eq!(schema.get_field(&entry, "value1"), Err(SchemaError::EncodingError));
    assert_eq!(schema.get_field(&entry, "no_such"), Err(SchemaError::EncodingError));
    assert_eq!(
        schema.set_field(&mut entry, "value1", &Value::String("x".to_string())),
        Err(SchemaError::EncodingError)
    );
    assert_eq!(
        schema.set_field(&mut entry, "no_such", &Value::I64(0)),
        Err(SchemaError::EncodingError)
    );
    assert_eq!(entry, DataEntry::from_fields(vec![]));
    assert_eq!(schema.get_fields(&entry).err(), Some(SchemaError::EncodingError));
    assert_eq!(schema.get_fields_as_tuple(&entry), Err(SchemaError::EncodingError));
    assert_eq!(
        schema.get_fields_with_filter(&entry, &["value1"]).err(),
        Some(SchemaError::EncodingError)
    );
}

#[test]
fn too_long_entry_is_encoding_error() {
    let schema = two_field_schema();
    let entry = DataEntry::from_fields(vec![vec![0u8; 8], vec![0u8; 8], vec![0u8; 8]]);
    assert_eq!(schema.get_field(&entry, "value2"), Err(SchemaError::EncodingError));
    assert_eq!(schema.get_fields_as_tuple(&entry), Err(SchemaError::EncodingError));
}

#[test]
fn undecodable_blob_is_encoding_error() {
    let schema = two_field_schema();
    let entry = DataEntry::from_fields(vec![vec![0u8; 8], vec![1u8, 2, 3]]);
    assert_eq!(schema.get_field(&entry, "value1"), Ok(Value::String(String::new())));
    assert_eq!(schema.get_field(&entry, "value2"), Err(SchemaError::EncodingError));
    assert_eq!(schema.get_fields(&entry).err(), Some(SchemaError::EncodingError));
    assert_eq!(schema.get_fields_as_tuple(&entry), Err(SchemaError::EncodingError));
}

#[test]
fn filter_pairs_blobs_with_names_by_place() {
    let schema = two_field_schema();
    let projected = DataEntry::from_fields(vec![vec![42u8, 0, 0, 0, 0, 0, 0, 0]]);
    let map = schema.get_fields_with_filter(&projected, &["value2"]).unwrap();
    assert_eq!(map.len(), 1);
    assert_eq!(map.get("value2"), Some(&Value::I64(42)));

    let entry = foobar_entry(&schema);
    let swapped = DataEntry::from_fields(vec![entry.fields()[1].clone(), entry.fields()[0].clone()]);
    let map = schema
        .get_fields_with_filter(&swapped, &["value2", "value1"])
        .unwrap();
    assert_eq!(map.get("value1"), Some(&Value::String("foobar".to_string())));
    assert_eq!(map.get("value2"), Some(&Value::I64(42)));
}

#[test]
fn filter_goes_by_its_own_length() {
    let schema = two_field_schema();
    let entry = DataEntry::from_fields(vec![
        vec![1u8, 0, 0, 0, 0, 0, 0, 0],
        vec![2u8, 0, 0, 0, 0, 0, 0, 0],
        vec![3u8, 0, 0, 0, 0, 0, 0, 0],
    ]);
    let map = schema
        .get_fields_with_filter(&entry, &["value2", "value2", "value2"])
        .unwrap();
    assert_eq!(map.len(), 1);
    assert_eq!(map.get("value2"), Some(&Value::I64(3)));
    assert_eq!(
        schema.get_fields_with_filter(&entry, &["value2", "value2"]).err(),
        Some(SchemaError::EncodingError)
    );
    let bad = DataEntry::from_fields(vec![vec![1u8]]);
    assert_eq!(
        schema.get_fields_with_filter(&bad, &["value2"]).err(),
        Some(SchemaError::EncodingError)
    );
}

#[test]
fn schema_parts() {
    let schema = two_field_schema();
    assert_eq!(schema.get_key_type(), ValueType::Bool);
    let expected = vec![
        ("value1".to_string(), ValueType::String),
        ("value2".to_string(), ValueType::I64),
    ];
    assert_eq!(schema.get_field_types(), &expected);
    assert_eq!(schema.clone_inner(), (ValueType::Bool, expected.clone()));
    let copy = Schema::from_parts(ValueType::Bool, expected);
    assert_eq!(copy.get_field_types(), schema.get_field_types());
    assert_eq!(schema.field_position("value1"), Some(0));
    assert_eq!(schema.field_position("value2"), Some(1));
    assert_eq!(schema.field_position("value"), None);
}

#[test]
fn first_field_of_a_name_is_read() {
    let schema = Schema::from_parts(
        ValueType::U64,
        vec![
            ("a".to_string(), ValueType::Bool),
            ("a".to_string(), ValueType::U64),
        ],
    );
    let mut entry = DataEntry::from_fields(vec![vec![1u8], vec![7u8, 0, 0, 0, 0, 0, 0, 0]]);
    assert_eq!(schema.field_position("a"), Some(0));
    assert_eq!(schema.get_field(&entry, "a"), Ok(Value::Bool(true)));
    let map = schema.get_fields(&entry).unwrap();
    assert_eq!(map.len(), 1);
    assert_eq!(map.get("a"), Some(&Value::U64(7)));
    assert_eq!(schema.set_field(&mut entry, "a", &Value::Bool(false)), Ok(()));
    assert_eq!(entry.fields()[0], vec![0u8]);
    assert_eq!(entry.fields()[1], vec![7u8, 0, 0, 0, 0, 0, 0, 0]);
}

#[test]
fn error_texts() {
    assert_eq!(
        SchemaError::NoSuchField("no_such".to_string()).to_string(),
        "No such field: no_such"
    );
    assert_eq!(
        SchemaError::EncodingError.to_string(),
        "Failed to encode or decode data"
    );
    assert_eq!(
        SchemaError::NoSuchField("x".to_string()).clone(),
        SchemaError::NoSuchField("x".to_string())
    );
}

#[test]
fn default_entry_is_empty() {
    assert_eq!(DataEntry::default(), DataEntry::from_fields(vec![]));
    assert!(DataEntry::default().fields().is_empty());
}
