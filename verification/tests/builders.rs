use record_schema::{DataEntry, Schema, SchemaBuilder, Value, ValueType};

#[test]
fn schema_builder_keeps_order() {
    let builder = SchemaBuilder::new(ValueType::U64);
    assert!(!builder.has_field("b"));
    let builder = builder.add_field("b", ValueType::Bool);
    assert!(builder.has_field("b"));
    assert!(!builder.has_field("a"));
    let schema = builder.add_field("a", ValueType::F64).build();
    assert_eq!(schema.get_key_type(), ValueType::U64);
    assert_eq!(
        schema.get_field_types(),
        &vec![("b".to_string(), ValueType::Bool), ("a".to_string(), ValueType::F64)]
    );
}

#[test]
fn empty_schema_builds_empty_entry() {
    let schema = SchemaBuilder::new(ValueType::String).build();
    assert!(schema.get_field_types().is_empty());
    let builder = schema.build_entry();
    assert!(builder.is_complete());
    assert_eq!(builder.build(), DataEntry::from_fields(vec![]));
}

#[test]
fn entry_builder_knows_when_it_is_complete() {
    let schema = SchemaBuilder::new(ValueType::Bool)
        .add_field("value1", ValueType::String)
        .add_field("value2", ValueType::I64)
        .build();
    let builder = schema.build_entry();
    assert!(!builder.is_complete());
    let builder = builder.set_field("value2", &42i64);
    assert!(!builder.is_complete());
    let builder = builder.set_field("other", &true);
    assert!(!builder.is_complete());
    let builder = builder.set_field("value1", &"foobar");
    assert!(builder.is_complete());
}

#[test]
fn entry_builder_rejects_repeated_names() {
    let schema = Schema::from_parts(
        ValueType::Bool,
        vec![("a".to_string(), ValueType::Bool), ("a".to_string(), ValueType::Bool)],
    );
    let builder = schema.build_entry().set_field("a", &true);
    assert!(!builder.is_complete());
}

#[test]
fn last_write_wins_and_extra_names_are_dropped() {
    let schema = SchemaBuilder::new(ValueType::Bool)
        .add_field("value1", ValueType::String)
        .add_field("value2", ValueType::I64)
        .build();
    let entry = schema
        .build_entry()
        .set_field("value2", &1i64)
        .set_field("extra", &7u64)
        .set_field("value1", &"first")
        .set_field("value2", &2i64)
        .set_field("value1", &"second".to_string())
        .build();
    assert_eq!(entry.fields().len(), 2);
    assert_eq!(schema.get_field(&entry, "value1"), Ok(Value::String("second".to_string())));
    assert_eq!(schema.get_field(&entry, "value2"), Ok(Value::I64(2)));
}

#[test]
fn blobs_come_in_schema_order() {
    let schema = SchemaBuilder::new(ValueType::Bool)
        .add_field("flag", ValueType::Bool)
        .add_field("count", ValueType::U64)
        .build();
    let entry = schema
        .build_entry()
        .set_field("count", &3u64)
        .set_field("flag", &true)
        .build();
    assert_eq!(
        entry,
        DataEntry::from_fields(vec![vec![1u8], vec![3u8, 0, 0, 0, 0, 0, 0, 0]])
    );
}

#[test]
fn set_field_from_value_stores_the_untagged_payload() {
    let schema = SchemaBuilder::new(ValueType::Bool)
        .add_field("text", ValueType::String)
        .add_field("ratio", ValueType::F64)
        .add_field("doc", ValueType::Json)
        .build();
    let doc = Value::Json(Box::new(serde_json::Value::Null));
    let entry = schema
        .build_entry()
        .set_field_from_value("text", &Value::String("hi".to_string()))
        .set_field_from_value("ratio", &Value::F64(0.5f64.to_bits()))
        .set_field_from_value("doc", &doc)
        .build();
    assert_eq!(
        entry.fields()[0],
        vec![2u8, 0, 0, 0, 0, 0, 0, 0, b'h', b'i']
    );
    assert_eq!(entry.fields()[1], 0.5f64.to_le_bytes().to_vec());
    assert_eq!(entry.fields()[2], b"null".to_vec());
    assert_eq!(schema.get_field(&entry, "ratio"), Ok(Value::F64(0.5f64.to_bits())));
    assert_eq!(schema.get_field(&entry, "doc"), Ok(doc));
}

#[test]
fn builder_does_not_check_types() {
    let schema = SchemaBuilder::new(ValueType::Bool)
        .add_field("count", ValueType::U64)
        .build();
    let entry = schema.build_entry().set_field("count", &true).build();
    assert_eq!(entry.fields()[0], vec![1u8]);
}
