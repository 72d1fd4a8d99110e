use hydrate::error::DataSetError;
use hydrate::ids::SchemaFingerprint;
use hydrate::path::split_path;
use hydrate::schema::{
    parse_decimal_u32, str_eq, Schema, SchemaDefRecordFieldMarkup, SchemaDefRecordMarkup, SchemaMap,
    SchemaRecord, SchemaRecordField, SchemaStaticArray,
};
use hydrate::schema_set::{SchemaEnum, SchemaEnumSymbol, SchemaFixed, SchemaNamedType, SchemaSet};
use hydrate::value::{Value, ValueEnum};

fn set() -> SchemaSet {
    let inner = SchemaRecord::new(
        "Inner".to_string(),
        SchemaFingerprint(5),
        vec![],
        vec![SchemaRecordField::new("v".to_string(), vec![], Schema::U64, SchemaDefRecordFieldMarkup::default())],
        SchemaDefRecordMarkup::default(),
    );
    let outer = SchemaRecord::new(
        "Outer".to_string(),
        SchemaFingerprint(6),
        vec!["Old".to_string()],
        vec![
            SchemaRecordField::new("inner".to_string(), vec![], Schema::NamedType(SchemaFingerprint(5)), SchemaDefRecordFieldMarkup::default()),
            SchemaRecordField::new(
                "arr".to_string(),
                vec![],
                Schema::StaticArray(SchemaStaticArray { item_type: Box::new(Schema::I64), length: 4 }),
                SchemaDefRecordFieldMarkup::default(),
            ),
            SchemaRecordField::new(
                "map".to_string(),
                vec![],
                Schema::KeyedMap(SchemaMap { key_type: Box::new(Schema::String), value_type: Box::new(Schema::Boolean) }),
                SchemaDefRecordFieldMarkup::default(),
            ),
        ],
        SchemaDefRecordMarkup::default(),
    );
    let fixed = SchemaFixed { name: "Hash".to_string(), fingerprint: SchemaFingerprint(7), length: 16 };
    SchemaSet::new(vec![
        SchemaNamedType::Record(inner),
        SchemaNamedType::Record(outer),
        SchemaNamedType::Fixed(fixed),
    ])
}

#[test]
fn property_schemas_along_paths() {
    let s = set();
    let outer = s.find_named_type("Outer").unwrap().as_record().unwrap().clone();
    assert!(outer.find_property_schema("inner.v", &s).unwrap().is_u64());
    assert!(outer.find_property_schema("arr.3", &s).is_some());
    assert!(outer.find_property_schema("arr.x", &s).is_none());
    assert!(outer.find_property_schema("map.anything", &s).unwrap().is_boolean());
    assert!(outer.find_property_schema("inner.w", &s).is_none());
    assert!(outer.field_schema("arr").unwrap().is_static_array());
    assert_eq!(outer.aliases(), &["Old".to_string()]);
    assert_eq!(outer.fields().len(), 3);
    assert_eq!(outer.fields()[0].name(), "arr");
}

#[test]
fn named_type_lookup() {
    let s = set();
    assert_eq!(s.find_named_type("Nope").err(), Some(DataSetError::UnknownType));
    let fixed = s.find_named_type("Hash").unwrap();
    assert!(fixed.as_record().is_none());
    assert_eq!(fixed.as_fixed().unwrap().length, 16);
    assert_eq!(fixed.fingerprint(), SchemaFingerprint(7));
    assert_eq!(s.find_by_fingerprint(SchemaFingerprint(5)).unwrap().name(), "Inner");
    assert!(s.find_by_fingerprint(SchemaFingerprint(99)).is_none());
}

#[test]
fn enum_symbols_and_aliases() {
    let e = SchemaEnum::new(
        "Mode".to_string(),
        SchemaFingerprint(3),
        vec![],
        vec![
            SchemaEnumSymbol::new("Fast".to_string(), vec!["Quick".to_string()], 1),
            SchemaEnumSymbol::new("Slow".to_string(), vec![], 5),
        ],
    );
    assert_eq!(e.value_from_string("Slow"), Some(Value::Enum(ValueEnum::new("Slow".to_string()))));
    assert_eq!(e.value_from_string("Quick"), Some(Value::Enum(ValueEnum::new("Quick".to_string()))));
    assert_eq!(e.value_from_string("Medium"), None);
    assert_eq!(e.symbols()[1].value(), 5);
    assert_eq!(e.symbols()[0].aliases(), &["Quick".to_string()]);
    let t = SchemaNamedType::Enum(e);
    assert!(t.as_enum().is_some());
    assert_eq!(t.fingerprint(), SchemaFingerprint(3));
}

#[test]
fn schema_kind_predicates() {
    assert!(Schema::Nullable(Box::new(Schema::I32)).is_nullable());
    assert!(Schema::I32.is_i32() && Schema::I64.is_i64() && Schema::U32.is_u32() && Schema::U64.is_u64());
    assert!(Schema::F32.is_f32() && Schema::F64.is_f64() && Schema::Bytes.is_bytes() && Schema::Buffer.is_buffer());
    assert!(Schema::String.is_string() && !Schema::String.is_boolean());
}

#[test]
fn decimal_indices_and_path_splitting() {
    assert_eq!(parse_decimal_u32("0"), Some(0));
    assert_eq!(parse_decimal_u32("4294967295"), Some(u32::MAX));
    assert_eq!(parse_decimal_u32("4294967296"), None);
    assert_eq!(parse_decimal_u32(""), None);
    assert_eq!(parse_decimal_u32("1a"), None);
    assert_eq!(split_path("a.b.c"), vec!["a".to_string(), "b".to_string(), "c".to_string()]);
    assert_eq!(split_path(""), vec![String::new()]);
    assert!(str_eq("abc", "abc") && !str_eq("abc", "abd"));
}

#[test]
fn record_fields_are_sorted_by_name() {
    let f = |n: &str| SchemaRecordField::new(n.to_string(), vec![], Schema::I32, SchemaDefRecordFieldMarkup::default());
    let rec = SchemaRecord::new(
        "R".to_string(),
        SchemaFingerprint(9),
        vec![],
        vec![f("zeta"), f("alpha"), f("mid"), f("al")],
        SchemaDefRecordMarkup::default(),
    );
    let names: Vec<&str> = rec.fields().iter().map(|x| x.name()).collect();
    assert_eq!(names, vec!["al", "alpha", "mid", "zeta"]);
    assert!(rec.field_schema("zeta").is_some());
}
