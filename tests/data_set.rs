use hydrate::field_wrappers::new_single_object;
use hydrate::path_map::PathMap;
use hydrate::data_set::{DataSet, NullOverride, ObjectLocation, ObjectName, OverrideBehavior};
use hydrate::error::DataSetError;
use hydrate::ids::{AssetId, SchemaFingerprint};
use hydrate::schema::{
    Schema, SchemaDefRecordFieldMarkup, SchemaDefRecordMarkup, SchemaDynamicArray, SchemaRecord,
    SchemaRecordField,
};
use hydrate::schema_set::{SchemaEnum, SchemaEnumSymbol, SchemaNamedType, SchemaSet};
use hydrate::value::{Value, ValueEnum};
use std::sync::Arc;

fn field(name: &str, schema: Schema) -> SchemaRecordField {
    SchemaRecordField::new(name.to_string(), vec![], schema, SchemaDefRecordFieldMarkup::default())
}

fn schema_set() -> (SchemaSet, SchemaRecord) {
    let color = SchemaEnum::new(
        "Color".to_string(),
        SchemaFingerprint(2),
        vec![],
        vec![
            SchemaEnumSymbol::new("Red".to_string(), vec![], 0),
            SchemaEnumSymbol::new("Green".to_string(), vec!["Verde".to_string()], 1),
        ],
    );
    let record = SchemaRecord::new(
        "T".to_string(),
        SchemaFingerprint(1),
        vec![],
        vec![
            field("x", Schema::I32),
            field("n", Schema::Nullable(Box::new(Schema::I32))),
            field("xs", Schema::DynamicArray(SchemaDynamicArray { item_type: Box::new(Schema::I32) })),
            field("name", Schema::String),
            field("data", Schema::Bytes),
            field("color", Schema::NamedType(SchemaFingerprint(2))),
            field("flag", Schema::Boolean),
        ],
        SchemaDefRecordMarkup::default(),
    );
    let set = SchemaSet::new(vec![
        SchemaNamedType::Record(record.clone()),
        SchemaNamedType::Enum(color),
    ]);
    (set, record)
}

fn new_asset(ds: &mut DataSet, record: &SchemaRecord, id: u128) -> AssetId {
    ds.new_object_with_id(AssetId(id), ObjectName::new("a".to_string()), ObjectLocation::null(), record)
        .unwrap()
}

fn child_of(ds: &mut DataSet, proto: AssetId, id: u128) -> AssetId {
    ds.new_object_from_prototype_with_id(AssetId(id), ObjectName::empty(), ObjectLocation::null(), proto)
        .unwrap()
}

#[test]
fn prototype_override_scenario() {
    let (ss, rec) = schema_set();
    let mut ds = DataSet::new();
    let p = new_asset(&mut ds, &rec, 10);
    ds.set_property_override(&ss, p, "x", Some(Value::I32(5))).unwrap();
    let c = child_of(&mut ds, p, 11);
    assert_eq!(ds.resolve_property(&ss, c, "x"), Ok(Value::I32(5)));
    ds.set_property_override(&ss, c, "x", Some(Value::I32(7))).unwrap();
    assert_eq!(ds.resolve_property(&ss, c, "x"), Ok(Value::I32(7)));
    assert_eq!(ds.resolve_property(&ss, p, "x"), Ok(Value::I32(5)));
    ds.apply_property_override_to_prototype(&ss, c, "x").unwrap();
    assert_eq!(ds.resolve_property(&ss, p, "x"), Ok(Value::I32(7)));
    assert!(!ds.has_property_override(c, "x"));
    assert_eq!(ds.resolve_property(&ss, c, "x"), Ok(Value::I32(7)));
}

#[test]
fn unset_property_resolves_to_default() {
    let (ss, rec) = schema_set();
    let mut ds = DataSet::new();
    let a = new_asset(&mut ds, &rec, 1);
    assert_eq!(ds.resolve_property(&ss, a, "x"), Ok(Value::I32(0)));
    assert_eq!(ds.resolve_property(&ss, a, "flag"), Ok(Value::Boolean(false)));
    assert_eq!(ds.resolve_property(&ss, a, "name"), Ok(Value::String(String::new())));
    assert_eq!(ds.resolve_property(&ss, a, "data"), Ok(Value::Bytes(Arc::new(vec![]))));
    assert_eq!(
        ds.resolve_property(&ss, a, "color"),
        Ok(Value::Enum(ValueEnum::new("Red".to_string())))
    );
}

#[test]
fn nearest_override_wins_on_three_levels() {
    let (ss, rec) = schema_set();
    let mut ds = DataSet::new();
    let g = new_asset(&mut ds, &rec, 1);
    let p = child_of(&mut ds, g, 2);
    let c = child_of(&mut ds, p, 3);
    ds.set_property_override(&ss, g, "x", Some(Value::I32(1))).unwrap();
    assert_eq!(ds.resolve_property(&ss, c, "x"), Ok(Value::I32(1)));
    ds.set_property_override(&ss, p, "x", Some(Value::I32(2))).unwrap();
    assert_eq!(ds.resolve_property(&ss, c, "x"), Ok(Value::I32(2)));
    assert_eq!(ds.resolve_property(&ss, g, "x"), Ok(Value::I32(1)));
}

#[test]
fn nullable_scenario() {
    let (ss, rec) = schema_set();
    let mut ds = DataSet::new();
    let a = new_asset(&mut ds, &rec, 1);
    assert_eq!(ds.resolve_property(&ss, a, "n.value"), Err(DataSetError::UnresolvablePath));
    assert_eq!(ds.resolve_null_override(&ss, a, "n"), Ok(NullOverride::SetNull));
    assert_eq!(
        ds.set_property_override(&ss, a, "n.value", Some(Value::I32(42))),
        Err(DataSetError::UnresolvablePath)
    );
    ds.set_null_override(&ss, a, "n", NullOverride::SetNonNull).unwrap();
    assert_eq!(ds.get_null_override(&ss, a, "n"), Some(NullOverride::SetNonNull));
    ds.set_property_override(&ss, a, "n.value", Some(Value::I32(42))).unwrap();
    assert_eq!(ds.resolve_property(&ss, a, "n.value"), Ok(Value::I32(42)));
    assert_eq!(ds.resolve_is_null(&ss, a, "n"), Some(false));
    ds.remove_null_override(&ss, a, "n").unwrap();
    assert_eq!(ds.resolve_is_null(&ss, a, "n"), Some(true));
}

#[test]
fn null_override_is_inherited() {
    let (ss, rec) = schema_set();
    let mut ds = DataSet::new();
    let p = new_asset(&mut ds, &rec, 1);
    let c = child_of(&mut ds, p, 2);
    ds.set_null_override(&ss, p, "n", NullOverride::SetNonNull).unwrap();
    assert_eq!(ds.resolve_is_null(&ss, c, "n"), Some(false));
    assert_eq!(ds.get_null_override(&ss, c, "n"), None);
}

#[test]
fn dynamic_array_merge_scenario() {
    let (ss, rec) = schema_set();
    let mut ds = DataSet::new();
    let p = new_asset(&mut ds, &rec, 1);
    let c = child_of(&mut ds, p, 2);
    let u1: u128 = 0x1111;
    let u2: u128 = 0x2222;
    let u3: u128 = 0x3333;
    ds.add_dynamic_array_override_with_id(&ss, p, "xs", u1).unwrap();
    ds.add_dynamic_array_override_with_id(&ss, p, "xs", u2).unwrap();
    ds.add_dynamic_array_override_with_id(&ss, c, "xs", u3).unwrap();
    for (owner, u, v) in [(p, u1, 1), (p, u2, 2), (c, u3, 3)] {
        let path = format!("xs.{}", uuid::Uuid::from_u128(u));
        ds.set_property_override(&ss, owner, &path, Some(Value::I32(v))).unwrap();
    }
    let merged = ds.resolve_dynamic_array(&ss, c, "xs");
    assert_eq!(merged, vec![u1, u2, u3]);
    let values: Vec<Value> = merged
        .iter()
        .map(|u| ds.resolve_property(&ss, c, &format!("xs.{}", uuid::Uuid::from_u128(*u))).unwrap())
        .collect();
    assert_eq!(values, vec![Value::I32(1), Value::I32(2), Value::I32(3)]);
    ds.set_override_behavior(&ss, c, "xs", OverrideBehavior::Replace).unwrap();
    assert_eq!(ds.get_override_behavior(&ss, c, "xs"), Ok(OverrideBehavior::Replace));
    assert_eq!(ds.resolve_dynamic_array(&ss, c, "xs"), vec![u3]);
    let path1 = format!("xs.{}", uuid::Uuid::from_u128(u1));
    assert_eq!(ds.resolve_property(&ss, c, &path1), Err(DataSetError::UnresolvablePath));
    ds.set_override_behavior(&ss, c, "xs", OverrideBehavior::Append).unwrap();
    assert_eq!(ds.resolve_dynamic_array(&ss, c, "xs"), vec![u1, u2, u3]);
}

#[test]
fn dynamic_array_entries_add_and_remove() {
    let (ss, rec) = schema_set();
    let mut ds = DataSet::new();
    let a = new_asset(&mut ds, &rec, 1);
    let u = ds.add_dynamic_array_override(&ss, a, "xs").unwrap();
    assert_eq!(ds.get_dynamic_array_overrides(&ss, a, "xs"), Ok(Some(&vec![u])));
    assert_eq!(
        ds.add_dynamic_array_override_with_id(&ss, a, "xs", u),
        Err(DataSetError::DuplicateId)
    );
    ds.remove_dynamic_array_override(&ss, a, "xs", u).unwrap();
    assert_eq!(ds.resolve_dynamic_array(&ss, a, "xs"), Vec::<u128>::new());
    assert_eq!(
        ds.remove_dynamic_array_override(&ss, a, "xs", u),
        Err(DataSetError::EntryNotFound)
    );
    assert_eq!(
        ds.add_dynamic_array_override(&ss, a, "x"),
        Err(DataSetError::InvalidSchema)
    );
}

#[test]
fn malformed_dynamic_array_key_is_unresolvable() {
    let (ss, rec) = schema_set();
    let mut ds = DataSet::new();
    let a = new_asset(&mut ds, &rec, 1);
    ds.add_dynamic_array_override_with_id(&ss, a, "xs", 7).unwrap();
    assert_eq!(ds.resolve_property(&ss, a, "xs.not-a-uuid"), Err(DataSetError::UnresolvablePath));
    let good = format!("xs.{}", uuid::Uuid::from_u128(7));
    assert_eq!(ds.resolve_property(&ss, a, &good), Ok(Value::I32(0)));
}

#[test]
fn write_errors() {
    let (ss, rec) = schema_set();
    let mut ds = DataSet::new();
    let a = new_asset(&mut ds, &rec, 1);
    assert_eq!(
        ds.set_property_override(&ss, a, "x", Some(Value::Boolean(true))),
        Err(DataSetError::SchemaMismatch)
    );
    assert_eq!(
        ds.set_property_override(&ss, a, "nope", Some(Value::I32(1))),
        Err(DataSetError::UnknownField)
    );
    assert_eq!(
        ds.set_property_override(&ss, AssetId(99), "x", Some(Value::I32(1))),
        Err(DataSetError::AssetNotFound)
    );
    assert_eq!(
        ds.set_property_override(&ss, a, "color", Some(Value::Enum(ValueEnum::new("Blue".to_string())))),
        Err(DataSetError::SchemaMismatch)
    );
    assert_eq!(
        ds.set_property_override(&ss, a, "color", Some(Value::Enum(ValueEnum::new("Verde".to_string())))),
        Ok(None)
    );
    assert_eq!(ds.set_null_override(&ss, a, "x", NullOverride::SetNull), Err(DataSetError::InvalidSchema));
    assert_eq!(ds.resolve_property(&ss, a, "xs"), Err(DataSetError::InvalidSchema));
    assert_eq!(ds.set_override_behavior(&ss, a, "x", OverrideBehavior::Replace), Err(DataSetError::InvalidSchema));
    assert_eq!(ds.get_override_behavior(&ss, a, "x"), Ok(OverrideBehavior::Replace));
    assert_eq!(
        ds.new_object_with_id(a, ObjectName::empty(), ObjectLocation::null(), &rec),
        Err(DataSetError::DuplicateId)
    );
    assert_eq!(
        ds.new_object_from_prototype(ObjectName::empty(), ObjectLocation::null(), AssetId(1234)),
        Err(DataSetError::AssetNotFound)
    );
}

#[test]
fn set_returns_previous_override_and_remove_clears_it() {
    let (ss, rec) = schema_set();
    let mut ds = DataSet::new();
    let a = new_asset(&mut ds, &rec, 1);
    assert_eq!(ds.set_property_override(&ss, a, "x", Some(Value::I32(3))), Ok(None));
    assert_eq!(ds.set_property_override(&ss, a, "x", Some(Value::I32(4))), Ok(Some(Value::I32(3))));
    assert_eq!(ds.get_property_override(a, "x"), Some(&Value::I32(4)));
    assert_eq!(ds.remove_property_override(a, "x"), Some(Value::I32(4)));
    assert_eq!(ds.get_property_override(a, "x"), None);
    assert_eq!(ds.resolve_property(&ss, a, "x"), Ok(Value::I32(0)));
}

#[test]
fn objects_are_created_located_and_deleted() {
    let (_ss, rec) = schema_set();
    let mut ds = DataSet::new();
    let a = ds.new_object(ObjectName::new("first".to_string()), ObjectLocation::null(), &rec).unwrap();
    let b = ds.new_object_from_prototype(ObjectName::empty(), ObjectLocation::null(), a).unwrap();
    assert_ne!(a, b);
    assert_eq!(ds.len(), 2);
    assert_eq!(ds.object_prototype(b), Some(a));
    assert_eq!(ds.object_name(a).unwrap().as_string(), Some(&"first".to_string()));
    assert_eq!(ds.object_name(b).unwrap().as_string(), None);
    assert_eq!(ds.object_schema(b).unwrap().fingerprint(), SchemaFingerprint(1));
    let loc = ObjectLocation::new(hydrate::data_set::ObjectSourceId(5), AssetId(6));
    ds.set_object_location(a, loc).unwrap();
    assert_eq!(ds.object_location(a), Some(&loc));
    ds.delete_object(a);
    assert!(ds.object(a).is_none());
    assert_eq!(ds.set_object_location(a, loc), Err(DataSetError::AssetNotFound));
    assert_eq!(ds.object_prototype(b), Some(a));
}

#[test]
fn deleted_prototype_ends_the_chain() {
    let (ss, rec) = schema_set();
    let mut ds = DataSet::new();
    let p = new_asset(&mut ds, &rec, 1);
    let c = child_of(&mut ds, p, 2);
    ds.set_property_override(&ss, p, "x", Some(Value::I32(9))).unwrap();
    ds.delete_object(p);
    assert_eq!(ds.resolve_property(&ss, c, "x"), Ok(Value::I32(0)));
}

#[test]
fn copy_from_brings_an_asset_with_its_overrides() {
    let (ss, rec) = schema_set();
    let mut src = DataSet::new();
    let a = new_asset(&mut src, &rec, 1);
    src.set_property_override(&ss, a, "x", Some(Value::I32(11))).unwrap();
    src.set_null_override(&ss, a, "n", NullOverride::SetNonNull).unwrap();
    src.add_dynamic_array_override_with_id(&ss, a, "xs", 5).unwrap();
    src.set_override_behavior(&ss, a, "xs", OverrideBehavior::Replace).unwrap();
    let mut dst = DataSet::new();
    assert_eq!(dst.copy_from(&src, AssetId(2)), Err(DataSetError::AssetNotFound));
    dst.copy_from(&src, a).unwrap();
    assert_eq!(dst.resolve_property(&ss, a, "x"), Ok(Value::I32(11)));
    assert_eq!(dst.resolve_is_null(&ss, a, "n"), Some(false));
    assert_eq!(dst.resolve_dynamic_array(&ss, a, "xs"), vec![5]);
    assert_eq!(dst.get_override_behavior(&ss, a, "xs"), Ok(OverrideBehavior::Replace));
    assert_eq!(dst.object_name(a).unwrap().as_string(), Some(&"a".to_string()));
    src.set_property_override(&ss, a, "x", Some(Value::I32(12))).unwrap();
    assert_eq!(dst.resolve_property(&ss, a, "x"), Ok(Value::I32(11)));
}

#[test]
fn restore_object_installs_stored_asset() {
    let (ss, _rec) = schema_set();
    let mut ds = DataSet::new();
    let mut props = PathMap::new();
    props.insert(vec!["x".to_string()], Value::I32(21));
    let r = ds.restore_object(
        AssetId(50),
        ObjectName::new("stored".to_string()),
        ObjectLocation::null(),
        &ss,
        None,
        SchemaFingerprint(1),
        props,
        PathMap::new(),
        PathMap::new(),
        PathMap::new(),
    );
    assert_eq!(r, Ok(()));
    assert_eq!(ds.resolve_property(&ss, AssetId(50), "x"), Ok(Value::I32(21)));
    let bad = ds.restore_object(
        AssetId(51),
        ObjectName::empty(),
        ObjectLocation::null(),
        &ss,
        None,
        SchemaFingerprint(2),
        PathMap::new(),
        PathMap::new(),
        PathMap::new(),
        PathMap::new(),
    );
    assert_eq!(bad, Err(DataSetError::UnknownType));
}

#[test]
fn single_objects_by_record_name() {
    let (ss, _rec) = schema_set();
    let o = new_single_object(&ss, "T").unwrap();
    assert_eq!(o.schema().fingerprint(), SchemaFingerprint(1));
    assert_eq!(new_single_object(&ss, "Color").err(), Some(DataSetError::InvalidSchema));
    assert_eq!(new_single_object(&ss, "Nope").err(), Some(DataSetError::UnknownType));
}

#[test]
fn asset_record_round_trip() {
    let (ss, rec) = schema_set();
    let mut ds = DataSet::new();
    let p = new_asset(&mut ds, &rec, 1);
    let a = child_of(&mut ds, p, 2);
    ds.set_property_override(&ss, a, "x", Some(Value::I32(-8))).unwrap();
    ds.set_property_override(&ss, a, "name", Some(Value::String("hello".to_string()))).unwrap();
    ds.set_null_override(&ss, a, "n", NullOverride::SetNonNull).unwrap();
    ds.add_dynamic_array_override_with_id(&ss, a, "xs", 31).unwrap();
    ds.add_dynamic_array_override_with_id(&ss, a, "xs", 32).unwrap();
    ds.set_override_behavior(&ss, a, "xs", OverrideBehavior::Replace).unwrap();
    ds.remove_property_override(a, "name");
    let record = ds.asset_record(a).unwrap();
    assert_eq!(record.properties.len(), 1);
    assert_eq!(record.dynamic_array_entries, vec![(vec!["xs".to_string()], vec![31, 32])]);
    let mut other = DataSet::new();
    new_asset(&mut other, &rec, 1);
    assert_eq!(other.install_record(&ss, record), Ok(a));
    assert_eq!(other.resolve_property(&ss, a, "x"), Ok(Value::I32(-8)));
    assert_eq!(other.resolve_property(&ss, a, "name"), Ok(Value::String(String::new())));
    assert_eq!(other.resolve_is_null(&ss, a, "n"), Some(false));
    assert_eq!(other.resolve_dynamic_array(&ss, a, "xs"), vec![31, 32]);
    assert_eq!(other.get_override_behavior(&ss, a, "xs"), Ok(OverrideBehavior::Replace));
    assert_eq!(other.object_prototype(a), Some(p));
    assert_eq!(ds.asset_record(AssetId(99)).err(), Some(DataSetError::AssetNotFound));
}
