use hydrate::demo::MeshAdvBlendMethodEnum;
use hydrate::field_wrappers::{dynamic_array_entry_path, DynamicArrayFieldAccessor};
use hydrate::schema::SchemaDynamicArray;
use hydrate::data_set::{DataSet, NullOverride, ObjectLocation, ObjectName};
use hydrate::error::DataSetError;
use hydrate::field_wrappers::{
    AssetRefFieldAccessor, BooleanField, BooleanFieldAccessor, BytesFieldAccessor, DataContainer, Enum, EnumFieldAccessor,
    FieldAccessor, I32FieldAccessor, I32FieldReader, I32FieldWriter, I64FieldAccessor, NullableFieldAccessor, PropertyPath,
    SingleObject, StringFieldAccessor, U32FieldAccessor, U64FieldAccessor,
};
use hydrate::ids::{AssetId, SchemaFingerprint};
use hydrate::schema::{Schema, SchemaDefRecordFieldMarkup, SchemaDefRecordMarkup, SchemaRecord, SchemaRecordField};
use hydrate::schema_set::{SchemaEnum, SchemaEnumSymbol, SchemaNamedType, SchemaSet};
use std::sync::Arc;

fn field(name: &str, schema: Schema) -> SchemaRecordField {
    SchemaRecordField::new(name.to_string(), vec![], schema, SchemaDefRecordFieldMarkup::default())
}

fn container() -> DataContainer {
    let rec = SchemaRecord::new(
        "AllKinds".to_string(),
        SchemaFingerprint(1),
        vec![],
        vec![
            field("b", Schema::Boolean),
            field("i", Schema::I32),
            field("l", Schema::I64),
            field("u", Schema::U32),
            field("ul", Schema::U64),
            field("bytes", Schema::Bytes),
            field("s", Schema::String),
            field("r", Schema::RecordRef(SchemaFingerprint(1))),
            field("e", Schema::NamedType(SchemaFingerprint(2))),
            field("n", Schema::Nullable(Box::new(Schema::I32))),
        ],
        SchemaDefRecordMarkup::default(),
    );
    let en = SchemaEnum::new(
        "Side".to_string(),
        SchemaFingerprint(2),
        vec![],
        vec![
            SchemaEnumSymbol::new("Opaque".to_string(), vec![], 0),
            SchemaEnumSymbol::new("AlphaClip".to_string(), vec![], 1),
            SchemaEnumSymbol::new("AlphaBlend".to_string(), vec![], 2),
        ],
    );
    let ss = SchemaSet::new(vec![SchemaNamedType::Record(rec.clone()), SchemaNamedType::Enum(en)]);
    DataContainer::from_single_object(SingleObject::new(&rec), ss)
}

#[test]
fn primitive_accessors_read_defaults_and_write() {
    let mut dc = container();
    let b = <BooleanFieldAccessor as FieldAccessor>::new(PropertyPath::new("b"));
    assert_eq!(b.get(&dc), Ok(false));
    b.set(&mut dc, true).unwrap();
    assert_eq!(b.get(&dc), Ok(true));
    let i = <I32FieldAccessor as FieldAccessor>::new(PropertyPath::new("i"));
    i.set(&mut dc, -5).unwrap();
    assert_eq!(i.get(&dc), Ok(-5));
    let l = <I64FieldAccessor as FieldAccessor>::new(PropertyPath::new("l"));
    l.set(&mut dc, 1 << 40).unwrap();
    assert_eq!(l.get(&dc), Ok(1 << 40));
    let u = <U32FieldAccessor as FieldAccessor>::new(PropertyPath::new("u"));
    u.set(&mut dc, 7).unwrap();
    assert_eq!(u.get(&dc), Ok(7));
    let ul = <U64FieldAccessor as FieldAccessor>::new(PropertyPath::new("ul"));
    ul.set(&mut dc, u64::MAX).unwrap();
    assert_eq!(ul.get(&dc), Ok(u64::MAX));
    let by = <BytesFieldAccessor as FieldAccessor>::new(PropertyPath::new("bytes"));
    assert_eq!(by.get(&dc), Ok(Arc::new(vec![])));
    by.set(&mut dc, Arc::new(vec![1, 2])).unwrap();
    assert_eq!(by.get(&dc), Ok(Arc::new(vec![1, 2])));
    let s = <StringFieldAccessor as FieldAccessor>::new(PropertyPath::new("s"));
    s.set(&mut dc, "hi".to_string()).unwrap();
    assert_eq!(s.get(&dc), Ok("hi".to_string()));
    let r = <AssetRefFieldAccessor as FieldAccessor>::new(PropertyPath::new("r"));
    assert_eq!(r.get(&dc), Ok(AssetId(0)));
    r.set(&mut dc, AssetId(9)).unwrap();
    assert_eq!(r.get(&dc), Ok(AssetId(9)));
}

#[test]
fn accessor_kind_mismatch_is_reported() {
    let dc = container();
    let wrong = <BooleanFieldAccessor as FieldAccessor>::new(PropertyPath::new("i"));
    assert_eq!(wrong.get(&dc), Err(DataSetError::SchemaMismatch));
    let missing = <BooleanFieldAccessor as FieldAccessor>::new(PropertyPath::new("zz"));
    assert_eq!(missing.get(&dc), Err(DataSetError::UnknownField));
}

#[test]
fn readers_writers_and_fields() {
    let mut dc = container();
    {
        let mut w = I32FieldWriter(PropertyPath::new("i"), &mut dc);
        w.set(12).unwrap();
        assert_eq!(w.get(), Ok(12));
    }
    let r = I32FieldReader(PropertyPath::new("i"), &dc);
    assert_eq!(r.get(), Ok(12));
    let mut data = Some(dc);
    let f = BooleanField(PropertyPath::new("b"));
    f.set(&mut data, true).unwrap();
    assert_eq!(f.get(&data), Ok(true));
    let mut taken: Option<DataContainer> = None;
    assert_eq!(f.get(&taken), Err(DataSetError::DataTaken));
    assert_eq!(f.set(&mut taken, true), Err(DataSetError::DataTaken));
}

#[test]
fn enum_and_nullable_accessors() {
    let mut dc = container();
    let e: EnumFieldAccessor<MeshAdvBlendMethodEnum> = FieldAccessor::new(PropertyPath::new("e"));
    assert_eq!(e.get(&dc), Ok(MeshAdvBlendMethodEnum::Opaque));
    e.set(&mut dc, MeshAdvBlendMethodEnum::AlphaBlend).unwrap();
    assert_eq!(e.get(&dc), Ok(MeshAdvBlendMethodEnum::AlphaBlend));
    assert_eq!(MeshAdvBlendMethodEnum::from_symbol_name("AlphaClip"), Some(MeshAdvBlendMethodEnum::AlphaClip));
    assert_eq!(MeshAdvBlendMethodEnum::AlphaClip.to_symbol_name(), "AlphaClip");
    assert_eq!(MeshAdvBlendMethodEnum::from_symbol_name("Nope"), None);
    let n: NullableFieldAccessor<I32FieldAccessor> = FieldAccessor::new(PropertyPath::new("n"));
    assert_eq!(n.resolve_null_override(&dc), Ok(NullOverride::SetNull));
    assert!(n.resolve_null(&dc).unwrap().is_none());
    let inner = n.set_null_override(&mut dc, NullOverride::SetNonNull).unwrap().unwrap();
    assert_eq!(inner.0.path(), "n.value");
    assert!(n.resolve_null(&dc).unwrap().is_some());
    inner.set(&mut dc, 33).unwrap();
    assert_eq!(inner.get(&dc), Ok(33));
}

#[test]
fn property_paths_join_with_dots() {
    let root = PropertyPath::default();
    assert_eq!(root.push("a").path(), "a");
    assert_eq!(root.push("a").push("b").path(), "a.b");
    assert_eq!(root.push("a").push("").path(), "a");
}

#[test]
fn container_over_a_data_set() {
    let dc0 = container();
    let ss = dc0.schema_set.clone();
    let rec = ss.find_named_type("AllKinds").unwrap().as_record().unwrap().clone();
    let mut ds = DataSet::new();
    let a = ds.new_object_with_id(AssetId(5), ObjectName::empty(), ObjectLocation::null(), &rec).unwrap();
    let mut dc = DataContainer::from_data_set(ds, a, ss);
    let i = <I32FieldAccessor as FieldAccessor>::new(PropertyPath::new("i"));
    i.set(&mut dc, 4).unwrap();
    assert_eq!(dc.resolve_property("i").unwrap(), hydrate::value::Value::I32(4));
    let single = dc.into_inner().unwrap();
    assert_eq!(single.schema().fingerprint(), SchemaFingerprint(1));
}

#[test]
fn dynamic_array_field_entries() {
    let rec = SchemaRecord::new(
        "Arr".to_string(),
        SchemaFingerprint(1),
        vec![],
        vec![field("xs", Schema::DynamicArray(SchemaDynamicArray { item_type: Box::new(Schema::I32) }))],
        SchemaDefRecordMarkup::default(),
    );
    let ss = SchemaSet::new(vec![SchemaNamedType::Record(rec.clone())]);
    let mut dc = DataContainer::from_single_object(SingleObject::new(&rec), ss);
    let xs: DynamicArrayFieldAccessor<I32FieldAccessor> = FieldAccessor::new(PropertyPath::new("xs"));
    let u = xs.add_entry(&mut dc).unwrap();
    assert_eq!(xs.resolve_entries(&dc), vec![u]);
    let p = dynamic_array_entry_path(&PropertyPath::new("xs"), u);
    assert_eq!(p.path(), format!("xs.{}", uuid::Uuid::from_u128(u)));
    let e = xs.entry(u);
    e.set(&mut dc, 8).unwrap();
    assert_eq!(e.get(&dc), Ok(8));
    let missing = xs.entry(u ^ 1);
    assert_eq!(missing.get(&dc), Err(DataSetError::UnresolvablePath));
}

