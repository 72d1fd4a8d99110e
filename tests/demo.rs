use hydrate::demo::AllFieldsRecord;
use hydrate::field_wrappers::RecordBuilder;
use hydrate::demo::{TransformBits, TransformRef};
use hydrate::ids::{ArtifactId, ArtifactRef};
use hydrate::data_set::{DataSet, ObjectLocation, ObjectName};
use hydrate::demo::{AllFields, BlenderMeshImporter, ImporterRegistry, MeshAdvMaterialBuilder, BLENDER_MESH_IMPORTER_ID};
use hydrate::error::DataSetError;
use hydrate::ids::{AssetId, SchemaFingerprint};
use hydrate::schema::{Schema, SchemaDefRecordFieldMarkup, SchemaDefRecordMarkup, SchemaRecord, SchemaRecordField};
use hydrate::schema_set::{SchemaNamedType, SchemaSet};
use hydrate::value::Value;

#[test]
fn all_fields_from_data_set() {
    let f = |n: &str, s: Schema| SchemaRecordField::new(n.to_string(), vec![], s, SchemaDefRecordFieldMarkup::default());
    let rec = SchemaRecord::new(
        "AllFields".to_string(),
        SchemaFingerprint(1),
        vec![],
        vec![f("boolean", Schema::Boolean), f("int32", Schema::I32), f("int64", Schema::I64)],
        SchemaDefRecordMarkup::default(),
    );
    let ss = SchemaSet::new(vec![SchemaNamedType::Record(rec.clone())]);
    let mut ds = DataSet::new();
    let a = ds.new_object_with_id(AssetId(1), ObjectName::empty(), ObjectLocation::null(), &rec).unwrap();
    ds.set_property_override(&ss, a, "int64", Some(Value::I64(-3))).unwrap();
    assert_eq!(AllFields::from_data_set(a, &ds, &ss), Ok(AllFields { boolean: false, int32: 0, int64: -3 }));
    assert_eq!(AllFields::from_data_set(AssetId(2), &ds, &ss), Err(DataSetError::SchemaMismatch));
}

#[test]
fn importer_registry_by_extension() {
    let imp = BlenderMeshImporter;
    let mut reg = ImporterRegistry::new();
    reg.register(imp.importer_id(), imp.supported_file_extensions());
    reg.register(7, vec!["png".to_string(), "jpg".to_string()]);
    reg.register(8, vec!["png".to_string()]);
    assert_eq!(reg.importers_for_file_extension("blender_mesh"), vec![BLENDER_MESH_IMPORTER_ID]);
    assert_eq!(reg.importers_for_file_extension("png"), vec![7, 8]);
    assert_eq!(reg.importers_for_file_extension("gif"), Vec::<u128>::new());
    assert!(MeshAdvMaterialBuilder.enumerate_dependencies(AssetId(1)).is_empty());
}

#[test]
fn transform_reads_float_bits_and_refs() {
    let f = |n: &str, s: Schema| SchemaRecordField::new(n.to_string(), vec![], s, SchemaDefRecordFieldMarkup::default());
    let vec3 = SchemaRecord::new(
        "Vec3".to_string(),
        SchemaFingerprint(2),
        vec![],
        vec![f("x", Schema::F32), f("y", Schema::F32), f("z", Schema::F32)],
        SchemaDefRecordMarkup::default(),
    );
    let vec4 = SchemaRecord::new(
        "Vec4".to_string(),
        SchemaFingerprint(3),
        vec![],
        vec![f("x", Schema::F32), f("y", Schema::F32), f("z", Schema::F32), f("w", Schema::F32)],
        SchemaDefRecordMarkup::default(),
    );
    let transform = SchemaRecord::new(
        "Transform".to_string(),
        SchemaFingerprint(4),
        vec![],
        vec![
            f("position", Schema::NamedType(SchemaFingerprint(2))),
            f("rotation", Schema::NamedType(SchemaFingerprint(3))),
            f("scale", Schema::NamedType(SchemaFingerprint(2))),
            f("transform", Schema::RecordRef(SchemaFingerprint(4))),
        ],
        SchemaDefRecordMarkup::default(),
    );
    let ss = SchemaSet::new(vec![
        SchemaNamedType::Record(vec3),
        SchemaNamedType::Record(vec4),
        SchemaNamedType::Record(transform.clone()),
    ]);
    let mut ds = DataSet::new();
    let a = ds.new_object_with_id(AssetId(1), ObjectName::empty(), ObjectLocation::null(), &transform).unwrap();
    ds.set_property_override(&ss, a, "scale.z", Some(Value::F32(2.5f32.to_bits()))).unwrap();
    ds.set_property_override(&ss, a, "rotation.w", Some(Value::F32(1.0f32.to_bits()))).unwrap();
    ds.set_property_override(&ss, a, "transform", Some(Value::AssetRef(77))).unwrap();
    let t = TransformBits::from_data_set(a, &ds, &ss).unwrap();
    assert_eq!(f32::from_bits(t.scale[2]), 2.5);
    assert_eq!(f32::from_bits(t.rotation[3]), 1.0);
    assert_eq!(t.position, [0, 0, 0]);
    assert_eq!(TransformRef::from_data_set(a, &ds, &ss), Ok(TransformRef { transform: ArtifactRef(ArtifactId(77)) }));
}

#[test]
fn record_builder_fills_a_fresh_record() {
    let f = |n: &str, s: Schema| SchemaRecordField::new(n.to_string(), vec![], s, SchemaDefRecordFieldMarkup::default());
    let rec = SchemaRecord::new(
        "AllFields".to_string(),
        SchemaFingerprint(1),
        vec![],
        vec![f("boolean", Schema::Boolean), f("int32", Schema::I32), f("int64", Schema::I64)],
        SchemaDefRecordMarkup::default(),
    );
    let ss = SchemaSet::new(vec![SchemaNamedType::Record(rec)]);
    let mut b = RecordBuilder::<AllFieldsRecord>::new(&ss).unwrap();
    assert_eq!(b.fields.int32().get(&b.data), Ok(0));
    b.fields.int32().set(&mut b.data, 12).unwrap();
    b.fields.boolean().set(&mut b.data, true).unwrap();
    assert_eq!(b.fields.int32().get(&b.data), Ok(12));
    let o = b.into_inner().unwrap();
    assert_eq!(o.schema().fingerprint(), SchemaFingerprint(1));
    assert_eq!(RecordBuilder::<AllFieldsRecord>::new(&SchemaSet::new(vec![])).err(), Some(DataSetError::UnknownType));
}
