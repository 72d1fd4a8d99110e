use hydrate::data_set::{DataSet, NullOverride, ObjectLocation, ObjectName};
use hydrate::edit_context::EditContext;
use hydrate::ids::{AssetId, SchemaFingerprint};
use hydrate::schema::{Schema, SchemaDefRecordFieldMarkup, SchemaDefRecordMarkup, SchemaRecord, SchemaRecordField};
use hydrate::schema_set::{SchemaNamedType, SchemaSet};
use hydrate::value::Value;

fn context() -> (EditContext, AssetId) {
    let f = |n: &str, s: Schema| SchemaRecordField::new(n.to_string(), vec![], s, SchemaDefRecordFieldMarkup::default());
    let rec = SchemaRecord::new(
        "T".to_string(),
        SchemaFingerprint(1),
        vec![],
        vec![f("x", Schema::I32), f("n", Schema::Nullable(Box::new(Schema::I32)))],
        SchemaDefRecordMarkup::default(),
    );
    let ss = SchemaSet::new(vec![SchemaNamedType::Record(rec.clone())]);
    let mut ds = DataSet::new();
    let a = ds.new_object_with_id(AssetId(1), ObjectName::empty(), ObjectLocation::null(), &rec).unwrap();
    (EditContext::new(ds, ss), a)
}

#[test]
fn undo_and_redo_steps() {
    let (mut ctx, a) = context();
    ctx.set_property_override(a, "x", Some(Value::I32(5))).unwrap();
    ctx.commit_pending_undo_context();
    ctx.set_property_override(a, "x", Some(Value::I32(7))).unwrap();
    ctx.set_null_override(a, "n", NullOverride::SetNonNull).unwrap();
    ctx.commit_pending_undo_context();
    assert_eq!(ctx.undo_stack.len(), 2);
    assert!(ctx.undo());
    assert_eq!(ctx.data_set.resolve_property(&ctx.schema_set, a, "x"), Ok(Value::I32(5)));
    assert_eq!(ctx.data_set.resolve_is_null(&ctx.schema_set, a, "n"), Some(true));
    assert!(ctx.redo());
    assert_eq!(ctx.data_set.resolve_property(&ctx.schema_set, a, "x"), Ok(Value::I32(7)));
    assert!(ctx.undo());
    assert!(ctx.undo());
    assert_eq!(ctx.data_set.resolve_property(&ctx.schema_set, a, "x"), Ok(Value::I32(0)));
    assert!(!ctx.undo());
}

#[test]
fn cancel_rolls_back_pending_changes() {
    let (mut ctx, a) = context();
    ctx.set_property_override(a, "x", Some(Value::I32(3))).unwrap();
    ctx.set_property_override(a, "x", Some(Value::I32(4))).unwrap();
    ctx.delete_object(a);
    assert!(ctx.data_set.object(a).is_none());
    ctx.cancel_pending_undo_context();
    assert_eq!(ctx.data_set.resolve_property(&ctx.schema_set, a, "x"), Ok(Value::I32(0)));
    assert!(ctx.undo_stack.is_empty());
    assert_eq!(ctx.modified_assets(), &vec![a]);
    ctx.clear_change_tracking();
    assert!(ctx.modified_assets().is_empty());
}
