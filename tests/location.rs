use hydrate::data_set::{DataSet, ObjectLocation, ObjectName, ObjectSourceId};
use hydrate::ids::{AssetId, SchemaFingerprint};
use hydrate::schema::{SchemaDefRecordMarkup, SchemaRecord};

fn node(ds: &mut DataSet, rec: &SchemaRecord, id: u128, name: &str, parent: u128) {
    ds.new_object_with_id(
        AssetId(id),
        ObjectName::new(name.to_string()),
        ObjectLocation::new(ObjectSourceId(1), AssetId(parent)),
        rec,
    )
    .unwrap();
}

#[test]
fn path_nodes_form_paths_and_cycles_are_cut() {
    let rec = SchemaRecord::new("PathNode".to_string(), SchemaFingerprint(1), vec![], vec![], SchemaDefRecordMarkup::default());
    let mut ds = DataSet::new();
    node(&mut ds, &rec, 1, "a", 0);
    node(&mut ds, &rec, 2, "b", 1);
    node(&mut ds, &rec, 3, "c", 2);
    assert_eq!(ds.path_node_path(AssetId(3)).as_str(), "db:/a/b/c");
    assert_eq!(ds.path_node_path(AssetId(1)).as_str(), "db:/a");
    assert!(ds.path_node_path(AssetId(0)).is_root_path());
    node(&mut ds, &rec, 10, "x", 11);
    node(&mut ds, &rec, 11, "y", 10);
    assert_eq!(ds.path_node_path(AssetId(10)).as_str(), "db:/y/x");
    node(&mut ds, &rec, 20, "", 1);
    node(&mut ds, &rec, 21, "d", 20);
    assert_eq!(ds.path_node_path(AssetId(21)).as_str(), "db:/d");
    node(&mut ds, &rec, 30, "e", 99);
    assert_eq!(ds.path_node_path(AssetId(30)).as_str(), "db:/e");
}

#[test]
fn long_display_names() {
    let rec = SchemaRecord::new("PathNode".to_string(), SchemaFingerprint(1), vec![], vec![], SchemaDefRecordMarkup::default());
    let mut ds = DataSet::new();
    node(&mut ds, &rec, 1, "a", 0);
    node(&mut ds, &rec, 2, "b", 1);
    node(&mut ds, &rec, 3, "mesh", 2);
    node(&mut ds, &rec, 4, "top", 0);
    node(&mut ds, &rec, 5, "", 1);
    assert_eq!(ds.object_display_name_long(AssetId(3)), "db:/a/b/mesh");
    assert_eq!(ds.object_display_name_long(AssetId(4)), "db:/top");
    assert_eq!(
        ds.object_display_name_long(AssetId(5)),
        format!("db:/a/{}", uuid::Uuid::from_u128(5))
    );
    assert_eq!(ds.object_display_name_long(AssetId(77)), format!("db:/{}", uuid::Uuid::from_u128(77)));
}
