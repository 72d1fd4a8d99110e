use hydrate::import::find_referenced_asset;
use hydrate::ids::AssetId;
use hydrate::import::{
    create_asset_name, file_needs_write, import_data_is_stale, import_metadata_for, should_run_import,
    ImportInfo, ImportType, ImportableName, ImportableState, PathReference,
};

fn state(size: u64, mtime: u64, hash: u64) -> ImportableState {
    let m = import_metadata_for(size, mtime, hash);
    ImportableState { asset_id: AssetId(1), stored_metadata: Some(m), asset_import_state: Some(m) }
}

#[test]
fn import_staleness_scenario() {
    let (s, m, h) = (1000u64, 55u64, 0xabcdu64);
    let first = ImportableState { asset_id: AssetId(1), stored_metadata: None, asset_import_state: None };
    assert!(should_run_import(ImportType::ImportIfImportDataStale, &[first], s, m));
    let after_import = state(s, m, h);
    assert!(!should_run_import(ImportType::ImportIfImportDataStale, &[after_import], s, m));
    assert!(should_run_import(ImportType::ImportIfImportDataStale, &[after_import], s, m + 1));
    assert!(should_run_import(ImportType::ImportIfImportDataStale, &[after_import], s + 1, m));
    assert!(should_run_import(ImportType::ImportAlways, &[after_import], s, m));
}

#[test]
fn stale_when_asset_record_differs() {
    let stored = import_metadata_for(10, 20, 30);
    let other = import_metadata_for(10, 20, 31);
    let st = ImportableState { asset_id: AssetId(1), stored_metadata: Some(stored), asset_import_state: Some(other) };
    assert!(import_data_is_stale(&[st], 10, 20));
    let missing = ImportableState { asset_id: AssetId(1), stored_metadata: Some(stored), asset_import_state: None };
    assert!(import_data_is_stale(&[missing], 10, 20));
    assert!(import_data_is_stale(&[state(10, 20, 30), missing], 10, 20));
    assert!(!import_data_is_stale(&[], 10, 20));
}

#[test]
fn unchanged_contents_are_not_rewritten() {
    let bytes = vec![1u8, 2, 3, 4];
    assert!(!file_needs_write(Some(&bytes), &bytes.clone()));
    assert!(file_needs_write(Some(&bytes), &[1u8, 2, 3, 5]));
    assert!(file_needs_write(None, &bytes));
}

#[test]
fn asset_names_from_source_files() {
    let unnamed = ImportableName::new(String::new());
    let named = ImportableName::new("mesh".to_string());
    assert_eq!(create_asset_name("/a/b/model.gltf", &unnamed).0, "model.gltf");
    assert_eq!(create_asset_name("/a/b/model.gltf", &named).0, "model.gltf.mesh");
    assert_eq!(create_asset_name("/", &named).0, "");
    assert_eq!(named.name(), Some(&"mesh".to_string()));
    assert_eq!(unnamed.name(), None);
}

#[test]
fn import_info_records_metadata() {
    let src = PathReference { path: "/a.png".to_string(), importable_name: ImportableName::new(String::new()) };
    let info = ImportInfo::new(9, src.clone(), vec![], 3, 4, 5);
    assert_eq!(info.source_file, src);
    let m = info.metadata();
    assert_eq!((m.source_file_modified_timestamp, m.source_file_size, m.import_data_contents_hash), (3, 4, 5));
}

#[test]
fn referenced_files_map_to_existing_assets() {
    let r = |p: &str| PathReference { path: p.to_string(), importable_name: ImportableName::new(String::new()) };
    let requested = vec![(AssetId(1), r("/a.png")), (AssetId(2), r("/b.png")), (AssetId(3), r("/a.png"))];
    let previous = vec![(AssetId(9), r("/c.png"))];
    assert_eq!(find_referenced_asset(&requested, &previous, &r("/a.png")), Some(AssetId(3)));
    assert_eq!(find_referenced_asset(&requested, &previous, &r("/c.png")), Some(AssetId(9)));
    assert_eq!(find_referenced_asset(&requested, &previous, &r("/d.png")), None);
}
