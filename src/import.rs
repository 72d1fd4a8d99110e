use vstd::prelude::*;
use crate::ids::AssetId;
use crate::data_set::ObjectName;
use crate::field_wrappers::SingleObject;

verus! {

/// When a queued import runs.
#[derive(Copy, Clone, Debug, PartialEq, Eq, Structural)]
pub enum ImportType {
    /// Always run the importer.
    ImportAlways,
    /// Run it only when some requested importable's import data is stale.
    ImportIfImportDataStale,
}

/// Header of an import-data file: the source file it was made from, and a hash of its contents.
#[derive(Copy, Clone, Debug, PartialEq, Eq, Structural)]
pub struct ImportDataMetadata {
    pub source_file_modified_timestamp: u64,
    pub source_file_size: u64,
    pub import_data_contents_hash: u64,
}

/// What is known of one requested importable before importing: the header of its import-data
/// file (`None` when the file is missing) and the import state recorded on its asset (`None`
/// when the asset is missing or has no import data).
#[derive(Copy, Clone, Debug, PartialEq, Eq, Structural)]
pub struct ImportableState {
    pub asset_id: AssetId,
    pub stored_metadata: Option<ImportDataMetadata>,
    pub asset_import_state: Option<ImportDataMetadata>,
}

/// True when the importable's import data can be reused for a source file of this size and
/// modification time: the file exists, matches the source, and matches the asset's record.
pub open spec fn importable_up_to_date(st: ImportableState, size: u64, mtime: u64) -> bool {
    match (st.stored_metadata, st.asset_import_state) {
        (Some(m), Some(a)) => m.source_file_size == size && m.source_file_modified_timestamp == mtime
            && a.import_data_contents_hash == m.import_data_contents_hash
            && a.source_file_size == m.source_file_size
            && a.source_file_modified_timestamp == m.source_file_modified_timestamp,
        _ => false,
    }
}

/// True when some requested importable's import data is stale.
pub fn import_data_is_stale(importables: &[ImportableState], source_file_size: u64, source_file_modified_timestamp: u64) -> (r: bool)
    ensures
        r == !(forall|i: int| 0 <= i < importables@.len()
            ==> importable_up_to_date(#[trigger] importables@[i], source_file_size, source_file_modified_timestamp)),
{
    let mut i: usize = 0;
    while i < importables.len()
        invariant
            0 <= i <= importables@.len(),
            forall|j: int| 0 <= j < i ==> importable_up_to_date(#[trigger] importables@[j], source_file_size, source_file_modified_timestamp),
        decreases importables@.len() - i,
    {
        let st = importables[i];
        let fresh = match (st.stored_metadata, st.asset_import_state) {
            (Some(m), Some(a)) => m.source_file_size == source_file_size
                && m.source_file_modified_timestamp == source_file_modified_timestamp
                && a.import_data_contents_hash == m.import_data_contents_hash
                && a.source_file_size == m.source_file_size
                && a.source_file_modified_timestamp == m.source_file_modified_timestamp,
            _ => false,
        };
        if !fresh {
            return true;
        }
        i = i + 1;
    }
    false
}

/// True when the importer must run for this request.
pub fn should_run_import(import_type: ImportType, importables: &[ImportableState], source_file_size: u64, source_file_modified_timestamp: u64) -> (r: bool)
    ensures
        r == (import_type == ImportType::ImportAlways || !(forall|i: int| 0 <= i < importables@.len()
            ==> importable_up_to_date(#[trigger] importables@[i], source_file_size, source_file_modified_timestamp))),
{
    match import_type {
        ImportType::ImportAlways => true,
        ImportType::ImportIfImportDataStale => import_data_is_stale(importables, source_file_size, source_file_modified_timestamp),
    }
}

/// The header written with freshly imported data.
pub fn import_metadata_for(source_file_size: u64, source_file_modified_timestamp: u64, import_data_contents_hash: u64) -> (r: ImportDataMetadata)
    ensures
        r.source_file_size == source_file_size,
        r.source_file_modified_timestamp == source_file_modified_timestamp,
        r.import_data_contents_hash == import_data_contents_hash,
{
    ImportDataMetadata { source_file_modified_timestamp, source_file_size, import_data_contents_hash }
}

/// The 64-bit SipHash of a byte string, as `siphasher` computes it through `std::hash::Hash`.
pub uninterp spec fn sip64_of_bytes(b: Seq<u8>) -> u64;

/// Relies on `siphasher::sip::SipHasher` (default keys) fed with the bytes through
/// `std::hash::Hash`; the result depends on the bytes alone.
#[verifier::external_body]
fn hash_bytes(b: &[u8]) -> (r: u64)
    ensures
        r == sip64_of_bytes(b@),
{
    let mut hasher = siphasher::sip::SipHasher::default();
    std::hash::Hash::hash(b, &mut hasher);
    std::hash::Hasher::finish(&hasher)
}

/// True when the import-data file must be written: there is none yet, or what is on disk
/// hashes differently from the new contents. Skipping equal contents keeps the file's
/// modification time, so nothing downstream rebuilds.
pub fn file_needs_write(data_on_disk: Option<&[u8]>, data_to_write: &[u8]) -> (r: bool)
    ensures
        r == match data_on_disk {
            None => true,
            Some(d) => sip64_of_bytes(d@) != sip64_of_bytes(data_to_write@),
        },
{
    match data_on_disk {
        None => true,
        Some(d) => hash_bytes(d) != hash_bytes(data_to_write),
    }
}

/// An import of unchanged inputs changes nothing: when every importable's stored header and
/// asset record both equal the source's current size and time, a stale-only import is skipped,
/// and a file whose bytes equal the new contents is not rewritten.
pub proof fn lemma_unchanged_import_is_skipped(importables: Seq<ImportableState>, size: u64, mtime: u64, on_disk: Seq<u8>, to_write: Seq<u8>)
    requires
        forall|i: int| 0 <= i < importables.len() ==> (match (#[trigger] importables[i]).stored_metadata {
            Some(m) => importables[i].asset_import_state == Some(m)
                && m.source_file_size == size && m.source_file_modified_timestamp == mtime,
            None => false,
        }),
        on_disk == to_write,
    ensures
        forall|i: int| 0 <= i < importables.len() ==> importable_up_to_date(#[trigger] importables[i], size, mtime),
        sip64_of_bytes(on_disk) == sip64_of_bytes(to_write),
{
}

/// What `std::path::Path::file_name` gives for a path, as text: its last component, if any.
pub uninterp spec fn file_name_of(path: Seq<char>) -> Option<Seq<char>>;

/// Relies on `std::path::Path::file_name` (made lossless text by `to_string_lossy`): the last
/// component of the path, or `None` when the path ends in `..` or is a root or empty.
#[verifier::external_body]
fn file_name(path: &str) -> (r: Option<String>)
    ensures
        r matches Some(s) ==> file_name_of(path@) == Some(s@),
        r is None <==> file_name_of(path@) is None,
{
    match std::path::Path::new(path).file_name() {
        Some(f) => Some(f.to_string_lossy().to_string()),
        None => None,
    }
}

/// The name of an importable within its source file; empty for the file's main importable.
#[derive(Clone, Debug, PartialEq, Eq, Hash)]
pub struct ImportableName(pub String);

impl ImportableName {
    pub fn new(name: String) -> (r: Self)
        ensures r.0 == name,
    {
        ImportableName(name)
    }

    pub fn name(&self) -> (r: Option<&String>)
        ensures
            r is None <==> self.0@.len() == 0,
            r matches Some(s) ==> *s == self.0,
    {
        if self.0.unicode_len() == 0 {
            None
        } else {
            Some(&self.0)
        }
    }
}

/// The name given to an asset made for importable `importable_name` of the source file: the
/// file's name, then `.` and the importable's name when it has one; empty when the path has no
/// file name.
pub fn create_asset_name(source_file_path: &str, importable_name: &ImportableName) -> (r: ObjectName)
    ensures
        r.0@ == match file_name_of(source_file_path@) {
            None => Seq::<char>::empty(),
            Some(f) => if importable_name.0@.len() == 0 { f } else { f + seq!['.'] + importable_name.0@ },
        },
{
    match file_name(source_file_path) {
        Some(mut f) => {
            match importable_name.name() {
                Some(n) => {
                    proof {
                        reveal_strlit(".");
                    }
                    f.append(".");
                    f.append(n.as_str());
                    ObjectName(f)
                },
                None => ObjectName(f),
            }
        },
        None => ObjectName::empty(),
    }
}

/// A source file and the importable inside it.
#[derive(Clone, Debug, PartialEq, Eq, Hash)]
pub struct PathReference {
    pub path: String,
    pub importable_name: ImportableName,
}

/// Where an asset's import data came from.
#[derive(Clone, Debug)]
pub struct ImportInfo {
    pub importer_id: u128,
    pub source_file: PathReference,
    pub path_references: Vec<PathReference>,
    pub source_file_modified_timestamp: u64,
    pub source_file_size: u64,
    pub import_data_contents_hash: u64,
}

impl ImportInfo {
    pub fn new(
        importer_id: u128,
        source_file: PathReference,
        path_references: Vec<PathReference>,
        source_file_modified_timestamp: u64,
        source_file_size: u64,
        import_data_contents_hash: u64,
    ) -> (r: Self)
        ensures
            r.importer_id == importer_id,
            r.source_file == source_file,
            r.path_references == path_references,
            r.source_file_modified_timestamp == source_file_modified_timestamp,
            r.source_file_size == source_file_size,
            r.import_data_contents_hash == import_data_contents_hash,
    {
        ImportInfo {
            importer_id,
            source_file,
            path_references,
            source_file_modified_timestamp,
            source_file_size,
            import_data_contents_hash,
        }
    }

    /// The header that this import info records.
    pub fn metadata(&self) -> (r: ImportDataMetadata)
        ensures
            r.source_file_size == self.source_file_size,
            r.source_file_modified_timestamp == self.source_file_modified_timestamp,
            r.import_data_contents_hash == self.import_data_contents_hash,
    {
        import_metadata_for(self.source_file_size, self.source_file_modified_timestamp, self.import_data_contents_hash)
    }
}

/// An asset that an import request covers, with the assets its referenced files map to.
#[derive(Clone, Debug)]
pub struct ImportableAsset {
    pub id: AssetId,
    pub referenced_paths: Vec<(PathReference, AssetId)>,
}

/// One import to run: the source file, the importer, and the asset of each importable.
#[derive(Clone, Debug)]
pub struct ImportOp {
    pub asset_ids: Vec<(ImportableName, AssetId)>,
    pub importer_id: u128,
    pub path: String,
    pub import_type: ImportType,
}

/// A request handed to an import worker.
#[derive(Debug)]
pub struct ImportThreadRequestImport {
    pub import_op: ImportOp,
    pub importable_assets: Vec<(ImportableName, ImportableAsset)>,
}

#[derive(Debug)]
pub enum ImportThreadRequest {
    RequestImport(ImportThreadRequestImport),
}

/// One imported importable, with what the main loop needs to commit it.
#[derive(Debug)]
pub struct ImportThreadImportedImportable {
    pub default_asset: SingleObject,
    pub import_info: ImportInfo,
}

/// The result of one request: the imported importables by name, or the error that stopped it.
#[derive(Debug)]
pub struct ImportThreadOutcomeComplete {
    pub request: ImportThreadRequestImport,
    pub result: Result<Vec<(ImportableName, ImportThreadImportedImportable)>, String>,
}

#[derive(Debug)]
pub enum ImportThreadOutcome {
    Complete(ImportThreadOutcomeComplete),
}

/// An importable that an editor request asks for, with the asset it goes to.
#[derive(Clone, Debug)]
pub struct RequestedImportable {
    pub asset_id: AssetId,
    pub schema_fingerprint: crate::ids::SchemaFingerprint,
    pub asset_name: ObjectName,
    pub asset_location: crate::data_set::ObjectLocation,
    pub source_file: PathReference,
    pub path_references: Vec<(PathReference, AssetId)>,
    pub replace_with_default_asset: bool,
}

/// A queued import request from the editor or a rescan.
#[derive(Clone, Debug)]
pub struct ImportToQueue {
    pub source_file_path: String,
    pub importer_id: u128,
    pub requested_importables: Vec<(ImportableName, RequestedImportable)>,
    pub import_type: ImportType,
}


/// The text of a path reference: its path and its importable's name.
pub open spec fn reference_view(r: PathReference) -> (Seq<char>, Seq<char>) {
    (r.path@, r.importable_name.0@)
}

/// True when two references name the same file and importable.
pub fn same_reference(a: &PathReference, b: &PathReference) -> (r: bool)
    ensures
        r == (reference_view(*a) == reference_view(*b)),
{
    crate::schema::str_eq(a.path.as_str(), b.path.as_str())
        && crate::schema::str_eq(a.importable_name.0.as_str(), b.importable_name.0.as_str())
}

/// The last of `candidates` (in order) whose reference equals `reference`, as an asset id.
pub open spec fn last_match(candidates: Seq<(AssetId, PathReference)>, reference: PathReference, n: int) -> Option<AssetId>
    decreases n,
{
    if n <= 0 {
        None
    } else if reference_view(candidates[n - 1].1) == reference_view(reference) {
        Some(candidates[n - 1].0)
    } else {
        last_match(candidates, reference, n - 1)
    }
}

/// The asset that a referenced source file already maps to: one requested in this import
/// (the last such), else one imported before (the last such); `None` when the file must be
/// imported too.
pub fn find_referenced_asset(
    requested: &[(AssetId, PathReference)],
    previously_imported: &[(AssetId, PathReference)],
    reference: &PathReference,
) -> (r: Option<AssetId>)
    ensures
        r == match last_match(requested@, *reference, requested@.len() as int) {
            Some(a) => Some(a),
            None => last_match(previously_imported@, *reference, previously_imported@.len() as int),
        },
{
    match last_match_exec(requested, reference) {
        Some(a) => Some(a),
        None => last_match_exec(previously_imported, reference),
    }
}

fn last_match_exec(candidates: &[(AssetId, PathReference)], reference: &PathReference) -> (r: Option<AssetId>)
    ensures
        r == last_match(candidates@, *reference, candidates@.len() as int),
{
    let mut n: usize = candidates.len();
    while n > 0
        invariant
            0 <= n <= candidates@.len(),
            last_match(candidates@, *reference, candidates@.len() as int) == last_match(candidates@, *reference, n as int),
        decreases n,
    {
        if same_reference(&candidates[n - 1].1, reference) {
            return Some(candidates[n - 1].0);
        }
        n = n - 1;
    }
    None
}

} // verus!
