//! Schema-driven asset database, import staleness rules, artifact identifiers and the
//! reference-counting core of the artifact loader.
pub mod ids;
pub mod error;
pub mod path;
pub mod path_map;
pub mod schema;
pub mod schema_set;
pub mod value;
pub mod data_set;
pub mod location;
pub mod object_path;
pub mod edit_context;
pub mod asset_record;
pub mod field_wrappers;
pub mod import;
pub mod artifact;
pub mod job;
pub mod serde_context;
pub mod loader;
pub mod storage;
pub mod demo;
pub mod laws;
