use vstd::prelude::*;

verus! {

/// Errors of the schema engine and the data set.
#[derive(Copy, Clone, Debug, PartialEq, Eq, Structural)]
pub enum DataSetError {
    /// A value's variant does not agree with the schema at its path.
    SchemaMismatch,
    /// A null ancestor or a missing dynamic-array entry blocks the path.
    UnresolvablePath,
    /// No named type has the requested name or fingerprint.
    UnknownType,
    /// The path names no field of the schema.
    UnknownField,
    /// An enum value names no symbol of its enum.
    UnexpectedEnumSymbol,
    /// The asset does not exist.
    AssetNotFound,
    /// The data container's contents were already taken.
    DataTaken,
    /// The operation does not apply to a property of this kind.
    InvalidSchema,
    /// The dynamic-array entry does not exist.
    EntryNotFound,
    /// A fresh identifier collided with an existing one.
    DuplicateId,
}

pub type DataSetResult<T> = Result<T, DataSetError>;

} // verus!
