use vstd::prelude::*;

verus! {

/// The bit that marks a load handle as indirect.
pub const INDIRECT_BIT: u64 = 0x8000_0000_0000_0000;

/// Identifies an authored asset; stable across sessions.
#[derive(Copy, Clone, Debug, PartialEq, Eq, Hash, PartialOrd, Ord, Structural)]
pub struct AssetId(pub u128);

/// Identifies a built artifact.
#[derive(Copy, Clone, Debug, PartialEq, Eq, Hash, PartialOrd, Ord, Structural)]
pub struct ArtifactId(pub u128);

/// Fingerprint of a named schema type.
#[derive(Copy, Clone, Debug, PartialEq, Eq, Hash, PartialOrd, Ord, Structural)]
pub struct SchemaFingerprint(pub u128);

/// UUID of an asset's runtime type, as its sixteen bytes.
#[derive(Copy, Clone, Debug, PartialEq, Eq, Hash, Default)]
pub struct AssetTypeId(pub [u8; 16]);

/// Token allocated by the loader for one artifact, or for an indirect (late-bound) identifier.
#[derive(Copy, Clone, Debug, PartialEq, Eq, Hash, Structural)]
pub struct LoadHandle(pub u64);

/// True when the top bit of `v` is set.
pub open spec fn top_bit_set(v: u64) -> bool {
    v >= INDIRECT_BIT
}

impl LoadHandle {
    /// Builds a handle from a counter value; an indirect handle gets the top bit set.
    pub fn new(load_handle: u64, is_indirect: bool) -> (r: Self)
        ensures
            is_indirect ==> r.0 == (load_handle | INDIRECT_BIT),
            !is_indirect ==> r.0 == load_handle,
            is_indirect ==> top_bit_set(r.0),
            is_indirect ==> r.0 % INDIRECT_BIT == load_handle % INDIRECT_BIT,
    {
        if is_indirect {
            let v: u64 = load_handle | INDIRECT_BIT;
            assert(v >= 0x8000_0000_0000_0000u64) by (bit_vector)
                requires v == (load_handle | 0x8000_0000_0000_0000u64);
            assert(v % 0x8000_0000_0000_0000u64 == load_handle % 0x8000_0000_0000_0000u64) by (bit_vector)
                requires v == (load_handle | 0x8000_0000_0000_0000u64);
            LoadHandle(v)
        } else {
            LoadHandle(load_handle)
        }
    }

    /// True when the handle must be resolved through the indirection table before use.
    pub fn is_indirect(&self) -> (r: bool)
        ensures
            r == top_bit_set(self.0),
    {
        let v = self.0;
        let r = (v & INDIRECT_BIT) == INDIRECT_BIT;
        assert(((v & 0x8000_0000_0000_0000u64) == 0x8000_0000_0000_0000u64) == (v >= 0x8000_0000_0000_0000u64)) by (bit_vector);
        r
    }
}

/// A reference to an artifact that may not be loaded yet.
#[derive(Copy, Clone, Debug, PartialEq, Eq, Hash, PartialOrd, Ord, Structural)]
pub struct ArtifactRef(pub ArtifactId);

/// Operations on an artifact's reference count.
#[derive(Copy, Clone, Debug, PartialEq, Eq, Structural)]
pub enum RefOp {
    Decrease(LoadHandle),
    Increase(LoadHandle),
    IncreaseUuid(ArtifactId),
}

/// A handle that does not keep its artifact loaded.
#[derive(Copy, Clone, Debug, PartialEq, Eq, Hash, Structural)]
pub struct WeakHandle {
    pub id: LoadHandle,
}

impl WeakHandle {
    pub fn new(handle: LoadHandle) -> (r: Self)
        ensures
            r.id == handle,
    {
        WeakHandle { id: handle }
    }

    pub fn load_handle(&self) -> (r: LoadHandle)
        ensures
            r == self.id,
    {
        self.id
    }
}

} // verus!
