use vstd::prelude::*;
use crate::ids::{LoadHandle, AssetTypeId};
use crate::loader::{LoaderState, LoadState, LoadHandleInfo, versions_monotone};

verus! {

/// What a storage reports back about one load operation.
#[derive(Clone, Debug, PartialEq, Eq)]
pub enum HandleOp {
    Error(LoadHandle, u32, String),
    Complete(LoadHandle, u32),
    Drop(LoadHandle, u32),
}

/// Lets a storage signal, exactly once, that a load finished or failed. Abandoning it counts as
/// a failure.
#[derive(Copy, Clone, Debug, PartialEq, Eq, Structural)]
pub struct AssetLoadOp {
    pub handle: LoadHandle,
    pub version: u32,
}

impl AssetLoadOp {
    pub fn new(handle: LoadHandle, version: u32) -> (r: Self)
        ensures r.handle == handle, r.version == version,
    {
        AssetLoadOp { handle, version }
    }

    pub fn load_handle(&self) -> (r: LoadHandle)
        ensures r == self.handle,
    {
        self.handle
    }

    /// Signals success.
    pub fn complete(self) -> (r: HandleOp)
        ensures r == HandleOp::Complete(self.handle, self.version),
    {
        HandleOp::Complete(self.handle, self.version)
    }

    /// Signals failure.
    pub fn error(self, error: String) -> (r: HandleOp)
        ensures r == HandleOp::Error(self.handle, self.version, error),
    {
        HandleOp::Error(self.handle, self.version, error)
    }

    /// Gives up on the operation without signalling.
    pub fn abandon(self) -> (r: HandleOp)
        ensures r == HandleOp::Drop(self.handle, self.version),
    {
        HandleOp::Drop(self.handle, self.version)
    }
}

/// A short hash standing for a symbol name.
#[derive(Copy, Clone, Debug, PartialEq, Eq, Hash, Structural)]
pub struct StringHash(pub u128);

/// A late-bound name that resolves to some artifact of the given type.
#[derive(Clone, Debug, PartialEq, Eq, Hash)]
pub enum IndirectIdentifier {
    PathWithType(String, AssetTypeId),
    SymbolWithType(StringHash, AssetTypeId),
}

impl LoaderState {
    /// Applies a storage's report to the load it is about. A report on an older version than the
    /// newest load is ignored; so is one that arrives when no load is in progress.
    pub fn apply_handle_op(&mut self, op: &HandleOp) -> (r: bool)
        requires
            old(self).wf(),
        ensures
            final(self).wf(),
            versions_monotone(old(self).handles@, final(self).handles@),
            final(self).by_artifact@ == old(self).by_artifact@,
            final(self).indirection@ == old(self).indirection@,
            !r ==> final(self).handles@ == old(self).handles@,
            r ==> match op {
                HandleOp::Complete(h, v) => old(self).handles@.contains_key(h.0)
                    && old(self).handles@[h.0].pending_version == v
                    && old(self).handles@[h.0].state == LoadState::Loading
                    && final(self).handles@ == old(self).handles@.insert(h.0, LoadHandleInfo {
                        state: LoadState::Loaded,
                        ..old(self).handles@[h.0]
                    }),
                HandleOp::Error(h, v, _) | HandleOp::Drop(h, v) => old(self).handles@.contains_key(h.0)
                    && old(self).handles@[h.0].pending_version == v
                    && old(self).handles@[h.0].state == LoadState::Loading
                    && final(self).handles@ == old(self).handles@.insert(h.0, LoadHandleInfo {
                        state: LoadState::Unloaded,
                        ..old(self).handles@[h.0]
                    }),
            },
    {
        let (h, v, ok) = match op {
            HandleOp::Complete(h, v) => (*h, *v, true),
            HandleOp::Error(h, v, _) => (*h, *v, false),
            HandleOp::Drop(h, v) => (*h, *v, false),
        };
        let info = match self.handles.get(&h.0) {
            Some(i) => *i,
            None => {
                return false;
            },
        };
        if info.pending_version != v || info.state != LoadState::Loading {
            return false;
        }
        let state = if ok { LoadState::Loaded } else { LoadState::Unloaded };
        self.handles.insert(h.0, LoadHandleInfo { state, ..info });
        true
    }
}

} // verus!
