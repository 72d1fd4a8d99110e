use vstd::prelude::*;
use std::collections::HashMap;
use dashmap::DashMap;
use crate::ids::{ArtifactId, LoadHandle, RefOp, INDIRECT_BIT, top_bit_set};

verus! {

broadcast use vstd::std_specs::hash::group_hash_axioms;

/// How a handle takes part in reference counting.
#[derive(Copy, Clone, Debug, PartialEq, Eq, Structural)]
pub enum HandleRefType {
    /// Decrements the count when dropped.
    Strong,
    /// Never changes the count.
    Weak,
    /// Held inside loaded artifacts: no decrement on drop, but a clone is strong.
    Internal,
}

/// A load handle with its reference kind.
#[derive(Copy, Clone, Debug, PartialEq, Eq, Structural)]
pub struct HandleRef {
    pub id: LoadHandle,
    pub ref_type: HandleRefType,
}

/// What dropping a handle of kind `t` sends to the loader.
pub open spec fn drop_op(t: HandleRefType, id: LoadHandle) -> Option<RefOp> {
    match t {
        HandleRefType::Strong => Some(RefOp::Decrease(id)),
        _ => None,
    }
}

/// The kind of a clone of a handle of kind `t`, and what cloning sends to the loader.
pub open spec fn clone_of(t: HandleRefType, id: LoadHandle) -> (HandleRefType, Option<RefOp>) {
    match t {
        HandleRefType::Weak => (HandleRefType::Weak, None),
        _ => (HandleRefType::Strong, Some(RefOp::Increase(id))),
    }
}

/// The change that an operation makes to the count of handle `h`.
pub open spec fn count_delta(op: Option<RefOp>, h: LoadHandle) -> int {
    match op {
        Some(RefOp::Increase(x)) => if x == h { 1 } else { 0 },
        Some(RefOp::Decrease(x)) => if x == h { -1 } else { 0 },
        _ => 0,
    }
}

impl HandleRef {
    pub fn new(id: LoadHandle, ref_type: HandleRefType) -> (r: Self)
        ensures r.id == id, r.ref_type == ref_type,
    {
        HandleRef { id, ref_type }
    }

    pub fn load_handle(&self) -> (r: LoadHandle)
        ensures r == self.id,
    {
        self.id
    }

    /// The operation that dropping this handle sends to the loader.
    pub fn on_drop(&self) -> (r: Option<RefOp>)
        ensures r == drop_op(self.ref_type, self.id),
    {
        match self.ref_type {
            HandleRefType::Strong => Some(RefOp::Decrease(self.id)),
            _ => None,
        }
    }

    /// A clone of this handle, and the operation that cloning sends to the loader.
    pub fn clone_ref(&self) -> (r: (HandleRef, Option<RefOp>))
        ensures
            r.0.id == self.id,
            (r.0.ref_type, r.1) == clone_of(self.ref_type, self.id),
    {
        match self.ref_type {
            HandleRefType::Weak => (HandleRef { id: self.id, ref_type: HandleRefType::Weak }, None),
            _ => (HandleRef { id: self.id, ref_type: HandleRefType::Strong }, Some(RefOp::Increase(self.id))),
        }
    }
}

/// A typed handle to an artifact; made strong.
pub struct Handle<T> {
    pub handle_ref: HandleRef,
    pub marker: std::marker::PhantomData<T>,
}

impl<T> Handle<T> {
    /// A strong handle.
    pub fn new(handle: LoadHandle) -> (r: Self)
        ensures
            r.handle_ref.id == handle,
            r.handle_ref.ref_type == HandleRefType::Strong,
    {
        Handle { handle_ref: HandleRef { id: handle, ref_type: HandleRefType::Strong }, marker: std::marker::PhantomData }
    }

    /// A handle made while reading an artifact: it does not count until cloned.
    pub fn new_internal(handle: LoadHandle) -> (r: Self)
        ensures
            r.handle_ref.id == handle,
            r.handle_ref.ref_type == HandleRefType::Internal,
    {
        Handle { handle_ref: HandleRef { id: handle, ref_type: HandleRefType::Internal }, marker: std::marker::PhantomData }
    }

    pub fn load_handle(&self) -> (r: LoadHandle)
        ensures r == self.handle_ref.id,
    {
        self.handle_ref.id
    }
}

/// A handle to an artifact whose type is not known while loading.
pub struct GenericHandle {
    pub handle_ref: HandleRef,
}

impl GenericHandle {
    /// A strong handle.
    pub fn new(handle: LoadHandle) -> (r: Self)
        ensures
            r.handle_ref.id == handle,
            r.handle_ref.ref_type == HandleRefType::Strong,
    {
        GenericHandle { handle_ref: HandleRef { id: handle, ref_type: HandleRefType::Strong } }
    }

    pub fn load_handle(&self) -> (r: LoadHandle)
        ensures r == self.handle_ref.id,
    {
        self.handle_ref.id
    }
}

/// Reference kinds and counts: dropping a strong handle decrements its count once, dropping a
/// weak or internal one changes nothing, and cloning an internal handle yields a strong one
/// with one increment.
pub proof fn lemma_handle_ref_counting(id: LoadHandle)
    ensures
        count_delta(drop_op(HandleRefType::Strong, id), id) == -1,
        count_delta(drop_op(HandleRefType::Weak, id), id) == 0,
        count_delta(drop_op(HandleRefType::Internal, id), id) == 0,
        clone_of(HandleRefType::Internal, id).0 == HandleRefType::Strong,
        count_delta(clone_of(HandleRefType::Internal, id).1, id) == 1,
        count_delta(clone_of(HandleRefType::Strong, id).1, id) == 1,
        count_delta(clone_of(HandleRefType::Weak, id).1, id) == 0,
{
}

/// Where the load of one artifact stands.
#[derive(Copy, Clone, Debug, PartialEq, Eq, Structural)]
pub enum LoadState {
    Unloaded,
    WaitingForMetadata,
    WaitingForDependencies,
    WaitingForData,
    Loading,
    Loaded,
    Committed,
}

/// What happens to a load in flight.
#[derive(Copy, Clone, Debug, PartialEq, Eq, Structural)]
pub enum LoadEvent {
    /// The artifact's metadata arrived.
    MetadataReceived,
    /// Every dependency reached `Loaded` or later.
    DependenciesLoaded,
    /// The payload was handed to the storage.
    DataDelivered,
    /// The storage completed the load.
    LoadComplete,
    /// The storage, or reading the artifact, failed.
    LoadFailed,
}

/// The state a load moves to on an event; `None` when the event does not apply.
pub open spec fn next_state(s: LoadState, e: LoadEvent) -> Option<LoadState> {
    match (s, e) {
        (LoadState::WaitingForMetadata, LoadEvent::MetadataReceived) => Some(LoadState::WaitingForDependencies),
        (LoadState::WaitingForDependencies, LoadEvent::DependenciesLoaded) => Some(LoadState::WaitingForData),
        (LoadState::WaitingForData, LoadEvent::DataDelivered) => Some(LoadState::Loading),
        (LoadState::Loading, LoadEvent::LoadComplete) => Some(LoadState::Loaded),
        (LoadState::Unloaded, LoadEvent::LoadFailed) => None,
        (LoadState::Committed, LoadEvent::LoadFailed) => None,
        (_, LoadEvent::LoadFailed) => Some(LoadState::Unloaded),
        _ => None,
    }
}

/// The state a load moves to on an event; `None` when the event does not apply.
pub fn advance_state(s: LoadState, e: LoadEvent) -> (r: Option<LoadState>)
    ensures
        r == next_state(s, e),
{
    match (s, e) {
        (LoadState::WaitingForMetadata, LoadEvent::MetadataReceived) => Some(LoadState::WaitingForDependencies),
        (LoadState::WaitingForDependencies, LoadEvent::DependenciesLoaded) => Some(LoadState::WaitingForData),
        (LoadState::WaitingForData, LoadEvent::DataDelivered) => Some(LoadState::Loading),
        (LoadState::Loading, LoadEvent::LoadComplete) => Some(LoadState::Loaded),
        (LoadState::Unloaded, LoadEvent::LoadFailed) => None,
        (LoadState::Committed, LoadEvent::LoadFailed) => None,
        (_, LoadEvent::LoadFailed) => Some(LoadState::Unloaded),
        _ => None,
    }
}

/// What the loader knows of one direct handle.
#[derive(Copy, Clone, Debug, PartialEq, Eq, Structural)]
pub struct LoadHandleInfo {
    pub artifact_id: ArtifactId,
    pub refcount: u64,
    /// State of the newest load, which may run beside a committed older version.
    pub state: LoadState,
    /// Version of the newest load.
    pub pending_version: u32,
    /// The version that consumers see; 0 while none was committed.
    pub committed_version: u32,
}

/// `i` with one more reference; a load starts when the count leaves zero.
pub open spec fn info_plus(i: LoadHandleInfo) -> LoadHandleInfo {
    LoadHandleInfo {
        refcount: (i.refcount + 1) as u64,
        state: if i.refcount == 0 { LoadState::WaitingForMetadata } else { i.state },
        ..i
    }
}

/// `i` with one reference fewer; the load is torn down when the count reaches zero.
pub open spec fn info_minus(i: LoadHandleInfo) -> LoadHandleInfo {
    LoadHandleInfo {
        refcount: (i.refcount - 1) as u64,
        state: if i.refcount == 1 { LoadState::Unloaded } else { i.state },
        ..i
    }
}

/// No handle disappears and no committed version goes back.
pub open spec fn versions_monotone(a: Map<u64, LoadHandleInfo>, b: Map<u64, LoadHandleInfo>) -> bool {
    forall|h: u64| #[trigger] a.contains_key(h) ==> b.contains_key(h) && a[h].committed_version <= b[h].committed_version
}

/// Committed versions never go back over any run of loader operations: monotonicity of each
/// step carries over to their sequence.
pub proof fn lemma_versions_monotone_trans(a: Map<u64, LoadHandleInfo>, b: Map<u64, LoadHandleInfo>, c: Map<u64, LoadHandleInfo>)
    requires
        versions_monotone(a, b),
        versions_monotone(b, c),
    ensures
        versions_monotone(a, c),
{
    assert forall|h: u64| #[trigger] a.contains_key(h) implies c.contains_key(h) && a[h].committed_version <= c[h].committed_version by {
        assert(b.contains_key(h));
    }
}

/// Adding a reference and then removing it leaves the count as it was.
pub proof fn lemma_add_then_remove_ref(i: LoadHandleInfo)
    requires
        i.refcount < u64::MAX,
    ensures
        info_minus(info_plus(i)).refcount == i.refcount,
        i.refcount > 0 ==> info_minus(info_plus(i)) == i,
{
}

#[verifier::external_type_specification]
#[verifier::external_body]
#[verifier::reject_recursive_types(K)]
#[verifier::reject_recursive_types(V)]
#[verifier::reject_recursive_types(S)]
pub struct ExDashMap<K, V, S>(DashMap<K, V, S>);

/// What a concurrent map from indirect to direct handle numbers holds.
pub uninterp spec fn indirection_contents(m: DashMap<u64, u64>) -> Map<u64, u64>;

/// The map with no bindings.
pub open spec fn no_bindings() -> Map<u64, u64> {
    Map::empty()
}

/// Relies on `dashmap::DashMap::new`: a map with no entries.
#[verifier::external_body]
fn dash_new() -> (r: DashMap<u64, u64>)
    ensures
        indirection_contents(r) == no_bindings(),
{
    DashMap::new()
}

/// Relies on `dashmap::DashMap::get`: the value stored under the key, if any.
#[verifier::external_body]
fn dash_get(m: &DashMap<u64, u64>, k: u64) -> (r: Option<u64>)
    ensures
        r matches Some(v) ==> indirection_contents(*m).contains_key(k) && indirection_contents(*m)[k] == v,
        r is None <==> !indirection_contents(*m).contains_key(k),
{
    match m.get(&k) {
        Some(e) => Some(*e),
        None => None,
    }
}

/// Relies on `dashmap::DashMap::insert`: afterwards the key maps to the value and every other
/// key is as before.
#[verifier::external_body]
fn dash_insert(m: &mut DashMap<u64, u64>, k: u64, v: u64)
    ensures
        indirection_contents(*final(m)) == indirection_contents(*old(m)).insert(k, v),
{
    m.insert(k, v);
}

/// Binds each indirect handle to the direct handle it resolves to now. Shared with handle
/// holders on other threads, so it is a concurrent map.
pub struct IndirectionTable(DashMap<u64, u64>);

impl View for IndirectionTable {
    type V = Map<u64, u64>;

    closed spec fn view(&self) -> Map<u64, u64> {
        indirection_contents(self.0)
    }
}

impl IndirectionTable {
    pub fn new() -> (r: Self)
        ensures r@ == Map::<u64, u64>::empty(),
    {
        IndirectionTable(dash_new())
    }

    /// The direct handle that an indirect handle is bound to now.
    pub fn resolve(&self, indirect_handle: LoadHandle) -> (r: Option<LoadHandle>)
        ensures
            r matches Some(h) ==> self@.contains_key(indirect_handle.0) && self@[indirect_handle.0] == h.0,
            r is None <==> !self@.contains_key(indirect_handle.0),
    {
        match dash_get(&self.0, indirect_handle.0) {
            Some(h) => Some(LoadHandle(h)),
            None => None,
        }
    }

    /// True when the indirect handle number is bound.
    pub fn contains(&self, indirect: u64) -> (r: bool)
        ensures r == self@.contains_key(indirect),
    {
        dash_get(&self.0, indirect).is_some()
    }

    /// Binds an indirect handle number to a direct one.
    pub fn bind(&mut self, indirect: u64, direct: u64)
        ensures final(self)@ == old(self)@.insert(indirect, direct),
    {
        dash_insert(&mut self.0, indirect, direct);
    }
}

/// The loader's bookkeeping: direct handles by number, the handle of each artifact, and the
/// binding of each indirect handle to a direct one.
pub struct LoaderState {
    pub handles: HashMap<u64, LoadHandleInfo>,
    pub by_artifact: HashMap<u128, u64>,
    pub indirection: IndirectionTable,
    pub next_handle: u64,
}

impl LoaderState {
    /// Every artifact's handle is known, and new handle numbers are above all used ones and
    /// below the indirect bit.
    pub open spec fn wf(&self) -> bool {
        &&& forall|a: u128| #[trigger] self.by_artifact@.contains_key(a) ==> self.handles@.contains_key(self.by_artifact@[a])
            && self.handles@[self.by_artifact@[a]].artifact_id.0 == a
        &&& forall|h: u64| #[trigger] self.handles@.contains_key(h) ==> h < self.next_handle
        &&& forall|h: u64| #[trigger] self.handles@.contains_key(h) ==> self.by_artifact@.contains_key(self.handles@[h].artifact_id.0)
            && self.by_artifact@[self.handles@[h].artifact_id.0] == h
        &&& forall|i: u64| #[trigger] self.indirection@.contains_key(i) ==> self.handles@.contains_key(self.indirection@[i])
        &&& self.next_handle <= INDIRECT_BIT
        &&& forall|h: u64| #[trigger] self.handles@.contains_key(h) ==> self.handles@[h].committed_version <= self.handles@[h].pending_version
    }

    pub fn new() -> (r: Self)
        ensures
            r.wf(),
            r.handles@ == Map::<u64, LoadHandleInfo>::empty(),
            r.indirection@ == Map::<u64, u64>::empty(),
    {
        LoaderState { handles: HashMap::new(), by_artifact: HashMap::new(), indirection: IndirectionTable::new(), next_handle: 1 }
    }

    /// The direct handle of an artifact, if one was made.
    pub fn handle_of(&self, artifact_id: ArtifactId) -> (r: Option<LoadHandle>)
        ensures
            r matches Some(h) ==> self.by_artifact@.contains_key(artifact_id.0) && self.by_artifact@[artifact_id.0] == h.0,
            r is None <==> !self.by_artifact@.contains_key(artifact_id.0),
    {
        match self.by_artifact.get(&artifact_id.0) {
            Some(h) => Some(LoadHandle(*h)),
            None => None,
        }
    }

    /// The reference count of a direct handle.
    pub fn refcount(&self, handle: LoadHandle) -> (r: u64)
        ensures
            r == (if self.handles@.contains_key(handle.0) { self.handles@[handle.0].refcount } else { 0 }),
    {
        match self.handles.get(&handle.0) {
            Some(i) => i.refcount,
            None => 0,
        }
    }

    /// The state of the newest load of a direct handle.
    pub fn load_state(&self, handle: LoadHandle) -> (r: LoadState)
        ensures
            r == (if self.handles@.contains_key(handle.0) { self.handles@[handle.0].state } else { LoadState::Unloaded }),
    {
        match self.handles.get(&handle.0) {
            Some(i) => i.state,
            None => LoadState::Unloaded,
        }
    }

    /// The version that consumers of a handle see, once one was committed.
    pub fn get_version(&self, handle: LoadHandle) -> (r: Option<u32>)
        ensures
            r == (if self.handles@.contains_key(handle.0) && self.handles@[handle.0].committed_version > 0 {
                Some(self.handles@[handle.0].committed_version)
            } else {
                None
            }),
    {
        match self.handles.get(&handle.0) {
            Some(i) => if i.committed_version > 0 { Some(i.committed_version) } else { None },
            None => None,
        }
    }

    /// Adds one reference to a direct handle.
    pub fn add_ref_handle(&mut self, handle: LoadHandle) -> (r: bool)
        requires
            old(self).wf(),
        ensures
            final(self).wf(),
            versions_monotone(old(self).handles@, final(self).handles@),
            final(self).by_artifact@ == old(self).by_artifact@,
            final(self).indirection@ == old(self).indirection@,
            r <==> old(self).handles@.contains_key(handle.0) && old(self).handles@[handle.0].refcount < u64::MAX,
            r ==> final(self).handles@ == old(self).handles@.insert(handle.0, info_plus(old(self).handles@[handle.0])),
            !r ==> final(self).handles@ == old(self).handles@,
    {
        let info = match self.handles.get(&handle.0) {
            Some(i) => *i,
            None => {
                return false;
            },
        };
        if info.refcount == u64::MAX {
            return false;
        }
        let new_info = LoadHandleInfo {
            refcount: info.refcount + 1,
            state: if info.refcount == 0 { LoadState::WaitingForMetadata } else { info.state },
            ..info
        };
        self.handles.insert(handle.0, new_info);
        true
    }

    /// Adds one reference to the artifact's handle, making the handle on first use.
    pub fn add_ref(&mut self, artifact_id: ArtifactId) -> (r: Option<LoadHandle>)
        requires
            old(self).wf(),
        ensures
            final(self).wf(),
            versions_monotone(old(self).handles@, final(self).handles@),
            final(self).indirection@ == old(self).indirection@,
            r matches Some(h) ==> !top_bit_set(h.0) && final(self).by_artifact@.contains_key(artifact_id.0)
                && final(self).by_artifact@[artifact_id.0] == h.0,
            r matches Some(h) ==> old(self).handles@.contains_key(h.0)
                ==> final(self).handles@ == old(self).handles@.insert(h.0, info_plus(old(self).handles@[h.0])),
            r matches Some(h) ==> !old(self).handles@.contains_key(h.0)
                ==> final(self).handles@[h.0].refcount == 1 && final(self).handles@[h.0].state == LoadState::WaitingForMetadata
                    && final(self).handles@ == old(self).handles@.insert(h.0, final(self).handles@[h.0]),
            old(self).by_artifact@.contains_key(artifact_id.0) ==> (r is Some
                <==> old(self).handles@[old(self).by_artifact@[artifact_id.0]].refcount < u64::MAX),
            !old(self).by_artifact@.contains_key(artifact_id.0) ==> (r is Some <==> old(self).next_handle < INDIRECT_BIT),
            r is None ==> final(self).handles@ == old(self).handles@,
    {
        match self.by_artifact.get(&artifact_id.0) {
            Some(h) => {
                let h = *h;
                if self.add_ref_handle(LoadHandle(h)) {
                    Some(LoadHandle(h))
                } else {
                    None
                }
            },
            None => {
                if self.next_handle >= INDIRECT_BIT {
                    return None;
                }
                let h = self.next_handle;
                let info = LoadHandleInfo {
                    artifact_id,
                    refcount: 1,
                    state: LoadState::WaitingForMetadata,
                    pending_version: 1,
                    committed_version: 0,
                };
                self.handles.insert(h, info);
                self.by_artifact.insert(artifact_id.0, h);
                self.next_handle = h + 1;
                proof {
                    assert(!old(self).handles@.contains_key(h));
                    assert forall|a: u128| #[trigger] self.by_artifact@.contains_key(a) implies self.handles@.contains_key(self.by_artifact@[a])
                        && self.handles@[self.by_artifact@[a]].artifact_id.0 == a by {
                        if a != artifact_id.0 {
                            assert(old(self).by_artifact@.contains_key(a));
                        }
                    }
                    assert forall|x: u64| #[trigger] self.handles@.contains_key(x) implies self.by_artifact@.contains_key(self.handles@[x].artifact_id.0)
                        && self.by_artifact@[self.handles@[x].artifact_id.0] == x by {
                        if x != h {
                            assert(old(self).handles@.contains_key(x));
                        }
                    }
                    assert(h < INDIRECT_BIT);
                }
                Some(LoadHandle(h))
            },
        }
    }

    /// Removes one reference; the load is torn down when none is left.
    pub fn remove_ref(&mut self, handle: LoadHandle) -> (r: bool)
        requires
            old(self).wf(),
        ensures
            final(self).wf(),
            versions_monotone(old(self).handles@, final(self).handles@),
            final(self).by_artifact@ == old(self).by_artifact@,
            final(self).indirection@ == old(self).indirection@,
            r <==> old(self).handles@.contains_key(handle.0) && old(self).handles@[handle.0].refcount > 0,
            r ==> final(self).handles@ == old(self).handles@.insert(handle.0, info_minus(old(self).handles@[handle.0])),
            !r ==> final(self).handles@ == old(self).handles@,
    {
        let info = match self.handles.get(&handle.0) {
            Some(i) => *i,
            None => {
                return false;
            },
        };
        if info.refcount == 0 {
            return false;
        }
        let new_info = LoadHandleInfo {
            refcount: info.refcount - 1,
            state: if info.refcount == 1 { LoadState::Unloaded } else { info.state },
            ..info
        };
        self.handles.insert(handle.0, new_info);
        true
    }

    /// Moves the newest load of a handle on by one event.
    pub fn handle_event(&mut self, handle: LoadHandle, event: LoadEvent) -> (r: bool)
        requires
            old(self).wf(),
        ensures
            final(self).wf(),
            versions_monotone(old(self).handles@, final(self).handles@),
            final(self).by_artifact@ == old(self).by_artifact@,
            final(self).indirection@ == old(self).indirection@,
            r <==> old(self).handles@.contains_key(handle.0) && next_state(old(self).handles@[handle.0].state, event) is Some,
            r ==> final(self).handles@ == old(self).handles@.insert(handle.0, LoadHandleInfo {
                state: next_state(old(self).handles@[handle.0].state, event)->0,
                ..old(self).handles@[handle.0]
            }),
            !r ==> final(self).handles@ == old(self).handles@,
    {
        let info = match self.handles.get(&handle.0) {
            Some(i) => *i,
            None => {
                return false;
            },
        };
        match advance_state(info.state, event) {
            Some(s) => {
                self.handles.insert(handle.0, LoadHandleInfo { state: s, ..info });
                true
            },
            None => false,
        }
    }

    /// Starts loading a new version of a loaded or committed artifact beside the visible one.
    pub fn begin_reload(&mut self, handle: LoadHandle) -> (r: bool)
        requires
            old(self).wf(),
        ensures
            final(self).wf(),
            versions_monotone(old(self).handles@, final(self).handles@),
            final(self).by_artifact@ == old(self).by_artifact@,
            final(self).indirection@ == old(self).indirection@,
            r <==> old(self).handles@.contains_key(handle.0) && old(self).handles@[handle.0].refcount > 0
                && old(self).handles@[handle.0].pending_version < u32::MAX
                && (old(self).handles@[handle.0].state == LoadState::Committed || old(self).handles@[handle.0].state == LoadState::Loaded),
            r ==> final(self).handles@ == old(self).handles@.insert(handle.0, LoadHandleInfo {
                state: LoadState::WaitingForMetadata,
                pending_version: (old(self).handles@[handle.0].pending_version + 1) as u32,
                ..old(self).handles@[handle.0]
            }),
            !r ==> final(self).handles@ == old(self).handles@,
    {
        let info = match self.handles.get(&handle.0) {
            Some(i) => *i,
            None => {
                return false;
            },
        };
        if info.refcount == 0 || info.pending_version == u32::MAX {
            return false;
        }
        match info.state {
            LoadState::Committed | LoadState::Loaded => {},
            _ => {
                return false;
            },
        }
        self.handles.insert(handle.0, LoadHandleInfo {
            state: LoadState::WaitingForMetadata,
            pending_version: info.pending_version + 1,
            ..info
        });
        true
    }

    /// True when every handle of `group` has a loaded, uncommitted version.
    fn group_ready(&self, group: &[LoadHandle]) -> (r: bool)
        ensures
            r == forall|j: int| 0 <= j < group@.len() ==> self.handles@.contains_key(#[trigger] group@[j].0)
                && self.handles@[group@[j].0].state == LoadState::Loaded,
    {
        let mut i: usize = 0;
        while i < group.len()
            invariant
                0 <= i <= group@.len(),
                forall|j: int| 0 <= j < i ==> self.handles@.contains_key(#[trigger] group@[j].0)
                    && self.handles@[group@[j].0].state == LoadState::Loaded,
            decreases group@.len() - i,
        {
            match self.handles.get(&group[i].0) {
                Some(info) => {
                    if info.state != LoadState::Loaded {
                        return false;
                    }
                },
                None => {
                    return false;
                },
            }
            i = i + 1;
        }
        true
    }

    /// True when every dependency has reached `Loaded` or `Committed`, so a load waiting for its
    /// dependencies may go on.
    pub fn dependencies_loaded(&self, dependencies: &[LoadHandle]) -> (r: bool)
        ensures
            r == forall|j: int| 0 <= j < dependencies@.len() ==> self.handles@.contains_key(#[trigger] dependencies@[j].0)
                && (self.handles@[dependencies@[j].0].state == LoadState::Loaded
                    || self.handles@[dependencies@[j].0].state == LoadState::Committed),
    {
        let mut i: usize = 0;
        while i < dependencies.len()
            invariant
                0 <= i <= dependencies@.len(),
                forall|j: int| 0 <= j < i ==> self.handles@.contains_key(#[trigger] dependencies@[j].0)
                    && (self.handles@[dependencies@[j].0].state == LoadState::Loaded
                        || self.handles@[dependencies@[j].0].state == LoadState::Committed),
            decreases dependencies@.len() - i,
        {
            match self.handles.get(&dependencies[i].0) {
                Some(info) => {
                    if info.state != LoadState::Loaded && info.state != LoadState::Committed {
                        return false;
                    }
                },
                None => {
                    return false;
                },
            }
            i = i + 1;
        }
        true
    }

    /// Commits a reload group: when every handle of `group` has reached `Loaded`, all of them
    /// make their newest version visible at once; otherwise nothing changes.
    pub fn commit_reload_group(&mut self, group: &[LoadHandle]) -> (r: bool)
        requires
            old(self).wf(),
        ensures
            final(self).wf(),
            versions_monotone(old(self).handles@, final(self).handles@),
            final(self).by_artifact@ == old(self).by_artifact@,
            final(self).indirection@ == old(self).indirection@,
            r == forall|j: int| 0 <= j < group@.len() ==> old(self).handles@.contains_key(#[trigger] group@[j].0)
                && old(self).handles@[group@[j].0].state == LoadState::Loaded,
            !r ==> final(self).handles@ == old(self).handles@,
            r ==> final(self).handles@.dom() == old(self).handles@.dom(),
            r ==> forall|j: int| 0 <= j < group@.len() ==> #[trigger] final(self).handles@[group@[j].0] == (LoadHandleInfo {
                state: LoadState::Committed,
                committed_version: old(self).handles@[group@[j].0].pending_version,
                ..old(self).handles@[group@[j].0]
            }),
            r ==> forall|h: u64| #[trigger] old(self).handles@.contains_key(h)
                && (forall|j: int| 0 <= j < group@.len() ==> group@[j].0 != h)
                ==> final(self).handles@[h] == old(self).handles@[h],
    {
        if !self.group_ready(group) {
            return false;
        }
        let ghost old_handles = self.handles@;
        let mut i: usize = 0;
        while i < group.len()
            invariant
                0 <= i <= group@.len(),
                self.wf(),
                forall|j: int| 0 <= j < group@.len() ==> old_handles.contains_key(#[trigger] group@[j].0)
                    && old_handles[group@[j].0].state == LoadState::Loaded,
                self.handles@.dom() == old_handles.dom(),
                versions_monotone(old_handles, self.handles@),
                self.by_artifact@ == old(self).by_artifact@,
                self.indirection@ == old(self).indirection@,
                old_handles == old(self).handles@,
                forall|j: int| 0 <= j < i ==> #[trigger] self.handles@[group@[j].0] == (LoadHandleInfo {
                    state: LoadState::Committed,
                    committed_version: old_handles[group@[j].0].pending_version,
                    ..old_handles[group@[j].0]
                }),
                forall|j: int| i <= j < group@.len() ==> #[trigger] self.handles@[group@[j].0] == old_handles[group@[j].0]
                    || (exists|m: int| 0 <= m < i && group@[m].0 == group@[j].0),
                forall|h: u64| #[trigger] old_handles.contains_key(h)
                    && (forall|j: int| 0 <= j < group@.len() ==> group@[j].0 != h)
                    ==> self.handles@[h] == old_handles[h],
            decreases group@.len() - i,
        {
            let h = group[i].0;
            let info = match self.handles.get(&h) {
                Some(x) => *x,
                None => {
                    proof {
                        assert(old_handles.contains_key(group@[i as int].0));
                    }
                    return true;
                },
            };
            let ghost orig = old_handles[h];
            proof {
                if exists|m: int| 0 <= m < i && group@[m].0 == h {
                    let m = choose|m: int| 0 <= m < i && group@[m].0 == h;
                    assert(self.handles@[group@[m].0] == self.handles@[h]);
                } else {
                    assert(self.handles@[group@[i as int].0] == old_handles[group@[i as int].0]);
                }
            }
            let new_info = LoadHandleInfo {
                state: LoadState::Committed,
                committed_version: info.pending_version,
                ..info
            };
            assert(new_info == (LoadHandleInfo { state: LoadState::Committed, committed_version: orig.pending_version, ..orig }));
            self.handles.insert(h, new_info);
            proof {
                assert forall|j: int| 0 <= j < i + 1 implies #[trigger] self.handles@[group@[j].0] == (LoadHandleInfo {
                    state: LoadState::Committed,
                    committed_version: old_handles[group@[j].0].pending_version,
                    ..old_handles[group@[j].0]
                }) by {
                    if j < i && group@[j].0 != h {
                    }
                }
                assert forall|j: int| i + 1 <= j < group@.len() implies #[trigger] self.handles@[group@[j].0] == old_handles[group@[j].0]
                    || (exists|m: int| 0 <= m < i + 1 && group@[m].0 == group@[j].0) by {
                    if group@[j].0 == h {
                        assert(group@[i as int].0 == group@[j].0);
                    }
                }
            }
            i = i + 1;
        }
        true
    }

    /// Makes an indirect handle bound to the artifact's direct handle, adding a reference to it.
    pub fn add_ref_indirect(&mut self, indirect_counter: u64, artifact_id: ArtifactId) -> (r: Option<LoadHandle>)
        requires
            old(self).wf(),
        ensures
            final(self).wf(),
            versions_monotone(old(self).handles@, final(self).handles@),
            r matches Some(ih) ==> top_bit_set(ih.0) && ih.0 == (indirect_counter | INDIRECT_BIT)
                && final(self).indirection@.contains_key(ih.0)
                && final(self).handles@[final(self).indirection@[ih.0]].artifact_id == artifact_id,
            old(self).indirection@.contains_key(indirect_counter | INDIRECT_BIT) ==> r is None,
            !old(self).indirection@.contains_key(indirect_counter | INDIRECT_BIT) ==> (r is Some <==> (
                if old(self).by_artifact@.contains_key(artifact_id.0) {
                    old(self).handles@[old(self).by_artifact@[artifact_id.0]].refcount < u64::MAX
                } else {
                    old(self).next_handle < INDIRECT_BIT
                })),
            r is None ==> final(self).handles@ == old(self).handles@ && final(self).indirection@ == old(self).indirection@,
    {
        let ih = LoadHandle::new(indirect_counter, true);
        if self.indirection.contains(ih.0) {
            return None;
        }
        match self.add_ref(artifact_id) {
            Some(h) => {
                self.indirection.bind(ih.0, h.0);
                Some(ih)
            },
            None => None,
        }
    }

    /// The direct handle that an indirect handle is bound to now.
    pub fn resolve(&self, indirect_handle: LoadHandle) -> (r: Option<LoadHandle>)
        ensures
            r matches Some(h) ==> self.indirection@.contains_key(indirect_handle.0) && self.indirection@[indirect_handle.0] == h.0,
            r is None <==> !self.indirection@.contains_key(indirect_handle.0),
    {
        self.indirection.resolve(indirect_handle)
    }

    /// Rebinds an indirect handle to another artifact: the new target gains a reference before
    /// the old one loses its.
    pub fn rebind_indirect(&mut self, indirect_handle: LoadHandle, artifact_id: ArtifactId) -> (r: Option<LoadHandle>)
        requires
            old(self).wf(),
        ensures
            final(self).wf(),
            versions_monotone(old(self).handles@, final(self).handles@),
            r is None ==> final(self).handles@ == old(self).handles@ && final(self).indirection@ == old(self).indirection@,
            r is Some <==> old(self).indirection@.contains_key(indirect_handle.0) && (
                if old(self).by_artifact@.contains_key(artifact_id.0) {
                    old(self).handles@[old(self).by_artifact@[artifact_id.0]].refcount < u64::MAX
                } else {
                    old(self).next_handle < INDIRECT_BIT
                }),
            r matches Some(h) ==> old(self).indirection@.contains_key(indirect_handle.0)
                && final(self).indirection@ == old(self).indirection@.insert(indirect_handle.0, h.0)
                && final(self).handles@[h.0].artifact_id == artifact_id,
            r matches Some(h) ==> ({
                let old_h = old(self).indirection@[indirect_handle.0];
                &&& old_h != h.0 && old(self).handles@.contains_key(h.0) ==> final(self).handles@[h.0].refcount == old(self).handles@[h.0].refcount + 1
                &&& old_h != h.0 && !old(self).handles@.contains_key(h.0) ==> final(self).handles@[h.0].refcount == 1
                &&& old_h != h.0 && old(self).handles@[old_h].refcount > 0 ==> final(self).handles@[old_h].refcount == old(self).handles@[old_h].refcount - 1
                &&& old_h == h.0 ==> final(self).handles@[h.0].refcount == old(self).handles@[h.0].refcount
            }),
    {
        let old_h = match self.indirection.resolve(indirect_handle) {
            Some(h) => h.0,
            None => {
                return None;
            },
        };
        let ghost before = self.handles@;
        let new_h = match self.add_ref(artifact_id) {
            Some(h) => h,
            None => {
                return None;
            },
        };
        let ghost mid = self.handles@;
        self.remove_ref(LoadHandle(old_h));
        self.indirection.bind(indirect_handle.0, new_h.0);
        proof {
            assert(before.contains_key(old_h));
            if old_h == new_h.0 {
                assert(mid[old_h].refcount == before[old_h].refcount + 1);
            }
        }
        Some(new_h)
    }
}

} // verus!
