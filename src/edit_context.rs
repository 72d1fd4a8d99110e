use vstd::prelude::*;
use crate::ids::AssetId;
use crate::error::{DataSetError, DataSetResult};
use crate::data_set::{DataSet, DataObjectInfo, NullOverride, same_contents, override_written, null_override_written};
use crate::path::split_dots;
use crate::schema_set::SchemaSet;
use crate::value::Value;

verus! {

broadcast use vstd::std_specs::hash::group_hash_axioms;

/// The state of one asset kept for undo: its contents, or `None` when it did not exist.
pub type Snapshot = (AssetId, Option<DataObjectInfo>);

/// True when asset `id` of `objs` is as `snap` recorded it.
pub open spec fn matches_snapshot(objs: Map<u128, DataObjectInfo>, id: u128, snap: Option<DataObjectInfo>) -> bool {
    match snap {
        None => !objs.contains_key(id),
        Some(o) => objs.contains_key(id) && same_contents(objs[id], o),
    }
}

/// True when no two snapshots are of the same asset.
pub open spec fn snapshot_ids_unique(s: Seq<Snapshot>) -> bool {
    forall|i: int, j: int| 0 <= i < s.len() && 0 <= j < s.len() && i != j ==> #[trigger] s[i].0 != #[trigger] s[j].0
}

/// True when some snapshot is of asset `id`.
pub open spec fn has_snapshot(s: Seq<Snapshot>, id: u128) -> bool {
    exists|i: int| 0 <= i < s.len() && #[trigger] s[i].0.0 == id
}

/// `new` is `old` with every snapshot of `s` put back and every other asset unchanged.
pub open spec fn restored(old: Map<u128, DataObjectInfo>, new: Map<u128, DataObjectInfo>, s: Seq<Snapshot>) -> bool {
    &&& forall|i: int| 0 <= i < s.len() ==> #[trigger] matches_snapshot(new, s[i].0.0, s[i].1)
    &&& unchanged_outside(old, new, s)
}

/// Every asset that `s` has no snapshot of is the same in `a` and `b`.
pub open spec fn unchanged_outside(a: Map<u128, DataObjectInfo>, b: Map<u128, DataObjectInfo>, s: Seq<Snapshot>) -> bool {
    forall|k: u128| !has_snapshot(s, k) ==> (#[trigger] b.contains_key(k) == a.contains_key(k))
        && (a.contains_key(k) ==> b[k] == a[k])
}

/// The contents of asset `id` now.
fn snapshot_of(ds: &DataSet, id: AssetId) -> (r: Option<DataObjectInfo>)
    ensures
        matches_snapshot(ds.objects@, id.0, r),
{
    match ds.objects.get(&id.0) {
        Some(o) => Some(o.duplicate()),
        None => None,
    }
}

/// Puts every snapshot of `snaps` back into `ds`.
fn restore(ds: &mut DataSet, snaps: &Vec<Snapshot>)
    requires
        snapshot_ids_unique(snaps@),
    ensures
        restored(old(ds).objects@, final(ds).objects@, snaps@),
{
    let ghost start = ds.objects@;
    let mut i: usize = 0;
    proof {
        assert forall|k: u128| !has_snapshot(snaps@.take(0), k) implies (#[trigger] ds.objects@.contains_key(k) == start.contains_key(k))
            && (start.contains_key(k) ==> ds.objects@[k] == start[k]) by {}
    }
    while i < snaps.len()
        invariant
            0 <= i <= snaps@.len(),
            snapshot_ids_unique(snaps@),
            forall|j: int| 0 <= j < i ==> #[trigger] matches_snapshot(ds.objects@, snaps@[j].0.0, snaps@[j].1),
            unchanged_outside(start, ds.objects@, snaps@.take(i as int)),
        decreases snaps@.len() - i,
    {
        let id = snaps[i].0;
        let ghost before = ds.objects@;
        match &snaps[i].1 {
            Some(o) => {
                let c = o.duplicate();
                ds.objects.insert(id.0, c);
            },
            None => {
                ds.objects.remove(&id.0);
            },
        }
        proof {
            assert forall|j: int| 0 <= j < i + 1 implies #[trigger] matches_snapshot(ds.objects@, snaps@[j].0.0, snaps@[j].1) by {
                if j < i {
                    assert(snaps@[j].0 != snaps@[i as int].0);
                    assert(matches_snapshot(before, snaps@[j].0.0, snaps@[j].1));
                }
            }
            let t1 = snaps@.take(i as int + 1);
            let t0 = snaps@.take(i as int);
            assert forall|k: u128| !has_snapshot(t1, k)
                implies (#[trigger] ds.objects@.contains_key(k) == start.contains_key(k))
                && (start.contains_key(k) ==> ds.objects@[k] == start[k]) by {
                assert(t1[i as int].0.0 == snaps@[i as int].0.0);
                assert(snaps@[i as int].0.0 != k);
                assert forall|j: int| 0 <= j < t0.len() implies #[trigger] t0[j].0.0 != k by {
                    assert(t0[j] == t1[j]);
                }
                assert(!has_snapshot(t0, k));
                assert(before.contains_key(k) == start.contains_key(k));
                assert(ds.objects@.contains_key(k) == before.contains_key(k));
                if start.contains_key(k) {
                    assert(ds.objects@[k] == before[k]);
                }
            }
        }
        i = i + 1;
    }
    proof {
        assert(snaps@.take(snaps@.len() as int) =~= snaps@);
    }
}

/// Snapshots of the current contents of the assets that `snaps` covers, in the same order.
fn snapshots_now(ds: &DataSet, snaps: &Vec<Snapshot>) -> (r: Vec<Snapshot>)
    requires
        snapshot_ids_unique(snaps@),
    ensures
        snapshot_ids_unique(r@),
        r@.len() == snaps@.len(),
        forall|i: int| 0 <= i < r@.len() ==> #[trigger] r@[i].0 == snaps@[i].0,
        forall|i: int| 0 <= i < r@.len() ==> #[trigger] matches_snapshot(ds.objects@, r@[i].0.0, r@[i].1),
{
    let mut r: Vec<Snapshot> = Vec::new();
    let mut i: usize = 0;
    while i < snaps.len()
        invariant
            0 <= i <= snaps@.len(),
            snapshot_ids_unique(snaps@),
            r@.len() == i,
            forall|j: int| 0 <= j < i ==> #[trigger] r@[j].0 == snaps@[j].0,
            forall|j: int| 0 <= j < i ==> #[trigger] matches_snapshot(ds.objects@, r@[j].0.0, r@[j].1),
        decreases snaps@.len() - i,
    {
        let id = snaps[i].0;
        let s = snapshot_of(ds, id);
        r.push((id, s));
        i = i + 1;
    }
    proof {
        assert forall|a: int, b: int| 0 <= a < r@.len() && 0 <= b < r@.len() && a != b implies #[trigger] r@[a].0 != #[trigger] r@[b].0 by {
            assert(snaps@[a].0 != snaps@[b].0);
        }
    }
    r
}

/// One undoable step: the assets it touched, as they were before and after.
pub struct UndoEntry {
    pub before: Vec<Snapshot>,
    pub after: Vec<Snapshot>,
}

/// A data set under editing: it tracks which assets changed and groups changes into undoable
/// steps.
pub struct EditContext {
    pub data_set: DataSet,
    pub schema_set: SchemaSet,
    /// Assets changed since tracking was last cleared.
    pub modified_assets: Vec<AssetId>,
    /// Assets changed in the step being built, as they were before it.
    pub pending: Vec<Snapshot>,
    pub undo_stack: Vec<UndoEntry>,
    pub redo_stack: Vec<UndoEntry>,
}

impl EditContext {
    /// Snapshot lists hold each asset once.
    pub open spec fn wf(&self) -> bool {
        &&& snapshot_ids_unique(self.pending@)
        &&& forall|i: int| 0 <= i < self.undo_stack@.len() ==> snapshot_ids_unique((#[trigger] self.undo_stack@[i]).before@)
            && snapshot_ids_unique(self.undo_stack@[i].after@)
        &&& forall|i: int| 0 <= i < self.redo_stack@.len() ==> snapshot_ids_unique((#[trigger] self.redo_stack@[i]).before@)
            && snapshot_ids_unique(self.redo_stack@[i].after@)
    }

    pub fn new(data_set: DataSet, schema_set: SchemaSet) -> (r: Self)
        ensures
            r.wf(),
            r.data_set == data_set,
            r.pending@.len() == 0,
            r.modified_assets@.len() == 0,
            r.undo_stack@.len() == 0,
            r.redo_stack@.len() == 0,
    {
        EditContext {
            data_set,
            schema_set,
            modified_assets: Vec::new(),
            pending: Vec::new(),
            undo_stack: Vec::new(),
            redo_stack: Vec::new(),
        }
    }

    /// Records that asset `id` is about to change.
    fn track(&mut self, id: AssetId)
        requires
            old(self).wf(),
        ensures
            final(self).wf(),
            final(self).data_set == old(self).data_set,
            final(self).schema_set == old(self).schema_set,
            final(self).undo_stack == old(self).undo_stack,
            final(self).redo_stack == old(self).redo_stack,
            has_snapshot(final(self).pending@, id.0),
            has_snapshot(old(self).pending@, id.0) ==> final(self).pending == old(self).pending,
            !has_snapshot(old(self).pending@, id.0) ==> final(self).pending@.len() == old(self).pending@.len() + 1
                && final(self).pending@.drop_last() == old(self).pending@
                && final(self).pending@.last().0 == id
                && matches_snapshot(old(self).data_set.objects@, id.0, final(self).pending@.last().1),
            final(self).modified_assets@.contains(id),
    {
        let mut found = false;
        let mut i: usize = 0;
        while i < self.pending.len()
            invariant
                0 <= i <= self.pending@.len(),
                found == exists|j: int| 0 <= j < i && #[trigger] self.pending@[j].0.0 == id.0,
            decreases self.pending@.len() - i,
        {
            if self.pending[i].0.0 == id.0 {
                found = true;
            }
            i = i + 1;
        }
        if !found {
            let s = snapshot_of(&self.data_set, id);
            let ghost old_pending = self.pending@;
            self.pending.push((id, s));
            proof {
                assert(self.pending@.drop_last() =~= old_pending);
                assert(self.pending@[old_pending.len() as int].0.0 == id.0);
                assert forall|a: int, b: int| 0 <= a < self.pending@.len() && 0 <= b < self.pending@.len() && a != b
                    implies #[trigger] self.pending@[a].0 != #[trigger] self.pending@[b].0 by {
                    if a < old_pending.len() && b < old_pending.len() {
                        assert(old_pending[a].0 != old_pending[b].0);
                    } else if a == old_pending.len() {
                        assert(self.pending@[b].0.0 != id.0);
                    } else {
                        assert(self.pending@[a].0.0 != id.0);
                    }
                }
            }
        }
        let mut k: usize = 0;
        let mut known = false;
        while k < self.modified_assets.len()
            invariant
                0 <= k <= self.modified_assets@.len(),
                known ==> self.modified_assets@.contains(id),
            decreases self.modified_assets@.len() - k,
        {
            if self.modified_assets[k].0 == id.0 {
                assert(self.modified_assets@[k as int] == id);
                known = true;
            }
            k = k + 1;
        }
        if !known {
            self.modified_assets.push(id);
            assert(self.modified_assets@.last() == id);
        }
    }

    /// Writes an override, recording the asset's prior state in the pending step.
    pub fn set_property_override(&mut self, object_id: AssetId, path: &str, value: Option<Value>) -> (r: DataSetResult<Option<Value>>)
        requires
            old(self).wf(),
        ensures
            final(self).wf(),
            override_written(old(self).data_set.objects@, final(self).data_set.objects@, object_id.0,
                split_dots(path@), old(self).schema_set.named_types@, value, r),
            has_snapshot(final(self).pending@, object_id.0),
            final(self).undo_stack == old(self).undo_stack,
    {
        self.track(object_id);
        self.data_set.set_property_override(&self.schema_set, object_id, path, value)
    }

    /// Sets a null override, recording the asset's prior state in the pending step.
    pub fn set_null_override(&mut self, object_id: AssetId, path: &str, null_override: NullOverride) -> (r: DataSetResult<()>)
        requires
            old(self).wf(),
        ensures
            final(self).wf(),
            null_override_written(old(self).data_set.objects@, final(self).data_set.objects@, object_id.0,
                split_dots(path@), old(self).schema_set.named_types@, null_override, r),
            has_snapshot(final(self).pending@, object_id.0),
            final(self).undo_stack == old(self).undo_stack,
    {
        self.track(object_id);
        self.data_set.set_null_override(&self.schema_set, object_id, path, null_override)
    }

    /// Deletes an asset, recording its prior state in the pending step.
    pub fn delete_object(&mut self, object_id: AssetId)
        requires
            old(self).wf(),
        ensures
            final(self).wf(),
            final(self).data_set.objects@ == old(self).data_set.objects@.remove(object_id.0),
            has_snapshot(final(self).pending@, object_id.0),
    {
        self.track(object_id);
        self.data_set.delete_object(object_id);
    }

    /// Closes the pending step and pushes it on the undo stack; nothing happens when it is empty.
    pub fn commit_pending_undo_context(&mut self)
        requires
            old(self).wf(),
        ensures
            final(self).wf(),
            final(self).data_set == old(self).data_set,
            final(self).pending@.len() == 0,
            old(self).pending@.len() == 0 ==> final(self).undo_stack@ == old(self).undo_stack@,
            old(self).pending@.len() > 0 ==> final(self).undo_stack@.len() == old(self).undo_stack@.len() + 1
                && final(self).undo_stack@.drop_last() == old(self).undo_stack@
                && final(self).undo_stack@.last().before@ == old(self).pending@
                && final(self).redo_stack@.len() == 0,
    {
        if self.pending.len() == 0 {
            return;
        }
        let after = snapshots_now(&self.data_set, &self.pending);
        let mut before: Vec<Snapshot> = Vec::new();
        std::mem::swap(&mut before, &mut self.pending);
        let ghost old_undo = self.undo_stack@;
        self.undo_stack.push(UndoEntry { before, after });
        self.redo_stack = Vec::new();
        proof {
            assert(self.undo_stack@.drop_last() =~= old_undo);
            assert forall|i: int| 0 <= i < self.undo_stack@.len() implies snapshot_ids_unique((#[trigger] self.undo_stack@[i]).before@)
                && snapshot_ids_unique(self.undo_stack@[i].after@) by {
                if i < old_undo.len() {
                    assert(self.undo_stack@[i] == old_undo[i]);
                }
            }
        }
    }

    /// Rolls the pending step back: every asset it touched is restored.
    pub fn cancel_pending_undo_context(&mut self)
        requires
            old(self).wf(),
        ensures
            final(self).wf(),
            final(self).pending@.len() == 0,
            restored(old(self).data_set.objects@, final(self).data_set.objects@, old(self).pending@),
            final(self).undo_stack == old(self).undo_stack,
    {
        let mut pending: Vec<Snapshot> = Vec::new();
        std::mem::swap(&mut pending, &mut self.pending);
        restore(&mut self.data_set, &pending);
    }

    /// Undoes the newest step (after closing the pending one); false when there is none.
    pub fn undo(&mut self) -> (r: bool)
        requires
            old(self).wf(),
        ensures
            final(self).wf(),
            final(self).pending@.len() == 0,
            old(self).pending@.len() == 0 ==> (r <==> old(self).undo_stack@.len() > 0),
            old(self).pending@.len() == 0 && r ==> final(self).undo_stack@ == old(self).undo_stack@.drop_last()
                && restored(old(self).data_set.objects@, final(self).data_set.objects@, old(self).undo_stack@.last().before@),
            !r ==> final(self).data_set == old(self).data_set || old(self).pending@.len() > 0,
    {
        self.commit_pending_undo_context();
        match self.undo_stack.pop() {
            None => false,
            Some(entry) => {
                restore(&mut self.data_set, &entry.before);
                let ghost old_redo = self.redo_stack@;
                self.redo_stack.push(entry);
                proof {
                    assert forall|i: int| 0 <= i < self.redo_stack@.len() implies snapshot_ids_unique((#[trigger] self.redo_stack@[i]).before@)
                        && snapshot_ids_unique(self.redo_stack@[i].after@) by {
                        if i < old_redo.len() {
                            assert(self.redo_stack@[i] == old_redo[i]);
                        }
                    }
                }
                true
            },
        }
    }

    /// Redoes the newest undone step; false when there is none.
    pub fn redo(&mut self) -> (r: bool)
        requires
            old(self).wf(),
            old(self).pending@.len() == 0,
        ensures
            final(self).wf(),
            r <==> old(self).redo_stack@.len() > 0,
            r ==> final(self).redo_stack@ == old(self).redo_stack@.drop_last()
                && restored(old(self).data_set.objects@, final(self).data_set.objects@, old(self).redo_stack@.last().after@),
            !r ==> final(self).data_set == old(self).data_set,
    {
        match self.redo_stack.pop() {
            None => false,
            Some(entry) => {
                restore(&mut self.data_set, &entry.after);
                let ghost old_undo = self.undo_stack@;
                self.undo_stack.push(entry);
                proof {
                    assert forall|i: int| 0 <= i < self.undo_stack@.len() implies snapshot_ids_unique((#[trigger] self.undo_stack@[i]).before@)
                        && snapshot_ids_unique(self.undo_stack@[i].after@) by {
                        if i < old_undo.len() {
                            assert(self.undo_stack@[i] == old_undo[i]);
                        }
                    }
                }
                true
            },
        }
    }

    /// The assets changed since tracking was last cleared.
    pub fn modified_assets(&self) -> (r: &Vec<AssetId>)
        ensures r == &self.modified_assets,
    {
        &self.modified_assets
    }

    /// Forgets which assets changed, as after a save.
    pub fn clear_change_tracking(&mut self)
        ensures
            final(self).modified_assets@.len() == 0,
            final(self).data_set == old(self).data_set,
            final(self).pending == old(self).pending,
            final(self).undo_stack == old(self).undo_stack,
            final(self).redo_stack == old(self).redo_stack,
    {
        self.modified_assets = Vec::new();
    }
}


/// Persists the assets of one data source: reads them into an edit context and writes the
/// modified ones back. Implemented by storage layouts outside this library.
pub trait DataSource {
    /// Replaces the context's assets of this source with what storage holds, and queues the
    /// imports whose data is stale.
    fn load_from_storage(&mut self, edit_context: &mut EditContext, imports_to_queue: &mut Vec<crate::import::ImportToQueue>);

    /// Writes the context's modified assets of this source to storage.
    fn flush_to_storage(&mut self, edit_context: &mut EditContext);

    /// True when the asset is generated from a source file and not stored on its own.
    fn is_generated_asset(&self, asset_id: AssetId) -> bool;

    /// Makes a generated asset one that is stored on its own.
    fn persist_generated_asset(&mut self, edit_context: &mut EditContext, asset_id: AssetId);
}

} // verus!
