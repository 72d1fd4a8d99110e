use vstd::prelude::*;
use std::collections::HashMap;
use crate::ids::{ArtifactId, ArtifactRef, LoadHandle};
use crate::data_set::vec_contains;

verus! {

broadcast use vstd::std_specs::hash::group_hash_axioms;

/// What serializing handles inside an artifact needs from a loader: load handles for artifact
/// ids and back, and the set of artifacts that the artifact being written refers to.
pub struct DummySerdeContext {
    pub uuid_to_load: HashMap<u128, u64>,
    pub load_to_uuid: HashMap<u64, u128>,
    pub current_serde_dependencies: Vec<u128>,
    pub current_serde_artifact: Option<ArtifactId>,
    pub handle_gen: u64,
}

impl DummySerdeContext {
    /// The two maps are inverse, every handle is below the next one to hand out, and the
    /// recorded dependencies hold no repeats.
    pub open spec fn wf(&self) -> bool {
        &&& forall|a: u128| #[trigger] self.uuid_to_load@.contains_key(a) ==> self.load_to_uuid@.contains_key(self.uuid_to_load@[a])
            && self.load_to_uuid@[self.uuid_to_load@[a]] == a
        &&& forall|h: u64| #[trigger] self.load_to_uuid@.contains_key(h) ==> h < self.handle_gen
            && self.uuid_to_load@.contains_key(self.load_to_uuid@[h]) && self.uuid_to_load@[self.load_to_uuid@[h]] == h
        &&& self.current_serde_dependencies@.no_duplicates()
    }

    pub fn new() -> (r: Self)
        ensures
            r.wf(),
            r.uuid_to_load@ == Map::<u128, u64>::empty(),
            r.current_serde_artifact is None,
            r.current_serde_dependencies@.len() == 0,
    {
        DummySerdeContext {
            uuid_to_load: HashMap::new(),
            load_to_uuid: HashMap::new(),
            current_serde_dependencies: Vec::new(),
            current_serde_artifact: None,
            handle_gen: 1,
        }
    }

    /// The load handle of an artifact, handing out a new one on first use. `None` only when
    /// handle numbers ran out.
    pub fn load_handle(&mut self, artifact_ref: &ArtifactRef) -> (r: Option<LoadHandle>)
        requires
            old(self).wf(),
        ensures
            final(self).wf(),
            final(self).current_serde_dependencies == old(self).current_serde_dependencies,
            final(self).current_serde_artifact == old(self).current_serde_artifact,
            old(self).uuid_to_load@.contains_key(artifact_ref.0.0) ==> r == Some(LoadHandle(old(self).uuid_to_load@[artifact_ref.0.0]))
                && final(self).uuid_to_load@ == old(self).uuid_to_load@,
            !old(self).uuid_to_load@.contains_key(artifact_ref.0.0) && old(self).handle_gen < u64::MAX
                ==> r == Some(LoadHandle(old(self).handle_gen))
                && final(self).uuid_to_load@ == old(self).uuid_to_load@.insert(artifact_ref.0.0, old(self).handle_gen),
            r is None <==> !old(self).uuid_to_load@.contains_key(artifact_ref.0.0) && old(self).handle_gen == u64::MAX,
            r is None ==> final(self).uuid_to_load@ == old(self).uuid_to_load@,
            r matches Some(h) ==> final(self).uuid_to_load@.contains_key(artifact_ref.0.0)
                && final(self).uuid_to_load@[artifact_ref.0.0] == h.0,
    {
        let a = artifact_ref.0.0;
        match self.uuid_to_load.get(&a) {
            Some(h) => Some(LoadHandle(*h)),
            None => {
                if self.handle_gen == u64::MAX {
                    return None;
                }
                let h = self.handle_gen;
                proof {
                    assert(!self.load_to_uuid@.contains_key(h));
                }
                self.uuid_to_load.insert(a, h);
                self.load_to_uuid.insert(h, a);
                self.handle_gen = h + 1;
                proof {
                    assert forall|x: u128| #[trigger] self.uuid_to_load@.contains_key(x) implies self.load_to_uuid@.contains_key(self.uuid_to_load@[x])
                        && self.load_to_uuid@[self.uuid_to_load@[x]] == x by {
                        if x != a {
                            assert(old(self).uuid_to_load@.contains_key(x));
                        }
                    }
                    assert forall|y: u64| #[trigger] self.load_to_uuid@.contains_key(y) implies y < self.handle_gen
                        && self.uuid_to_load@.contains_key(self.load_to_uuid@[y]) && self.uuid_to_load@[self.load_to_uuid@[y]] == y by {
                        if y != h {
                            assert(old(self).load_to_uuid@.contains_key(y));
                        }
                    }
                }
                Some(LoadHandle(h))
            },
        }
    }

    /// The artifact of a load handle. While an artifact is being written, every other non-null
    /// artifact looked up this way is recorded as one of its dependencies.
    pub fn artifact_id(&mut self, load: LoadHandle) -> (r: Option<ArtifactId>)
        requires
            old(self).wf(),
        ensures
            final(self).wf(),
            final(self).uuid_to_load@ == old(self).uuid_to_load@,
            final(self).load_to_uuid@ == old(self).load_to_uuid@,
            final(self).current_serde_artifact == old(self).current_serde_artifact,
            r == (if old(self).load_to_uuid@.contains_key(load.0) { Some(ArtifactId(old(self).load_to_uuid@[load.0])) } else { None }),
            final(self).current_serde_dependencies@ == (match (r, old(self).current_serde_artifact) {
                (Some(a), Some(c)) => if a != c && a.0 != 0 && !old(self).current_serde_dependencies@.contains(a.0) {
                    old(self).current_serde_dependencies@.push(a.0)
                } else {
                    old(self).current_serde_dependencies@
                },
                _ => old(self).current_serde_dependencies@,
            }),
    {
        let a = match self.load_to_uuid.get(&load.0) {
            Some(a) => *a,
            None => {
                return None;
            },
        };
        match self.current_serde_artifact {
            Some(c) => {
                if a != c.0 && a != 0 && !vec_contains(&self.current_serde_dependencies, a) {
                    self.current_serde_dependencies.push(a);
                }
            },
            None => {},
        }
        Some(ArtifactId(a))
    }

    /// Starts recording the dependencies of `artifact`.
    pub fn begin_serialize_artifact(&mut self, artifact: ArtifactId)
        requires
            old(self).wf(),
            old(self).current_serde_artifact is None,
        ensures
            final(self).wf(),
            final(self).current_serde_artifact == Some(artifact),
            final(self).current_serde_dependencies == old(self).current_serde_dependencies,
            final(self).uuid_to_load@ == old(self).uuid_to_load@,
            final(self).load_to_uuid@ == old(self).load_to_uuid@,
    {
        self.current_serde_artifact = Some(artifact);
    }

    /// Stops recording and returns the dependencies recorded.
    pub fn end_serialize_artifact(&mut self) -> (r: Vec<ArtifactRef>)
        requires
            old(self).wf(),
            old(self).current_serde_artifact is Some,
        ensures
            final(self).wf(),
            final(self).current_serde_artifact is None,
            final(self).current_serde_dependencies@.len() == 0,
            r@.len() == old(self).current_serde_dependencies@.len(),
            forall|i: int| 0 <= i < r@.len() ==> #[trigger] r@[i].0.0 == old(self).current_serde_dependencies@[i],
            final(self).uuid_to_load@ == old(self).uuid_to_load@,
            final(self).load_to_uuid@ == old(self).load_to_uuid@,
    {
        self.current_serde_artifact = None;
        let mut deps: Vec<u128> = Vec::new();
        std::mem::swap(&mut deps, &mut self.current_serde_dependencies);
        let mut r: Vec<ArtifactRef> = Vec::new();
        let mut i: usize = 0;
        while i < deps.len()
            invariant
                0 <= i <= deps@.len(),
                r@.len() == i,
                forall|j: int| 0 <= j < i ==> #[trigger] r@[j].0.0 == deps@[j],
            decreases deps@.len() - i,
        {
            r.push(ArtifactRef(ArtifactId(deps[i])));
            i = i + 1;
        }
        r
    }
}


/// Maps between artifact ids and load handles, for the serialization of handles; implemented
/// by loaders outside this library.
pub trait LoaderInfoProvider {
    /// The load handle of the artifact, if one is known.
    fn load_handle(&mut self, artifact_ref: &ArtifactRef) -> Option<LoadHandle>;

    /// The artifact of a load handle, if one is known.
    fn artifact_id(&mut self, load: LoadHandle) -> Option<ArtifactId>;
}

impl DummySerdeContext {
    /// Makes the handle of `artifact_ref` answer for `artifact` too.
    pub fn resolve_ref(&mut self, artifact_ref: &ArtifactRef, artifact: ArtifactId) -> (r: bool)
        requires
            old(self).wf(),
            !old(self).uuid_to_load@.contains_key(artifact.0) || artifact.0 == artifact_ref.0.0,
        ensures
            final(self).current_serde_dependencies == old(self).current_serde_dependencies,
            final(self).current_serde_artifact == old(self).current_serde_artifact,
            r <==> old(self).uuid_to_load@.contains_key(artifact_ref.0.0),
            !r ==> final(self).uuid_to_load@ == old(self).uuid_to_load@,
            r ==> final(self).uuid_to_load@ == old(self).uuid_to_load@.insert(artifact.0, old(self).uuid_to_load@[artifact_ref.0.0])
                && final(self).load_to_uuid@ == old(self).load_to_uuid@.insert(old(self).uuid_to_load@[artifact_ref.0.0], artifact.0),
    {
        match self.uuid_to_load.get(&artifact_ref.0.0) {
            Some(h) => {
                let h = *h;
                self.load_to_uuid.insert(h, artifact.0);
                self.uuid_to_load.insert(artifact.0, h);
                true
            },
            None => false,
        }
    }
}

/// A strong handle to `artifact`, through the serialization context's load handles.
pub fn make_handle_within_serde_context<T>(ctx: &mut DummySerdeContext, artifact: ArtifactId) -> (r: Option<crate::loader::Handle<T>>)
    requires
        old(ctx).wf(),
    ensures
        final(ctx).wf(),
        r is Some <==> old(ctx).uuid_to_load@.contains_key(artifact.0) || old(ctx).handle_gen < u64::MAX,
        old(ctx).uuid_to_load@.contains_key(artifact.0) ==> final(ctx).uuid_to_load@ == old(ctx).uuid_to_load@,
        r matches Some(h) ==> final(ctx).uuid_to_load@.contains_key(artifact.0)
            && h.handle_ref.id.0 == final(ctx).uuid_to_load@[artifact.0]
            && h.handle_ref.ref_type == crate::loader::HandleRefType::Strong,
{
    match ctx.load_handle(&ArtifactRef(artifact)) {
        Some(h) => Some(crate::loader::Handle::new(h)),
        None => None,
    }
}


/// 256 to the power `n`.
pub open spec fn pow256(n: nat) -> nat
    decreases n,
{
    if n == 0 { 1 } else { 256 * pow256((n - 1) as nat) }
}

/// The big-endian value of a byte string.
pub open spec fn be_value(b: Seq<u8>) -> nat
    decreases b.len(),
{
    if b.len() == 0 { 0 } else { be_value(b.drop_last()) * 256 + b.last() as nat }
}

proof fn lemma_be_value_bound(b: Seq<u8>)
    ensures
        be_value(b) < pow256(b.len()),
    decreases b.len(),
{
    if b.len() > 0 {
        lemma_be_value_bound(b.drop_last());
        let v = be_value(b.drop_last());
        let p = pow256(b.drop_last().len());
        let d = b.last() as nat;
        assert(v * 256 + d < p * 256) by (nonlinear_arith)
            requires v < p, d < 256;
    }
}

/// Reads an artifact reference from its wire form inside serialized artifacts: exactly sixteen
/// bytes, the artifact id in big-endian order.
pub fn artifact_ref_from_bytes(v: &[u8]) -> (r: Option<ArtifactRef>)
    ensures
        r is Some <==> v@.len() == 16,
        r matches Some(a) ==> a.0.0 == be_value(v@),
{
    if v.len() != 16 {
        return None;
    }
    let mut acc: u128 = 0;
    let mut i: usize = 0;
    proof {
        reveal_with_fuel(pow256, 17);
        assert(pow256(16) == 0x1_0000_0000_0000_0000_0000_0000_0000_0000nat);
        assert(v@.take(0) =~= Seq::<u8>::empty());
    }
    while i < 16
        invariant
            v@.len() == 16,
            0 <= i <= 16,
            acc == be_value(v@.take(i as int)),
            pow256(16) == 0x1_0000_0000_0000_0000_0000_0000_0000_0000nat,
        decreases 16 - i,
    {
        proof {
            lemma_be_value_bound(v@.take(i as int));
            lemma_pow256_mono(i as nat, 15);
            let p = pow256(i as nat);
            let q = pow256(15);
            assert(pow256(16) == 256 * q);
            let a = acc as nat;
            let d = v@[i as int] as nat;
            assert(a * 256 + d < 256 * q) by (nonlinear_arith)
                requires a < p, p <= q, d < 256;
            assert(v@.take(i as int + 1).drop_last() =~= v@.take(i as int));
            assert(v@.take(i as int + 1).last() == v@[i as int]);
        }
        acc = acc * 256 + v[i] as u128;
        i = i + 1;
    }
    assert(v@.take(16) =~= v@);
    Some(ArtifactRef(ArtifactId(acc)))
}

proof fn lemma_pow256_mono(a: nat, b: nat)
    requires
        a <= b,
    ensures
        pow256(a) <= pow256(b),
    decreases b - a,
{
    if a < b {
        lemma_pow256_mono(a, (b - 1) as nat);
        assert(pow256(b) == 256 * pow256((b - 1) as nat));
    }
}

/// The load handle that a deserialized handle to `artifact_ref` gets: handle 0 for the null
/// artifact, else the context's handle for it; `None` when the context knows none.
pub fn get_handle_ref(ctx: &DummySerdeContext, artifact_ref: ArtifactRef) -> (r: Option<LoadHandle>)
    ensures
        artifact_ref.0.0 == 0 ==> r == Some(LoadHandle(0)),
        artifact_ref.0.0 != 0 ==> (r is Some <==> ctx.uuid_to_load@.contains_key(artifact_ref.0.0)),
        artifact_ref.0.0 != 0 ==> (r matches Some(h) ==> h.0 == ctx.uuid_to_load@[artifact_ref.0.0]),
{
    if artifact_ref.0.0 == 0 {
        return Some(LoadHandle(0));
    }
    match ctx.uuid_to_load.get(&artifact_ref.0.0) {
        Some(h) => Some(LoadHandle(*h)),
        None => None,
    }
}

} // verus!
