use vstd::prelude::*;
use siphasher::sip128::Hasher128;
use crate::ids::{ArtifactId, AssetId, AssetTypeId};
use crate::artifact::{create_artifact_id, artifact_id_for, key_view};
use crate::serde_context::DummySerdeContext;

verus! {

/// A job to run: its type, the hash of its input, and the input's bytes.
#[derive(Clone, Debug)]
pub struct NewJob {
    pub job_type: u128,
    pub input_hash: u128,
    pub input_data: Vec<u8>,
}

/// What a job reads: the import data of these assets, and the outputs of these upstream jobs.
#[derive(Clone, Debug, Default)]
pub struct JobEnumeratedDependencies {
    pub import_data: Vec<AssetId>,
    pub upstream_jobs: Vec<u128>,
}

/// The 128-bit SipHash of a job type followed by the job's input bytes.
pub uninterp spec fn sip128_of_job(job_type: u128, input: Seq<u8>) -> u128;

/// Relies on `siphasher::sip128::SipHasher` (default keys) fed through `std::hash::Hash` with
/// the job type and then the input bytes; the result depends on those alone.
#[verifier::external_body]
fn hash_job(job_type: u128, input: &[u8]) -> (r: u128)
    ensures
        r == sip128_of_job(job_type, input@),
{
    let mut hasher = siphasher::sip128::SipHasher::default();
    std::hash::Hash::hash(&job_type, &mut hasher);
    std::hash::Hash::hash(input, &mut hasher);
    hasher.finish128().as_u128()
}

/// The 128-bit SipHash of what a job's cache entry depends on: the input hash, the job's
/// version, the upstream job ids in order, and the contents hashes of the import data read, in
/// order.
pub uninterp spec fn sip128_of_signature(input_hash: u128, version: u32, upstream: Seq<u128>, import_hashes: Seq<u64>) -> u128;

/// Relies on `siphasher::sip128::SipHasher` (default keys) fed through `std::hash::Hash` with
/// the four parts in order; the result depends on them alone.
#[verifier::external_body]
fn hash_signature(input_hash: u128, version: u32, upstream: &[u128], import_hashes: &[u64]) -> (r: u128)
    ensures
        r == sip128_of_signature(input_hash, version, upstream@, import_hashes@),
{
    let mut hasher = siphasher::sip128::SipHasher::default();
    std::hash::Hash::hash(&input_hash, &mut hasher);
    std::hash::Hash::hash(&version, &mut hasher);
    std::hash::Hash::hash(upstream, &mut hasher);
    std::hash::Hash::hash(import_hashes, &mut hasher);
    hasher.finish128().as_u128()
}

/// The id of a job: the hash of its type and its input bytes.
pub fn job_id_of(job: &NewJob) -> (r: u128)
    ensures
        r == sip128_of_job(job.job_type, job.input_data@),
{
    hash_job(job.job_type, job.input_data.as_slice())
}

/// The dependency signature of a run.
pub fn dependency_signature(input_hash: u128, version: u32, upstream_jobs: &[u128], import_data_hashes: &[u64]) -> (r: u128)
    ensures
        r == sip128_of_signature(input_hash, version, upstream_jobs@, import_data_hashes@),
{
    hash_signature(input_hash, version, upstream_jobs, import_data_hashes)
}

/// The header stored before an artifact's payload: the artifacts its handles refer to, and the
/// runtime type of the payload.
#[derive(Clone, Debug)]
pub struct BuiltArtifactMetadata {
    pub dependencies: Vec<ArtifactId>,
    pub asset_type: AssetTypeId,
}

/// One artifact that a job produced: its id, the asset it belongs to, its header and its bytes.
#[derive(Clone, Debug)]
pub struct BuiltArtifact {
    pub asset_id: AssetId,
    pub artifact_id: ArtifactId,
    pub metadata: BuiltArtifactMetadata,
    pub data: Vec<u8>,
}

/// Starts producing the artifact of `asset_id` under `artifact_key`: picks its id and starts
/// recording the handles that its serialized form will contain.
pub fn begin_produce_artifact(ctx: &mut DummySerdeContext, asset_id: AssetId, artifact_key: Option<&str>) -> (r: ArtifactId)
    requires
        old(ctx).wf(),
        old(ctx).current_serde_artifact is None,
    ensures
        final(ctx).wf(),
        r == artifact_id_for(asset_id, key_view(artifact_key)),
        final(ctx).current_serde_artifact == Some(r),
        final(ctx).current_serde_dependencies == old(ctx).current_serde_dependencies,
{
    let artifact_id = create_artifact_id(asset_id, artifact_key);
    ctx.begin_serialize_artifact(artifact_id);
    artifact_id
}

/// Finishes producing an artifact from its serialized bytes: the handles recorded while it was
/// serialized become its dependencies.
pub fn end_produce_artifact(ctx: &mut DummySerdeContext, asset_id: AssetId, artifact_id: ArtifactId, data: Vec<u8>, asset_type: AssetTypeId) -> (r: BuiltArtifact)
    requires
        old(ctx).wf(),
        old(ctx).current_serde_artifact is Some,
    ensures
        final(ctx).wf(),
        final(ctx).current_serde_artifact is None,
        r.asset_id == asset_id,
        r.artifact_id == artifact_id,
        r.data == data,
        r.metadata.asset_type == asset_type,
        r.metadata.dependencies@.len() == old(ctx).current_serde_dependencies@.len(),
        forall|i: int| 0 <= i < r.metadata.dependencies@.len() ==> #[trigger] r.metadata.dependencies@[i].0 == old(ctx).current_serde_dependencies@[i],
{
    let refs = ctx.end_serialize_artifact();
    let mut dependencies: Vec<ArtifactId> = Vec::new();
    let mut i: usize = 0;
    while i < refs.len()
        invariant
            0 <= i <= refs@.len(),
            dependencies@.len() == i,
            forall|j: int| 0 <= j < i ==> #[trigger] dependencies@[j] == refs@[j].0,
        decreases refs@.len() - i,
    {
        dependencies.push(refs[i].0);
        i = i + 1;
    }
    BuiltArtifact { asset_id, artifact_id, metadata: BuiltArtifactMetadata { dependencies, asset_type }, data }
}

/// What a finished run left in the cache.
#[derive(Clone, Debug)]
pub struct JobCacheEntry {
    pub job_id: u128,
    pub version: u32,
    pub dependency_signature: u128,
    pub artifacts: Vec<BuiltArtifact>,
}

/// Past job runs, newest last.
#[derive(Debug, Default)]
pub struct JobCache {
    pub entries: Vec<JobCacheEntry>,
}

/// True when entry `e` answers a run of `job_id` at `version` with signature `sig`.
pub open spec fn entry_matches(e: JobCacheEntry, job_id: u128, version: u32, sig: u128) -> bool {
    e.job_id == job_id && e.version == version && e.dependency_signature == sig
}

/// The newest entry of `entries[..n]` that answers the run, if any.
pub open spec fn newest_match(entries: Seq<JobCacheEntry>, job_id: u128, version: u32, sig: u128, n: int) -> Option<int>
    decreases n,
{
    if n <= 0 {
        None
    } else if entry_matches(entries[n - 1], job_id, version, sig) {
        Some(n - 1)
    } else {
        newest_match(entries, job_id, version, sig, n - 1)
    }
}

impl JobCache {
    pub fn new() -> (r: Self)
        ensures r.entries@.len() == 0,
    {
        JobCache { entries: Vec::new() }
    }

    /// The artifacts of the newest run of `job_id` with the same version and dependency
    /// signature; `None` when the job must run.
    pub fn lookup(&self, job_id: u128, version: u32, dependency_signature: u128) -> (r: Option<&Vec<BuiltArtifact>>)
        ensures
            r is None <==> newest_match(self.entries@, job_id, version, dependency_signature, self.entries@.len() as int) is None,
            r matches Some(a) ==> newest_match(self.entries@, job_id, version, dependency_signature, self.entries@.len() as int) matches Some(i)
                && *a == self.entries@[i].artifacts,
    {
        let mut n: usize = self.entries.len();
        while n > 0
            invariant
                0 <= n <= self.entries@.len(),
                newest_match(self.entries@, job_id, version, dependency_signature, self.entries@.len() as int)
                    == newest_match(self.entries@, job_id, version, dependency_signature, n as int),
            decreases n,
        {
            let e = &self.entries[n - 1];
            if e.job_id == job_id && e.version == version && e.dependency_signature == dependency_signature {
                return Some(&e.artifacts);
            }
            n = n - 1;
        }
        None
    }

    /// Records a finished run.
    pub fn store(&mut self, job_id: u128, version: u32, dependency_signature: u128, artifacts: Vec<BuiltArtifact>)
        ensures
            final(self).entries@ == old(self).entries@.push(JobCacheEntry { job_id, version, dependency_signature, artifacts }),
    {
        self.entries.push(JobCacheEntry { job_id, version, dependency_signature, artifacts });
    }
}

/// Re-running a job with the same input, version and dependency signature gives back exactly
/// the artifacts that its last run stored.
pub proof fn lemma_rerun_hits_cache(entries: Seq<JobCacheEntry>, e: JobCacheEntry)
    ensures
        newest_match(entries.push(e), e.job_id, e.version, e.dependency_signature, entries.len() as int + 1) == Some(entries.len() as int),
        entries.push(e)[entries.len() as int].artifacts == e.artifacts,
{
}

/// Equal jobs have equal ids, and equal run inputs have equal signatures.
pub proof fn lemma_job_identity(a: NewJob, b: NewJob, upstream: Seq<u128>, hashes: Seq<u64>, version: u32)
    requires
        a.job_type == b.job_type,
        a.input_data@ == b.input_data@,
        a.input_hash == b.input_hash,
    ensures
        sip128_of_job(a.job_type, a.input_data@) == sip128_of_job(b.job_type, b.input_data@),
        sip128_of_signature(a.input_hash, version, upstream, hashes) == sip128_of_signature(b.input_hash, version, upstream, hashes),
{
}

} // verus!
