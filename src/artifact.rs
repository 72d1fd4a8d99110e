use vstd::prelude::*;
use siphasher::sip128::Hasher128;
use crate::ids::{AssetId, ArtifactId};

verus! {

/// The 128-bit SipHash of an asset id (as a UUID) followed by an artifact key, as `siphasher`
/// computes it.
pub uninterp spec fn sip128_of_id_and_key(asset_id: u128, key: Seq<char>) -> u128;

/// Relies on `siphasher::sip128::SipHasher` (default keys) fed through `std::hash::Hash`: the
/// asset id as a `uuid::Uuid`, then the key string; the result depends on those alone.
#[verifier::external_body]
fn hash_asset_id_and_key(asset_id: u128, key: &str) -> (r: u128)
    ensures
        r == sip128_of_id_and_key(asset_id, key@),
{
    let mut hasher = siphasher::sip128::SipHasher::default();
    std::hash::Hash::hash(&uuid::Uuid::from_u128(asset_id), &mut hasher);
    std::hash::Hash::hash(key, &mut hasher);
    hasher.finish128().as_u128()
}

/// The characters of an optional key.
pub open spec fn key_view(k: Option<&str>) -> Option<Seq<char>> {
    match k {
        Some(s) => Some(s@),
        None => None,
    }
}

/// The id of the artifact that asset `asset_id` produces under `key`: the asset's own id for
/// the default artifact, else the hash of the asset id and the key.
pub open spec fn artifact_id_for(asset_id: AssetId, key: Option<Seq<char>>) -> ArtifactId {
    match key {
        None => ArtifactId(asset_id.0),
        Some(k) => ArtifactId(sip128_of_id_and_key(asset_id.0, k)),
    }
}

/// The id of the default artifact of an asset: the asset's id.
pub fn default_artifact_id(asset_id: AssetId) -> (r: ArtifactId)
    ensures
        r == artifact_id_for(asset_id, None),
        r.0 == asset_id.0,
{
    ArtifactId(asset_id.0)
}

/// The id of the artifact that `asset_id` produces under `artifact_key` (the default artifact
/// when there is no key).
pub fn create_artifact_id(asset_id: AssetId, artifact_key: Option<&str>) -> (r: ArtifactId)
    ensures
        r == artifact_id_for(asset_id, key_view(artifact_key)),
{
    match artifact_key {
        None => default_artifact_id(asset_id),
        Some(k) => ArtifactId(hash_asset_id_and_key(asset_id.0, k)),
    }
}

/// Artifact ids are a function of the asset id and the key alone: the default artifact has the
/// asset's id, and equal (asset, key) pairs give equal ids.
pub proof fn lemma_artifact_id_pure(a: AssetId, b: AssetId, ka: Option<Seq<char>>, kb: Option<Seq<char>>)
    requires
        a == b,
        ka == kb,
    ensures
        artifact_id_for(a, ka) == artifact_id_for(b, kb),
        artifact_id_for(a, None).0 == a.0,
        ka matches Some(k) ==> artifact_id_for(a, ka).0 == sip128_of_id_and_key(a.0, k),
{
}

/// An asset and one of its artifacts.
#[derive(Copy, Clone, Debug, PartialEq, Eq, Hash, Structural)]
pub struct AssetArtifactIdPair {
    pub asset_id: AssetId,
    pub artifact_id: ArtifactId,
}

} // verus!
