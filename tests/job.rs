use hydrate::serde_context::{artifact_ref_from_bytes, get_handle_ref};
use hydrate::serde_context::make_handle_within_serde_context;
use hydrate::ids::{ArtifactId, ArtifactRef, AssetId, AssetTypeId, LoadHandle};
use hydrate::job::{
    begin_produce_artifact, dependency_signature, end_produce_artifact, job_id_of, BuiltArtifact, BuiltArtifactMetadata,
    JobCache, NewJob,
};
use hydrate::serde_context::DummySerdeContext;

fn job(bytes: &[u8]) -> NewJob {
    NewJob { job_type: 5, input_hash: 77, input_data: bytes.to_vec() }
}

#[test]
fn job_ids_follow_type_and_input() {
    assert_eq!(job_id_of(&job(&[1, 2])), job_id_of(&job(&[1, 2])));
    assert_ne!(job_id_of(&job(&[1, 2])), job_id_of(&job(&[1, 3])));
    let mut other = job(&[1, 2]);
    other.job_type = 6;
    assert_ne!(job_id_of(&job(&[1, 2])), job_id_of(&other));
}

#[test]
fn rerun_with_same_signature_reuses_artifacts() {
    let id = job_id_of(&job(&[9]));
    let sig = dependency_signature(77, 1, &[3, 4], &[10, 11]);
    assert_eq!(sig, dependency_signature(77, 1, &[3, 4], &[10, 11]));
    assert_ne!(sig, dependency_signature(77, 2, &[3, 4], &[10, 11]));
    assert_ne!(sig, dependency_signature(77, 1, &[4, 3], &[10, 11]));
    assert_ne!(sig, dependency_signature(77, 1, &[3, 4], &[10, 12]));
    let mut cache = JobCache::new();
    assert!(cache.lookup(id, 1, sig).is_none());
    let art = BuiltArtifact {
        asset_id: AssetId(1),
        artifact_id: ArtifactId(1),
        metadata: BuiltArtifactMetadata { dependencies: vec![], asset_type: AssetTypeId([0; 16]) },
        data: vec![0xde, 0xad],
    };
    cache.store(id, 1, sig, vec![art]);
    let hit = cache.lookup(id, 1, sig).unwrap();
    assert_eq!(hit[0].data, vec![0xde, 0xad]);
    assert!(cache.lookup(id, 2, sig).is_none());
    assert!(cache.lookup(id, 1, sig ^ 1).is_none());
}

#[test]
fn serde_context_maps_handles_and_records_dependencies() {
    let mut ctx = DummySerdeContext::new();
    let h1 = ctx.load_handle(&ArtifactRef(ArtifactId(100))).unwrap();
    let h2 = ctx.load_handle(&ArtifactRef(ArtifactId(200))).unwrap();
    assert_eq!(h1, LoadHandle(1));
    assert_eq!(h2, LoadHandle(2));
    assert_eq!(ctx.load_handle(&ArtifactRef(ArtifactId(100))), Some(h1));
    let h0 = ctx.load_handle(&ArtifactRef(ArtifactId(0))).unwrap();
    ctx.begin_serialize_artifact(ArtifactId(100));
    assert_eq!(ctx.artifact_id(h1), Some(ArtifactId(100)));
    assert_eq!(ctx.artifact_id(h2), Some(ArtifactId(200)));
    assert_eq!(ctx.artifact_id(h2), Some(ArtifactId(200)));
    assert_eq!(ctx.artifact_id(h0), Some(ArtifactId(0)));
    assert_eq!(ctx.artifact_id(LoadHandle(99)), None);
    let deps = ctx.end_serialize_artifact();
    assert_eq!(deps, vec![ArtifactRef(ArtifactId(200))]);
    assert_eq!(ctx.artifact_id(h2), Some(ArtifactId(200)));
    ctx.begin_serialize_artifact(ArtifactId(1));
    assert!(ctx.end_serialize_artifact().is_empty());
}

#[test]
fn produced_artifact_records_embedded_handles() {
    let mut ctx = DummySerdeContext::new();
    let dep = ctx.load_handle(&ArtifactRef(ArtifactId(500))).unwrap();
    let id = begin_produce_artifact(&mut ctx, AssetId(7), None);
    assert_eq!(id, ArtifactId(7));
    assert_eq!(ctx.artifact_id(dep), Some(ArtifactId(500)));
    let built = end_produce_artifact(&mut ctx, AssetId(7), id, vec![1, 2, 3], AssetTypeId([9; 16]));
    assert_eq!(built.metadata.dependencies, vec![ArtifactId(500)]);
    assert_eq!(built.metadata.asset_type, AssetTypeId([9; 16]));
    assert_eq!(built.data, vec![1, 2, 3]);
    let keyed = begin_produce_artifact(&mut ctx, AssetId(7), Some("lod1"));
    assert_ne!(keyed, ArtifactId(7));
    let built = end_produce_artifact(&mut ctx, AssetId(7), keyed, vec![], AssetTypeId([0; 16]));
    assert!(built.metadata.dependencies.is_empty());
}

#[test]
fn resolve_ref_and_handles_within_context() {
    let mut ctx = DummySerdeContext::new();
    let h = ctx.load_handle(&ArtifactRef(ArtifactId(1))).unwrap();
    assert!(ctx.resolve_ref(&ArtifactRef(ArtifactId(1)), ArtifactId(2)));
    assert_eq!(ctx.load_handle(&ArtifactRef(ArtifactId(2))), Some(h));
    assert_eq!(ctx.artifact_id(h), Some(ArtifactId(2)));
    assert!(!ctx.resolve_ref(&ArtifactRef(ArtifactId(3)), ArtifactId(4)));
    let handle = make_handle_within_serde_context::<u32>(&mut ctx, ArtifactId(2)).unwrap();
    assert_eq!(handle.load_handle(), h);
}

#[test]
fn handle_wire_form_is_sixteen_big_endian_bytes() {
    let id: u128 = 0x0011_2233_4455_6677_8899_aabb_ccdd_eeff;
    let bytes = uuid::Uuid::from_u128(id).as_bytes().to_vec();
    assert_eq!(artifact_ref_from_bytes(&bytes), Some(ArtifactRef(ArtifactId(id))));
    assert_eq!(artifact_ref_from_bytes(&bytes[..15]), None);
    assert_eq!(artifact_ref_from_bytes(&[0xff; 16]), Some(ArtifactRef(ArtifactId(u128::MAX))));
    let mut ctx = DummySerdeContext::new();
    assert_eq!(get_handle_ref(&ctx, ArtifactRef(ArtifactId(0))), Some(LoadHandle(0)));
    assert_eq!(get_handle_ref(&ctx, ArtifactRef(ArtifactId(id))), None);
    let h = ctx.load_handle(&ArtifactRef(ArtifactId(id))).unwrap();
    assert_eq!(get_handle_ref(&ctx, ArtifactRef(ArtifactId(id))), Some(h));
}
