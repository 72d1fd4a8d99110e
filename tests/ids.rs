use hydrate::ids::LoadHandle;

#[test]
fn load_handle_indirect_bit() {
    let h = LoadHandle::new(5, true);
    assert!(h.is_indirect());
    assert_eq!(h.0, 5 | (1u64 << 63));
    let d = LoadHandle::new(5, false);
    assert!(!d.is_indirect());
    assert_eq!(d.0, 5);
}

use hydrate::artifact::{create_artifact_id, default_artifact_id};
use hydrate::ids::{ArtifactId, AssetId, RefOp, WeakHandle};
use hydrate::loader::{HandleRef, HandleRefType};

#[test]
fn default_artifact_has_asset_id() {
    let a = AssetId(0x1234_5678_9abc);
    assert_eq!(default_artifact_id(a), ArtifactId(0x1234_5678_9abc));
    assert_eq!(create_artifact_id(a, None), ArtifactId(0x1234_5678_9abc));
}

#[test]
fn keyed_artifact_id_is_deterministic_hash() {
    let a = AssetId(42);
    let k1 = create_artifact_id(a, Some("lod0"));
    let k2 = create_artifact_id(a, Some("lod0"));
    let k3 = create_artifact_id(a, Some("lod1"));
    let k4 = create_artifact_id(AssetId(43), Some("lod0"));
    assert_eq!(k1, k2);
    assert_ne!(k1, k3);
    assert_ne!(k1, k4);
    assert_ne!(k1, ArtifactId(42));
}

#[test]
fn handle_ref_drop_and_clone_counts() {
    let id = hydrate::ids::LoadHandle::new(3, false);
    let strong = HandleRef::new(id, HandleRefType::Strong);
    let weak = HandleRef::new(id, HandleRefType::Weak);
    let internal = HandleRef::new(id, HandleRefType::Internal);
    assert_eq!(strong.on_drop(), Some(RefOp::Decrease(id)));
    assert_eq!(weak.on_drop(), None);
    assert_eq!(internal.on_drop(), None);
    let (c, op) = internal.clone_ref();
    assert_eq!(c.ref_type, HandleRefType::Strong);
    assert_eq!(c.load_handle(), id);
    assert_eq!(op, Some(RefOp::Increase(id)));
    let (w, op) = weak.clone_ref();
    assert_eq!(w.ref_type, HandleRefType::Weak);
    assert_eq!(op, None);
    let (s, op) = strong.clone_ref();
    assert_eq!(s.ref_type, HandleRefType::Strong);
    assert_eq!(op, Some(RefOp::Increase(id)));
}

#[test]
fn weak_handle_keeps_its_id() {
    let id = hydrate::ids::LoadHandle(77);
    assert_eq!(WeakHandle::new(id).load_handle(), id);
}
