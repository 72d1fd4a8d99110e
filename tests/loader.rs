use hydrate::ids::{ArtifactId, LoadHandle};
use hydrate::loader::{advance_state, LoadEvent, LoadState, LoaderState};
use hydrate::storage::{AssetLoadOp, HandleOp};

fn load_to(loader: &mut LoaderState, h: LoadHandle) {
    assert!(loader.handle_event(h, LoadEvent::MetadataReceived));
    assert!(loader.handle_event(h, LoadEvent::DependenciesLoaded));
    assert!(loader.handle_event(h, LoadEvent::DataDelivered));
    let version = 0;
    let _ = version;
}

#[test]
fn add_ref_then_remove_ref_keeps_count() {
    let mut loader = LoaderState::new();
    let h = loader.add_ref(ArtifactId(1)).unwrap();
    assert_eq!(loader.refcount(h), 1);
    assert_eq!(loader.load_state(h), LoadState::WaitingForMetadata);
    assert!(loader.add_ref_handle(h));
    assert_eq!(loader.refcount(h), 2);
    assert!(loader.remove_ref(h));
    assert_eq!(loader.refcount(h), 1);
    assert_eq!(loader.add_ref(ArtifactId(1)), Some(h));
    assert!(loader.remove_ref(h));
    assert_eq!(loader.refcount(h), 1);
    assert!(loader.remove_ref(h));
    assert_eq!(loader.refcount(h), 0);
    assert_eq!(loader.load_state(h), LoadState::Unloaded);
    assert!(!loader.remove_ref(h));
}

#[test]
fn state_machine_follows_the_load_order() {
    assert_eq!(advance_state(LoadState::WaitingForMetadata, LoadEvent::MetadataReceived), Some(LoadState::WaitingForDependencies));
    assert_eq!(advance_state(LoadState::WaitingForDependencies, LoadEvent::DependenciesLoaded), Some(LoadState::WaitingForData));
    assert_eq!(advance_state(LoadState::WaitingForData, LoadEvent::DataDelivered), Some(LoadState::Loading));
    assert_eq!(advance_state(LoadState::Loading, LoadEvent::LoadComplete), Some(LoadState::Loaded));
    assert_eq!(advance_state(LoadState::Loading, LoadEvent::LoadFailed), Some(LoadState::Unloaded));
    assert_eq!(advance_state(LoadState::Unloaded, LoadEvent::MetadataReceived), None);
    assert_eq!(advance_state(LoadState::WaitingForMetadata, LoadEvent::LoadComplete), None);
}

#[test]
fn hot_reload_group_commits_together() {
    let mut loader = LoaderState::new();
    let x = loader.add_ref(ArtifactId(10)).unwrap();
    let y = loader.add_ref(ArtifactId(20)).unwrap();
    for h in [x, y] {
        load_to(&mut loader, h);
        assert!(loader.apply_handle_op(&AssetLoadOp::new(h, 1).complete()));
    }
    assert!(loader.commit_reload_group(&[x, y]));
    assert_eq!(loader.get_version(x), Some(1));
    assert_eq!(loader.get_version(y), Some(1));
    assert!(loader.begin_reload(x));
    assert!(loader.begin_reload(y));
    load_to(&mut loader, x);
    assert!(loader.apply_handle_op(&AssetLoadOp::new(x, 2).complete()));
    assert!(!loader.commit_reload_group(&[x, y]));
    assert_eq!(loader.get_version(x), Some(1));
    assert_eq!(loader.get_version(y), Some(1));
    load_to(&mut loader, y);
    assert!(loader.apply_handle_op(&AssetLoadOp::new(y, 2).complete()));
    assert!(loader.commit_reload_group(&[x, y]));
    assert_eq!(loader.get_version(x), Some(2));
    assert_eq!(loader.get_version(y), Some(2));
    assert_eq!(loader.load_state(x), LoadState::Committed);
}

#[test]
fn versions_never_go_back() {
    let mut loader = LoaderState::new();
    let x = loader.add_ref(ArtifactId(10)).unwrap();
    assert_eq!(loader.get_version(x), None);
    load_to(&mut loader, x);
    assert!(loader.apply_handle_op(&AssetLoadOp::new(x, 1).complete()));
    assert!(loader.commit_reload_group(&[x]));
    let mut last = loader.get_version(x).unwrap();
    for _ in 0..3 {
        assert!(loader.begin_reload(x));
        load_to(&mut loader, x);
        assert!(loader.apply_handle_op(&AssetLoadOp::new(x, last + 1).complete()));
        assert!(loader.commit_reload_group(&[x]));
        let v = loader.get_version(x).unwrap();
        assert!(v >= last);
        last = v;
    }
    assert_eq!(last, 4);
    assert!(loader.remove_ref(x));
    assert_eq!(loader.get_version(x), Some(4));
}

#[test]
fn stale_or_failed_reports_are_handled() {
    let mut loader = LoaderState::new();
    let x = loader.add_ref(ArtifactId(10)).unwrap();
    load_to(&mut loader, x);
    assert!(!loader.apply_handle_op(&AssetLoadOp::new(x, 7).complete()));
    assert_eq!(loader.load_state(x), LoadState::Loading);
    let op = AssetLoadOp::new(x, 1).error("bad bytes".to_string());
    assert_eq!(op, HandleOp::Error(x, 1, "bad bytes".to_string()));
    assert!(loader.apply_handle_op(&op));
    assert_eq!(loader.load_state(x), LoadState::Unloaded);
    assert_eq!(AssetLoadOp::new(x, 1).abandon(), HandleOp::Drop(x, 1));
    assert_eq!(AssetLoadOp::new(x, 1).load_handle(), x);
}

#[test]
fn indirect_handle_rebinding() {
    let mut loader = LoaderState::new();
    let h_ind = loader.add_ref_indirect(1, ArtifactId(100)).unwrap();
    assert!(h_ind.is_indirect());
    let h1 = loader.resolve(h_ind).unwrap();
    assert_eq!(loader.handle_of(ArtifactId(100)), Some(h1));
    let other = loader.add_ref(ArtifactId(200)).unwrap();
    let before_1 = loader.refcount(h1);
    let before_2 = loader.refcount(other);
    let h2 = loader.rebind_indirect(h_ind, ArtifactId(200)).unwrap();
    assert_eq!(h2, other);
    assert_eq!(loader.resolve(h_ind), Some(h2));
    assert_eq!(loader.refcount(h1), before_1 - 1);
    assert_eq!(loader.refcount(h2), before_2 + 1);
    assert_eq!(loader.rebind_indirect(LoadHandle::new(9, true), ArtifactId(1)), None);
    assert_eq!(loader.resolve(LoadHandle::new(9, true)), None);
}
