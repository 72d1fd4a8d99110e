use hydrate::object_path::ObjectPath;

#[test]
fn root_and_join() {
    let root = ObjectPath::root();
    assert!(root.is_root_path());
    assert_eq!(root.as_str(), "db:/");
    assert_eq!(ObjectPath::new("db:/"), root);
    let a = root.join("a");
    assert_eq!(a.as_str(), "db:/a");
    let ab = a.join("b");
    assert_eq!(ab.as_str(), "db:/a/b");
    assert_eq!(ab.join(""), ab);
    assert_eq!(ObjectPath::new("db:/x/").join("y").as_str(), "db:/x/y");
}

#[test]
fn parent_and_name() {
    assert_eq!(ObjectPath::root().parent_path_and_name(), None);
    let (p, n) = ObjectPath::new("db:/a/b").parent_path_and_name().unwrap();
    assert_eq!(p.as_str(), "db:/a");
    assert_eq!(n, "b");
    let (p, n) = ObjectPath::new("db:/a").parent_path_and_name().unwrap();
    assert!(p.is_root_path());
    assert_eq!(n, "a");
}

#[test]
fn components_and_prefixes() {
    let p = ObjectPath::new("db:/a/b/c");
    assert_eq!(p.split_components(), vec!["a".to_string(), "b".to_string(), "c".to_string()]);
    assert_eq!(ObjectPath::root().split_components(), Vec::<String>::new());
    assert!(p.starts_with(&ObjectPath::new("db:/a")));
    assert!(p.starts_with(&ObjectPath::root()));
    assert!(!p.starts_with(&ObjectPath::new("db:/b")));
    assert!(!ObjectPath::root().starts_with(&p));
}
