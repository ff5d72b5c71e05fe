use brewhouse::catalog::PackageCatalog;
use brewhouse::records::Package;

fn pkg(name: &str) -> Package {
    Package {
        name: name.to_string(),
        version: None,
        desc: None,
        homepage: None,
        installed: true,
    }
}

#[test]
fn resolve_follows_the_snapshot() {
    let mut cat = PackageCatalog::new();
    assert_eq!(cat.len(), 0);
    assert_eq!(cat.resolve(0), None);
    cat.replace(vec![pkg("a"), pkg("b"), pkg("c")]);
    assert_eq!(cat.len(), 3);
    assert_eq!(cat.resolve(0).as_deref(), Some("a"));
    assert_eq!(cat.resolve(2).as_deref(), Some("c"));
    assert_eq!(cat.resolve(3), None);
}

#[test]
fn removal_shifts_the_mapping_and_leaves_no_stale_binding() {
    let mut cat = PackageCatalog::new();
    cat.replace(vec![pkg("a"), pkg("b"), pkg("c")]);
    cat.remove_by_index(1);
    assert_eq!(cat.len(), 2);
    assert_eq!(cat.resolve(0).as_deref(), Some("a"));
    assert_eq!(cat.resolve(1).as_deref(), Some("c"));
    assert_eq!(cat.resolve(2), None);
    assert_eq!(cat.resolve(17), None);
}

#[test]
fn removing_the_last_entry_empties_the_catalog() {
    let mut cat = PackageCatalog::new();
    cat.replace(vec![pkg("only")]);
    cat.remove_by_index(0);
    assert_eq!(cat.len(), 0);
    assert_eq!(cat.resolve(0), None);
}

#[test]
fn replace_rebuilds_from_scratch() {
    let mut cat = PackageCatalog::new();
    cat.replace(vec![pkg("a"), pkg("b")]);
    cat.replace(vec![pkg("z")]);
    assert_eq!(cat.len(), 1);
    assert_eq!(cat.resolve(0).as_deref(), Some("z"));
    assert_eq!(cat.resolve(1), None);
}

#[test]
fn get_hands_back_the_record() {
    let mut cat = PackageCatalog::new();
    cat.replace(vec![pkg("a")]);
    assert_eq!(cat.get(0).map(|p| p.name.as_str()), Some("a"));
    assert!(cat.get(1).is_none());
}
