use version_compare::Manifest;

#[test]
fn has_max_depth() {
    let mut manifest = Manifest::default();

    manifest.max_depth = Some(1);
    assert!(manifest.has_max_depth());

    manifest.max_depth = Some(3);
    assert!(manifest.has_max_depth());

    manifest.max_depth = None;
    assert!(!manifest.has_max_depth());
}
