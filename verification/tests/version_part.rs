use version_compare::VersionPart;

#[test]
fn epoch_compare() {
    assert_eq!(VersionPart::Epoch(0), VersionPart::Epoch(0));
    assert!(VersionPart::Epoch(0) < VersionPart::Epoch(1));
}

#[test]
fn cross_type_compare() {
    // An epoch of any value trumps an integer (priority)
    assert!(VersionPart::Epoch(0) > VersionPart::Integer(1));
}
