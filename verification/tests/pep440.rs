use version_compare::PEP440String;

#[test]
fn compare_implict_leading_zero() {
    // An absent numeric run counts as zero
    assert_eq!(PEP440String::new("0dev"), PEP440String::new("dev"));
}
