use version_compare::compare;
use version_compare::compare_to;
use version_compare::CompOp;
use version_compare::TestVersionSet;

/// List of version sets for dynamic tests.
fn test_version_sets() -> Vec<TestVersionSet> {
    vec![
        TestVersionSet("1", "1", CompOp::Eq),
        TestVersionSet("1.0.0.0", "1", CompOp::Eq),
        TestVersionSet("1", "1.0.0.0", CompOp::Eq),
        TestVersionSet("0", "0", CompOp::Eq),
        TestVersionSet("0.0.0", "0", CompOp::Eq),
        TestVersionSet("0", "0.0.0", CompOp::Eq),
        TestVersionSet("", "", CompOp::Eq),
        TestVersionSet("", "0.0", CompOp::Eq),
        TestVersionSet("0.0", "", CompOp::Eq),
        TestVersionSet("", "0.1", CompOp::Lt),
        TestVersionSet("0.1", "", CompOp::Gt),
        TestVersionSet("1.2.3", "1.2.3", CompOp::Eq),
        TestVersionSet("1.2.3", "1.2.4", CompOp::Lt),
        TestVersionSet("1.0.0.1", "1.0.0.0", CompOp::Gt),
        TestVersionSet("1.0.0.0", "1.0.0.1", CompOp::Lt),
        TestVersionSet("1.2.3.4", "1.2", CompOp::Gt),
        TestVersionSet("1.2", "1.2.3.4", CompOp::Lt),
        TestVersionSet("1.2.3.4", "2", CompOp::Lt),
        TestVersionSet("2", "1.2.3.4", CompOp::Gt),
        TestVersionSet("123", "123", CompOp::Eq),
        TestVersionSet("123", "1.2.3", CompOp::Gt),
        TestVersionSet("1.2.3", "123", CompOp::Lt),
        TestVersionSet("1.1.2", "1.1.30-dev", CompOp::Lt),
        TestVersionSet("1.2.3", "1.2.3.alpha", CompOp::Lt),
        TestVersionSet("1.2.3", "1.2.3-dev", CompOp::Lt),
        TestVersionSet("1.2.3 RC0", "1.2.3 rc1", CompOp::Lt),
        TestVersionSet("1.2.3 rc2", "1.2.3 RC99", CompOp::Gt),
        TestVersionSet("1.2.3 RC3", "1.2.3 RC1", CompOp::Gt),
        TestVersionSet("1.2.3a", "1.2.3b", CompOp::Lt),
        TestVersionSet("1.2.3b", "1.2.3a", CompOp::Gt),
        TestVersionSet("1.2.3.dev", "1.2.3.alpha", CompOp::Gt),
        TestVersionSet("1.2.3-dev", "1.2.3-alpha", CompOp::Gt),
        TestVersionSet("1.2.3.dev.1", "1.2.3.alpha", CompOp::Gt),
        TestVersionSet("1.2.3-dev-1", "1.2.3-alpha", CompOp::Gt),
        TestVersionSet("version-compare 3.2.0 / build 0932", "3.2.5", CompOp::Lt),
        TestVersionSet("version-compare 3.2.0 / build 0932", "3.1.1", CompOp::Lt),
        TestVersionSet(
            "version-compare 1.4.1 / build 0043",
            "version-compare 1.4.1 / build 0043",
            CompOp::Eq,
        ),
        TestVersionSet(
            "version-compare 1.4.1 / build 0042",
            "version-compare 1.4.1 / build 0043",
            CompOp::Lt,
        ),
        TestVersionSet("7.2p1", "7.1", CompOp::Lt),
        TestVersionSet("snapshot.1.2.3", "1.2.3.alpha", CompOp::Lt),
        TestVersionSet("snapshot-1.2.3", "1.2.3-alpha", CompOp::Lt),
    ]
}

/// List of invalid version sets for dynamic tests.
fn test_version_sets_error() -> Vec<TestVersionSet> {
    vec![
        TestVersionSet("1.2.3", "1.2.3", CompOp::Lt),
        TestVersionSet("1.2", "1.2.0.0", CompOp::Ne),
        TestVersionSet("1.2.3.dev", "dev", CompOp::Eq),
        TestVersionSet("snapshot", "1", CompOp::Lt),
    ]
}

#[test]
fn compare_compare() {
    // Compare each version in the version set
    for entry in test_version_sets() {
        assert_eq!(
            compare(entry.0, entry.1),
            Ok(entry.2.clone()),
            "Testing that {} is {} {}",
            entry.0,
            entry.2.sign(),
            entry.1,
        );
    }

    // Compare each error version in the version set
    for entry in test_version_sets_error() {
        let result = compare(entry.0, entry.1);

        if result.is_ok() {
            assert!(result != Ok(entry.2.clone()));
        }
    }
}

#[test]
fn compare_compare_to() {
    // Compare each version in the version set
    for entry in test_version_sets() {
        // Test
        assert!(compare_to(entry.0, entry.1, entry.2).unwrap());

        // Make sure the inverse operator is not correct
        assert_eq!(compare_to(entry.0, entry.1, entry.2.invert()).unwrap(), false);
    }

    // Compare each error version in the version set
    for entry in test_version_sets_error() {
        let result = compare_to(entry.0, entry.1, entry.2);

        if result.is_ok() {
            assert!(!result.unwrap())
        }
    }

    // Assert an exceptional case, compare to not equal
    assert!(compare_to("1.2.3", "1.2", CompOp::Ne).unwrap());
}
