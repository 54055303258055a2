use version_compare::CompOp;
use version_compare::TestVersion;
use version_compare::TestVersionSet;
use version_compare::Version;

/// List of version numbers with metadata for dynamic tests.
fn test_versions() -> Vec<TestVersion> {
    vec![
        TestVersion("1", 1),
        TestVersion("1.2", 2),
        TestVersion("1.2.3.4", 4),
        TestVersion("1.2.3.4.5.6.7.8", 8),
        TestVersion("0", 1),
        TestVersion("0.0.0", 3),
        TestVersion("1.0.0", 3),
        TestVersion("0.0.1", 3),
        TestVersion("", 0),
    ]
}

/// List of version numbers that fail to parse, for dynamic tests.
fn test_versions_error() -> Vec<TestVersion> {
    vec![
        TestVersion("abc", 1),
        TestVersion("alpha.dev.snapshot", 3),
        TestVersion("test. .snapshot", 2),
        TestVersion(". . .", 0),
    ]
}

/// List of version sets for dynamic tests.
fn test_version_sets() -> Vec<TestVersionSet> {
    vec![
        TestVersionSet("1", "1", CompOp::Eq),
        TestVersionSet("1.0.0.0", "1", CompOp::Eq),
        TestVersionSet("1", "1.0.0.0", CompOp::Eq),
        TestVersionSet("0", "0", CompOp::Eq),
        TestVersionSet("0.0.0", "0", CompOp::Eq),
        TestVersionSet("0", "0.0.0", CompOp::Eq),
        TestVersionSet("", "", CompOp::Eq),
        TestVersionSet("", "0.0", CompOp::Eq),
        TestVersionSet("0.0", "", CompOp::Eq),
        TestVersionSet("", "0.1", CompOp::Lt),
        TestVersionSet("0.1", "", CompOp::Gt),
        TestVersionSet("1.2.3", "1.2.3", CompOp::Eq),
        TestVersionSet("1.2.3", "1.2.4", CompOp::Lt),
        TestVersionSet("1.0.0.1", "1.0.0.0", CompOp::Gt),
        TestVersionSet("1.0.0.0", "1.0.0.1", CompOp::Lt),
        TestVersionSet("1.2.3.4", "1.2", CompOp::Gt),
        TestVersionSet("1.2", "1.2.3.4", CompOp::Lt),
        TestVersionSet("1.2.3.4", "2", CompOp::Lt),
        TestVersionSet("2", "1.2.3.4", CompOp::Gt),
        TestVersionSet("123", "123", CompOp::Eq),
        TestVersionSet("123", "1.2.3", CompOp::Gt),
        TestVersionSet("1.2.3", "123", CompOp::Lt),
        TestVersionSet("1.1.2", "1.1.30-dev", CompOp::Lt),
        TestVersionSet("1.2.3", "1.2.3.alpha", CompOp::Lt),
        TestVersionSet("1.2.3", "1.2.3-dev", CompOp::Lt),
        TestVersionSet("1.2.3 RC0", "1.2.3 rc1", CompOp::Lt),
        TestVersionSet("1.2.3 rc2", "1.2.3 RC99", CompOp::Gt),
        TestVersionSet("1.2.3 RC3", "1.2.3 RC1", CompOp::Gt),
        TestVersionSet("1.2.3a", "1.2.3b", CompOp::Lt),
        TestVersionSet("1.2.3b", "1.2.3a", CompOp::Gt),
        TestVersionSet("1.2.3.dev", "1.2.3.alpha", CompOp::Gt),
        TestVersionSet("1.2.3-dev", "1.2.3-alpha", CompOp::Gt),
        TestVersionSet("1.2.3.dev.1", "1.2.3.alpha", CompOp::Gt),
        TestVersionSet("1.2.3-dev-1", "1.2.3-alpha", CompOp::Gt),
        TestVersionSet("version-compare 3.2.0 / build 0932", "3.2.5", CompOp::Lt),
        TestVersionSet("version-compare 3.2.0 / build 0932", "3.1.1", CompOp::Lt),
        TestVersionSet(
            "version-compare 1.4.1 / build 0043",
            "version-compare 1.4.1 / build 0043",
            CompOp::Eq,
        ),
        TestVersionSet(
            "version-compare 1.4.1 / build 0042",
            "version-compare 1.4.1 / build 0043",
            CompOp::Lt,
        ),
        TestVersionSet("7.2p1", "7.1", CompOp::Lt),
        TestVersionSet("snapshot.1.2.3", "1.2.3.alpha", CompOp::Lt),
        TestVersionSet("snapshot-1.2.3", "1.2.3-alpha", CompOp::Lt),
    ]
}

#[test]
fn from() {
    // Test whether parsing works for each test version
    for version in test_versions() {
        assert!(Version::from(version.0).is_some());
    }

    // Test whether parsing fails for each invalid test version
    for version in test_versions_error() {
        assert!(Version::from(version.0).is_none());
    }
}

#[test]
fn as_str() {
    // Test for each test version
    for version in test_versions() {
        // The input version string must be the same as the returned string
        assert_eq!(Version::from(version.0).unwrap().as_str(), version.0);
    }
}

#[test]
fn part() {
    // Test for each test version
    for version in test_versions() {
        // Create a version object
        let ver = Version::from(version.0).unwrap();

        // Loop through each part
        for i in 0..version.1 {
            assert_eq!(ver.part(i), Ok(&ver.parts()[i]));
        }

        // A value outside the range must return an error
        assert!(ver.part(version.1).is_err());
    }
}

#[test]
fn parts() {
    // Test for each test version
    for version in test_versions() {
        // The number of parts must match
        assert_eq!(Version::from(version.0).unwrap().parts().len(), version.1);
    }
}

#[test]
fn part_count() {
    // Test for each test version
    for version in test_versions() {
        // The number of parts must match the metadata
        assert_eq!(Version::from(version.0).unwrap().part_count(), version.1);
    }
}

#[test]
fn version_compare() {
    // Compare each version in the version set
    for entry in test_version_sets() {
        // Get both versions
        let version_a = Version::from(entry.0).unwrap();
        let version_b = Version::from(entry.1).unwrap();

        // Compare them
        assert_eq!(
            version_a.compare(&version_b),
            entry.2.clone(),
            "Testing that {} is {} {}",
            entry.0,
            entry.2.sign(),
            entry.1,
        );
    }
}

#[test]
fn version_compare_to() {
    // Compare each version in the version set
    for entry in test_version_sets() {
        // Get both versions
        let version_a = Version::from(entry.0).unwrap();
        let version_b = Version::from(entry.1).unwrap();

        // Test
        assert!(version_a.compare_to(&version_b, &entry.2));

        // Make sure the inverse operator is not correct
        assert_eq!(version_a.compare_to(&version_b, &entry.2.invert()), false);
    }

    // Assert an exceptional case, compare to not equal
    assert!(Version::from("1.2")
        .unwrap()
        .compare_to(&Version::from("1.2.3").unwrap(), &CompOp::Ne));
}

#[test]
fn version_display() {
    assert_eq!(Version::from("1.2.3").unwrap().as_str(), "1.2.3");
}

#[test]
fn debug() {
    assert_eq!(
        Version::from("1.2.3").unwrap().debug_text(),
        "[Integer(1), Integer(2), Integer(3)]",
    );
    assert_eq!(
        Version::from("1.2.3").unwrap().debug_text_alternate(),
        "[\n    Integer(\n        1,\n    ),\n    Integer(\n        2,\n    ),\n    Integer(\n        3,\n    ),\n]",
    );
}

#[test]
fn partial_cmp() {
    // Compare each version in the version set
    for entry in test_version_sets() {
        // Get both versions
        let version_a = Version::from(entry.0).unwrap();
        let version_b = Version::from(entry.1).unwrap();

        // Compare and assert
        match entry.2 {
            CompOp::Eq => assert!(version_a == version_b),
            CompOp::Lt => assert!(version_a < version_b),
            CompOp::Gt => assert!(version_a > version_b),
            _ => {}
        }
    }
}

#[test]
fn partial_eq() {
    // Compare each version in the version set
    for entry in test_version_sets() {
        // Skip entries that are less or equal, or greater or equal
        match entry.2 {
            CompOp::Le | CompOp::Ge => continue,
            _ => {}
        }

        // Get both versions
        let version_a = Version::from(entry.0).unwrap();
        let version_b = Version::from(entry.1).unwrap();

        // Determine what the result should be
        let result = match entry.2 {
            CompOp::Eq => true,
            _ => false,
        };

        // Test
        assert_eq!(version_a == version_b, result);
    }

    // Assert an exceptional case, compare to not equal
    assert!(Version::from("1.2").unwrap() != Version::from("1.2.3").unwrap());
}
