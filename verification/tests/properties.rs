use version_compare::compare;
use version_compare::Part;
use version_compare::ProvideEmptyImpl;
use version_compare::compare_to;
use version_compare::default_parser;
use version_compare::CompOp;
use version_compare::PEP440String;
use version_compare::Version;
use version_compare::VersionPart;

#[test]
fn zero_padding_equivalence() {
    assert_eq!(compare("1", "1.0.0"), Ok(CompOp::Eq));
    assert_eq!(compare("0.0.0", "0"), Ok(CompOp::Eq));
    assert_eq!(compare("", ""), Ok(CompOp::Eq));
}

#[test]
fn trailing_nonzero_ordering() {
    assert_eq!(compare("1.2.3.4", "1.2"), Ok(CompOp::Gt));
    assert_eq!(compare("1.2", "1.2.3.4"), Ok(CompOp::Lt));
}

#[test]
fn cross_type_numeric_dominance() {
    // A single large integer token outranks a multi-part numeric version at
    // the first part
    assert_eq!(compare("123", "1.2.3"), Ok(CompOp::Gt));
}

#[test]
fn operator_algebra() {
    let ops = [CompOp::Eq, CompOp::Ne, CompOp::Lt, CompOp::Le, CompOp::Ge, CompOp::Gt];
    for op in ops {
        assert_eq!(op.invert().invert(), op);
        assert_eq!(op.opposite().opposite(), op);
        assert_eq!(op.flip().flip(), op);
    }
}

#[test]
fn satisfaction_of_equal_outcome() {
    // An `Eq` outcome satisfies `Eq`, `Le` and `Ge`, and not `Lt`
    assert_eq!(compare_to("1", "1", CompOp::Eq), Ok(true));
    assert_eq!(compare_to("1", "1", CompOp::Le), Ok(true));
    assert_eq!(compare_to("1", "1", CompOp::Ge), Ok(true));
    assert_eq!(compare_to("1", "1", CompOp::Lt), Ok(false));
}

#[test]
fn compare_to_matches_compare() {
    let ops = [CompOp::Eq, CompOp::Ne, CompOp::Lt, CompOp::Le, CompOp::Ge, CompOp::Gt];
    let pairs = [("1.2", "1.5.1"), ("1.2.3", "1.2.3"), ("1", "0.1"), ("", "0.1")];
    for (a, b) in pairs {
        let outcome = compare(a, b).unwrap();
        for op in ops {
            let expected = match outcome {
                CompOp::Eq => op == CompOp::Eq || op == CompOp::Le || op == CompOp::Ge,
                CompOp::Lt => op == CompOp::Ne || op == CompOp::Lt || op == CompOp::Le,
                CompOp::Gt => op == CompOp::Ne || op == CompOp::Gt || op == CompOp::Ge,
                _ => unreachable!(),
            };
            assert_eq!(compare_to(a, b, op), Ok(expected));
        }
    }
}

#[test]
fn concrete_scenarios() {
    assert_eq!(compare("1.2", "1.5.1"), Ok(CompOp::Lt));
    assert_eq!(compare("1.2.3", "1.2.3"), Ok(CompOp::Eq));
    assert_eq!(compare("1", "0.1"), Ok(CompOp::Gt));
    assert_eq!(compare_to("1.2.3", "1.2", CompOp::Ne), Ok(true));

    // The empty string parses, with zero parts, and sorts below "0.1"
    assert_eq!(Version::from("").unwrap().part_count(), 0);
    assert_eq!(compare("", "0.1"), Ok(CompOp::Lt));
}

#[test]
fn rejects_versions_without_a_number() {
    assert!(compare("snapshot", "1").is_err());
    assert!(compare("1", "snapshot").is_err());
    assert!(compare_to("dev", "1.2.3", CompOp::Lt).is_err());
    assert!(Version::from("alpha.beta").is_none());
    assert!(Version::from("...").is_none());
}

#[test]
fn oversized_digit_runs_become_text() {
    // A digit run too large for a 32-bit integer is treated as text, so an
    // integer on the other side outranks it
    assert_eq!(compare("99999999999.1", "1.1"), Ok(CompOp::Lt));
    let ver = Version::from("4294967296.0").unwrap();
    assert!(matches!(ver.part(0), Ok(&VersionPart::LexicographicString(_))));
    assert!(matches!(ver.part(1), Ok(&VersionPart::Integer(0))));
}

#[test]
fn default_parser_splits_on_separators() {
    let parts = default_parser("1.2-3_4 5").unwrap();
    assert_eq!(parts.len(), 5);
    assert!(default_parser("-_ .").is_none());
    assert_eq!(default_parser("").unwrap().len(), 0);
}

#[test]
fn parse_with_custom_parser() {
    let ver = Version::parse("1.2.3", default_parser).unwrap();
    assert_eq!(ver.part_count(), 3);
    assert_eq!(ver.as_str(), "1.2.3");
}

#[test]
fn pep440_decomposition() {
    // The part decomposes into leading digits, letters, trailing digits
    let p = PEP440String::new("12ab34");
    assert_eq!(p.pre, 12);
    assert_eq!(p.alpha, "ab");
    assert_eq!(p.post, 34);

    let q = PEP440String::new("7");
    assert_eq!(q.pre, 7);
    assert_eq!(q.alpha, "");
    assert_eq!(q.post, 0);
}

#[test]
fn pep440_dev_sorts_below_release() {
    assert!(PEP440String::new("1dev") < PEP440String::new("1"));
    assert!(PEP440String::new("1") > PEP440String::new("1dev"));
}

#[test]
fn pep440_post_sorts_above_release() {
    assert!(PEP440String::new("1post") > PEP440String::new("1"));
    assert!(PEP440String::new("1") < PEP440String::new("1post"));
}

#[test]
fn pep440_three_tier_order() {
    // The numeric prefix decides first
    assert!(PEP440String::new("2dev") > PEP440String::new("1post"));
    // Equal prefixes and cores fall through to the numeric suffix
    assert!(PEP440String::new("1rc2") > PEP440String::new("1rc1"));
}

#[test]
fn pep440_parts_in_versions() {
    // A PEP440-style part ranks below plain text, and the empty sentinel
    // below everything
    assert!(
        VersionPart::LexicographicString("a".to_string())
            > VersionPart::PEP440String(PEP440String::new("1"))
    );
    assert!(VersionPart::PEP440String(PEP440String::new("0")) > VersionPart::Empty);
}

#[test]
fn epoch_outranks_text() {
    assert!(VersionPart::Epoch(0) > VersionPart::LexicographicString("abc".to_string()));
}

#[test]
fn get_empty_matches_kind() {
    assert_eq!(VersionPart::Integer(7).get_empty(), VersionPart::Integer(0));
    assert_eq!(VersionPart::Epoch(3).get_empty(), VersionPart::Epoch(0));
    assert_eq!(
        VersionPart::LexicographicString("xy".to_string()).get_empty(),
        VersionPart::LexicographicString(String::new())
    );
    assert_eq!(VersionPart::Empty.get_empty(), VersionPart::Empty);
}

#[test]
fn comparison_is_antisymmetric() {
    let pairs = [("1.2", "1.5.1"), ("1.2.3", "1.2.3.alpha"), ("7.2p1", "7.1"), ("", "0.1")];
    for (a, b) in pairs {
        let forward = compare(a, b).unwrap();
        let backward = compare(b, a).unwrap();
        assert_eq!(forward, backward.flip());
    }
}

#[test]
fn part_render_values() {
    assert_eq!(Part::Number(0).render(), "0");
    assert_eq!(Part::Number(-45).render(), "-45");
    assert_eq!(Part::Number(2147483647).render(), "2147483647");
    assert_eq!(Part::Text("alpha".to_string()).render(), "alpha");
}
