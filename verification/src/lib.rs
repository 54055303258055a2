//! Compare version numbers in any format, and test them against the six
//! relational operators.
//!
//! A version string such as `"1.2.3"`, `"1.2.3-dev"` or `"2021.1a1"` is parsed
//! into an ordered sequence of parts ([`VersionPart`]), and two parsed
//! [`Version`]s are compared part by part to a three-way result ([`CompOp`]).
//! Trailing parts of the longer version are compared against the empty value
//! of their own kind, so `"1.0.0"` equals `"1"` while `"1.2.3.4"` exceeds
//! `"1.2"`.

mod chars;
mod comp_op;
mod compare;
mod manifest;
mod part;
mod pep440;
mod parsers;
mod test_version;
mod test_version_set;
mod version;
mod version_compare;
mod version_part;

pub use crate::chars::char_is_alphanumeric;
pub use crate::chars::char_is_whitespace;
pub use crate::chars::spec_trim;
pub use crate::comp_op::CompOp;
pub use crate::compare::compare;
pub use crate::compare::compare_to;
pub use crate::manifest::Manifest;
pub use crate::part::Part;
pub use crate::parsers::default_parser;
pub use crate::parsers::spec_accepts;
pub use crate::parsers::spec_parts;
pub use crate::pep440::PEP440String;
pub use crate::test_version::TestVersion;
pub use crate::test_version_set::TestVersionSet;
pub use crate::version::lemma_compare_flip;
pub use crate::version::lemma_compare_reflexive;
pub use crate::version::lemma_trailing_zeros_equal;
pub use crate::version::spec_cmp_seq;
pub use crate::version::spec_zero_parts;
pub use crate::version::Version;
pub use crate::version_compare::VersionCompare;
pub use crate::version_part::PartModel;
pub use crate::version_part::ProvideEmptyImpl;
pub use crate::version_part::VersionPart;
