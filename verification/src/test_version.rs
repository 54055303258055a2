//! A version string paired with metadata, for use in test tables.

use vstd::prelude::*;

verus! {

/// Struct containing a version number with some metadata.
/// Such a set can be used for testing.
///
/// The fields are the version string and its number of version parts.
pub struct TestVersion(pub &'static str, pub usize);

} // verus!
