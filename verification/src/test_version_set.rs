//! A pair of version strings and their expected ordering, for test tables.

use vstd::prelude::*;

use crate::comp_op::CompOp;

verus! {

/// Struct containing two version numbers, and the comparison operator that
/// relates them. Such a set can be used for testing.
///
/// The fields are the main version, the other version, and the comparison
/// operator.
pub struct TestVersionSet(pub &'static str, pub &'static str, pub CompOp);

} // verus!
