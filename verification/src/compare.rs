//! Standalone comparison of version number strings.

use vstd::prelude::*;

use crate::comp_op::CompOp;
use crate::parsers::spec_accepts;
use crate::parsers::spec_parts;
use crate::version::spec_cmp_seq;
use crate::version::Version;

verus! {

/// Compare two version number strings to each other.
/// This compares version `a` to version `b`, and returns whether version `a`
/// is greater, less or equal to version `b`: one of `Cmp::Lt`, `Cmp::Eq`
/// and `Cmp::Gt`.
///
/// The two given version numbers must be valid, or an error is returned.
pub fn compare(a: &str, b: &str) -> (r: Result<CompOp, ()>)
    ensures
        (match r {
            Ok(c) => spec_accepts(a@) && spec_accepts(b@) && c == spec_cmp_seq(
                spec_parts(a@),
                spec_parts(b@),
            ),
            Err(()) => !spec_accepts(a@) || !spec_accepts(b@),
        }),
{
    let a_ver = Version::from(a);
    let b_ver = Version::from(b);
    match (a_ver, b_ver) {
        (Some(av), Some(bv)) => Ok(av.compare(&bv)),
        _ => Err(()),
    }
}

/// Compare two version number strings to each other and check whether the
/// given comparison `operator` is satisfied by the outcome.
///
/// The two given version numbers must be valid, or an error is returned.
pub fn compare_to(a: &str, b: &str, operator: CompOp) -> (r: Result<bool, ()>)
    ensures
        (match r {
            Ok(ok) => spec_accepts(a@) && spec_accepts(b@) && ok == spec_cmp_seq(
                spec_parts(a@),
                spec_parts(b@),
            ).spec_satisfies(operator),
            Err(()) => !spec_accepts(a@) || !spec_accepts(b@),
        }),
{
    let a_ver = Version::from(a);
    let b_ver = Version::from(b);
    match (a_ver, b_ver) {
        (Some(av), Some(bv)) => Ok(av.compare_to(&bv, &operator)),
        _ => Err(()),
    }
}

} // verus!
