//! The version manifest: configuration for parsing and comparing.

use vstd::prelude::*;

verus! {

/// Version manifest (configuration).
///
/// A manifest that is consulted when parsing and comparing version strings.
#[derive(Debug, Clone)]
pub struct Manifest {
    /// The maximum depth of a version number.
    ///
    /// This specifies the maximum number of parts. There is no limit if
    /// `None` is set.
    pub max_depth: Option<usize>,

    /// Whether to ignore text parts in version strings.
    pub ignore_text: bool,
}

impl Manifest {
    /// Check whether a maximum depth is configured: a depth is set and it is
    /// greater than zero.
    pub fn has_max_depth(&self) -> (r: bool)
        ensures
            r == (match self.max_depth {
                Some(d) => d > 0,
                None => false,
            }),
    {
        match self.max_depth {
            Some(d) => d > 0,
            None => false,
        }
    }
}

impl Default for Manifest {
    /// The default manifest: no maximum depth, text parts kept.
    fn default() -> (r: Self)
        ensures
            r.max_depth is None,
            !r.ignore_text,
    {
        Manifest { max_depth: None, ignore_text: false }
    }
}

} // verus!
