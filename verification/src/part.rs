//! The `Part` enum: the simple numeric-or-text view of a version piece.

use vstd::prelude::*;

use crate::chars::dec_string_i64;
use crate::chars::spec_int_str;

verus! {

/// Enum of version string parts.
///
/// Each version string can be broken down into these parts when parsed.
#[derive(Debug, PartialEq)]
pub enum Part {
    /// Numeric part, most common in version strings.
    ///
    /// Holds the numerical value.
    Number(i32),
    /// A text part.
    ///
    /// These parts usually hold text with a yet unknown meaning.
    Text(String),
}

impl Part {
    /// The textual form of the part: the number in decimal, or the text
    /// itself.
    pub open spec fn spec_render(&self) -> Seq<char> {
        match self {
            Part::Number(n) => spec_int_str(*n as int),
            Part::Text(t) => t@,
        }
    }

    /// Render the part as text.
    pub fn render(&self) -> (r: String)
        ensures
            r@ == self.spec_render(),
    {
        match self {
            Part::Number(n) => dec_string_i64(*n as i64),
            Part::Text(t) => t.clone(),
        }
    }
}

} // verus!
