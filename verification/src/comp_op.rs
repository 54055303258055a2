//! The six comparison operators and their algebra.

use vstd::prelude::*;

use crate::chars::chars_of;
use crate::chars::spec_trim;
use crate::chars::trim_window;

verus! {

/// Comparison operators.
#[derive(Debug, Clone, Copy, PartialEq, Eq, Structural)]
pub enum CompOp {
    /// Equal to. (==)
    Eq,
    /// Not equal to. (!=)
    Ne,
    /// Less than. (<)
    Lt,
    /// Less than or equal to. (<=)
    Le,
    /// Greater than or equal to. (>=)
    Ge,
    /// Greater than. (>)
    Gt,
}

/// Whether `c` is `lower`, or its ASCII uppercase form.
pub open spec fn ascii_matches_lower(c: char, lower: char) -> bool {
    c == lower || (65 <= (c as int) && (c as int) <= 90 && (c as int) + 32 == (lower as int))
}

/// Whether `t` spells the two lowercase letters `a`, `b`, ASCII
/// case-insensitively.
pub open spec fn spells_nocase(t: Seq<char>, a: char, b: char) -> bool {
    t.len() == 2 && ascii_matches_lower(t[0], a) && ascii_matches_lower(t[1], b)
}

impl CompOp {
    /// The operator a trimmed sign string denotes, if any.
    pub open spec fn spec_from_sign(t: Seq<char>) -> Result<CompOp, ()> {
        if t == seq!['=', '='] {
            Ok(CompOp::Eq)
        } else if t == seq!['!', '='] {
            Ok(CompOp::Ne)
        } else if t == seq!['<'] {
            Ok(CompOp::Lt)
        } else if t == seq!['<', '='] {
            Ok(CompOp::Le)
        } else if t == seq!['>', '='] {
            Ok(CompOp::Ge)
        } else if t == seq!['>'] {
            Ok(CompOp::Gt)
        } else {
            Err(())
        }
    }

    /// The operator a trimmed name string denotes, ASCII case-insensitively,
    /// if any.
    pub open spec fn spec_from_name(t: Seq<char>) -> Result<CompOp, ()> {
        if spells_nocase(t, 'e', 'q') {
            Ok(CompOp::Eq)
        } else if spells_nocase(t, 'n', 'e') {
            Ok(CompOp::Ne)
        } else if spells_nocase(t, 'l', 't') {
            Ok(CompOp::Lt)
        } else if spells_nocase(t, 'l', 'e') {
            Ok(CompOp::Le)
        } else if spells_nocase(t, 'g', 'e') {
            Ok(CompOp::Ge)
        } else if spells_nocase(t, 'g', 't') {
            Ok(CompOp::Gt)
        } else {
            Err(())
        }
    }

    /// The inverted operator: same question, opposite truth.
    pub open spec fn spec_invert(self) -> CompOp {
        match self {
            CompOp::Eq => CompOp::Ne,
            CompOp::Ne => CompOp::Eq,
            CompOp::Lt => CompOp::Ge,
            CompOp::Le => CompOp::Gt,
            CompOp::Ge => CompOp::Lt,
            CompOp::Gt => CompOp::Le,
        }
    }

    /// The opposite operator: swapped direction, same strictness.
    pub open spec fn spec_opposite(self) -> CompOp {
        match self {
            CompOp::Eq => CompOp::Ne,
            CompOp::Ne => CompOp::Eq,
            CompOp::Lt => CompOp::Gt,
            CompOp::Le => CompOp::Ge,
            CompOp::Ge => CompOp::Le,
            CompOp::Gt => CompOp::Lt,
        }
    }

    /// The operator as seen with the operands swapped.
    pub open spec fn spec_flip(self) -> CompOp {
        match self {
            CompOp::Lt => CompOp::Gt,
            CompOp::Le => CompOp::Ge,
            CompOp::Ge => CompOp::Le,
            CompOp::Gt => CompOp::Lt,
            _ => self,
        }
    }

    /// The canonical sign of the operator.
    pub open spec fn spec_sign(self) -> Seq<char> {
        match self {
            CompOp::Eq => "=="@,
            CompOp::Ne => "!="@,
            CompOp::Lt => "<"@,
            CompOp::Le => "<="@,
            CompOp::Ge => ">="@,
            CompOp::Gt => ">"@,
        }
    }

    /// The canonical lowercase name of the operator.
    pub open spec fn spec_name(self) -> Seq<char> {
        match self {
            CompOp::Eq => "eq"@,
            CompOp::Ne => "ne"@,
            CompOp::Lt => "lt"@,
            CompOp::Le => "le"@,
            CompOp::Ge => "ge"@,
            CompOp::Gt => "gt"@,
        }
    }

    /// The numeric factor of the operator.
    pub open spec fn spec_factor(self) -> int {
        match self {
            CompOp::Eq | CompOp::Ne => 0,
            CompOp::Lt | CompOp::Le => -1,
            CompOp::Gt | CompOp::Ge => 1,
        }
    }

    /// Whether a three-way comparison outcome `self` is consistent with the
    /// requested operator `op`. Only `Lt`, `Eq` and `Gt` describe an outcome;
    /// for the other operators in outcome position this is false.
    pub open spec fn spec_satisfies(self, op: CompOp) -> bool {
        match self {
            CompOp::Eq => op == CompOp::Eq || op == CompOp::Le || op == CompOp::Ge,
            CompOp::Lt => op == CompOp::Ne || op == CompOp::Lt || op == CompOp::Le,
            CompOp::Gt => op == CompOp::Ne || op == CompOp::Gt || op == CompOp::Ge,
            _ => false,
        }
    }

    /// Get a comparison operator by its sign, such as `"=="` or `">="`.
    /// Whitespace is stripped from both ends of the sign string.
    /// An error is returned if the sign isn't recognized.
    pub fn from_sign(sign: &str) -> (r: Result<CompOp, ()>)
        ensures
            r == CompOp::spec_from_sign(spec_trim(sign@)),
    {
        let v = chars_of(sign);
        let (lo, hi) = trim_window(&v);
        let ghost t = spec_trim(sign@);
        proof {
            assert(t.len() == hi - lo);
        }
        if hi - lo == 1 {
            let c = v[lo];
            proof {
                assert(t.len() == 1 && t[0] == c);
                assert(c == '<' ==> t =~= seq!['<']);
                assert(c == '>' ==> t =~= seq!['>']);
            }
            match c {
                '<' => Ok(CompOp::Lt),
                '>' => Ok(CompOp::Gt),
                _ => Err(()),
            }
        } else if hi - lo == 2 {
            let c0 = v[lo];
            let c1 = v[lo + 1];
            proof {
                assert(t.len() == 2 && t[0] == c0 && t[1] == c1);
                assert(c0 == '=' && c1 == '=' ==> t =~= seq!['=', '=']);
                assert(c0 == '!' && c1 == '=' ==> t =~= seq!['!', '=']);
                assert(c0 == '<' && c1 == '=' ==> t =~= seq!['<', '=']);
                assert(c0 == '>' && c1 == '=' ==> t =~= seq!['>', '=']);
            }
            match (c0, c1) {
                ('=', '=') => Ok(CompOp::Eq),
                ('!', '=') => Ok(CompOp::Ne),
                ('<', '=') => Ok(CompOp::Le),
                ('>', '=') => Ok(CompOp::Ge),
                _ => Err(()),
            }
        } else {
            Err(())
        }
    }

    /// Get a comparison operator by its name, such as `"eq"` or `"ge"`.
    /// Names match ASCII case-insensitively, and whitespace is stripped from
    /// both ends of the string.
    /// An error is returned if the name isn't recognized.
    pub fn from_name(sign: &str) -> (r: Result<CompOp, ()>)
        ensures
            r == CompOp::spec_from_name(spec_trim(sign@)),
    {
        let v = chars_of(sign);
        let (lo, hi) = trim_window(&v);
        let ghost t = spec_trim(sign@);
        if hi - lo == 2 {
            let c0 = v[lo];
            let c1 = v[lo + 1];
            proof {
                assert(t.len() == 2 && t[0] == c0 && t[1] == c1);
            }
            if matches_lower(c0, 'e') && matches_lower(c1, 'q') {
                Ok(CompOp::Eq)
            } else if matches_lower(c0, 'n') && matches_lower(c1, 'e') {
                Ok(CompOp::Ne)
            } else if matches_lower(c0, 'l') && matches_lower(c1, 't') {
                Ok(CompOp::Lt)
            } else if matches_lower(c0, 'l') && matches_lower(c1, 'e') {
                Ok(CompOp::Le)
            } else if matches_lower(c0, 'g') && matches_lower(c1, 'e') {
                Ok(CompOp::Ge)
            } else if matches_lower(c0, 'g') && matches_lower(c1, 't') {
                Ok(CompOp::Gt)
            } else {
                Err(())
            }
        } else {
            Err(())
        }
    }

    /// Get the name of this comparison operator, such as `"eq"`.
    pub fn name(&self) -> (r: &str)
        ensures
            r@ == self.spec_name(),
    {
        match self {
            CompOp::Eq => "eq",
            CompOp::Ne => "ne",
            CompOp::Lt => "lt",
            CompOp::Le => "le",
            CompOp::Ge => "ge",
            CompOp::Gt => "gt",
        }
    }

    /// Convert to the inverted comparison operator.
    ///
    /// This uses the following bidirectional rules:
    /// - Eq <-> Ne
    /// - Lt <-> Ge
    /// - Le <-> Gt
    pub fn as_inverted(self) -> (r: Self)
        ensures
            r == self.spec_invert(),
    {
        self.invert()
    }

    /// Get the inverted comparison operator.
    ///
    /// This uses the following bidirectional rules:
    /// - Eq <-> Ne
    /// - Lt <-> Ge
    /// - Le <-> Gt
    pub fn invert(&self) -> (r: Self)
        ensures
            r == self.spec_invert(),
    {
        match self {
            CompOp::Eq => CompOp::Ne,
            CompOp::Ne => CompOp::Eq,
            CompOp::Lt => CompOp::Ge,
            CompOp::Le => CompOp::Gt,
            CompOp::Ge => CompOp::Lt,
            CompOp::Gt => CompOp::Le,
        }
    }

    /// Convert to the opposite comparison operator.
    ///
    /// This uses the following bidirectional rules:
    /// - Eq <-> Ne
    /// - Lt <-> Gt
    /// - Le <-> Ge
    pub fn as_opposite(self) -> (r: Self)
        ensures
            r == self.spec_opposite(),
    {
        self.opposite()
    }

    /// Get the opposite comparison operator.
    ///
    /// This uses the following bidirectional rules:
    /// - Eq <-> Ne
    /// - Lt <-> Gt
    /// - Le <-> Ge
    pub fn opposite(&self) -> (r: Self)
        ensures
            r == self.spec_opposite(),
    {
        match self {
            CompOp::Eq => CompOp::Ne,
            CompOp::Ne => CompOp::Eq,
            CompOp::Lt => CompOp::Gt,
            CompOp::Le => CompOp::Ge,
            CompOp::Ge => CompOp::Le,
            CompOp::Gt => CompOp::Lt,
        }
    }

    /// Convert to the flipped comparison operator.
    ///
    /// This uses the following bidirectional rules:
    /// - Lt <-> Gt
    /// - Le <-> Ge
    /// - Other operators are returned as is.
    pub fn as_flipped(self) -> (r: Self)
        ensures
            r == self.spec_flip(),
    {
        self.flip()
    }

    /// Get the flipped comparison operator.
    ///
    /// This uses the following bidirectional rules:
    /// - Lt <-> Gt
    /// - Le <-> Ge
    /// - Other operators are returned as is.
    pub fn flip(&self) -> (r: Self)
        ensures
            r == self.spec_flip(),
    {
        match self {
            CompOp::Lt => CompOp::Gt,
            CompOp::Le => CompOp::Ge,
            CompOp::Ge => CompOp::Le,
            CompOp::Gt => CompOp::Lt,
            CompOp::Eq => CompOp::Eq,
            CompOp::Ne => CompOp::Ne,
        }
    }

    /// Get the sign for this comparison operator, such as `"=="`.
    pub fn sign(&self) -> (r: &'static str)
        ensures
            r@ == self.spec_sign(),
    {
        match self {
            CompOp::Eq => "==",
            CompOp::Ne => "!=",
            CompOp::Lt => "<",
            CompOp::Le => "<=",
            CompOp::Ge => ">=",
            CompOp::Gt => ">",
        }
    }

    /// Get a factor (number) for this comparison operator: `0` for `Eq` and
    /// `Ne`, `-1` for `Lt` and `Le`, `1` for `Gt` and `Ge`.
    pub fn factor(&self) -> (r: i8)
        ensures
            r as int == self.spec_factor(),
    {
        match self {
            CompOp::Eq | CompOp::Ne => 0,
            CompOp::Lt | CompOp::Le => -1,
            CompOp::Gt | CompOp::Ge => 1,
        }
    }
}

/// Whether `c` is `lower` or its ASCII uppercase form.
fn matches_lower(c: char, lower: char) -> (r: bool)
    ensures
        r == ascii_matches_lower(c, lower),
{
    c == lower || (65 <= c as u32 && c as u32 <= 90 && c as u32 + 32 == lower as u32)
}

/// Inverting an operator twice yields the operator again.
pub proof fn lemma_invert_involution(op: CompOp)
    ensures
        op.spec_invert().spec_invert() == op,
{
}

/// Taking the opposite operator twice yields the operator again.
pub proof fn lemma_opposite_involution(op: CompOp)
    ensures
        op.spec_opposite().spec_opposite() == op,
{
}

/// Flipping an operator twice yields the operator again.
pub proof fn lemma_flip_involution(op: CompOp)
    ensures
        op.spec_flip().spec_flip() == op,
{
}

} // verus!
