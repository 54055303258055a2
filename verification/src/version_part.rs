//! Version parts: the atomic pieces of a parsed version string.
//!
//! Parts of the same kind compare by value; parts of different kinds compare
//! by a fixed priority ranking, most significant first: epoch, then integer,
//! then text, then PEP440-style text, then the empty sentinel. The sentinel
//! never appears in a parsed version; it only pads the shorter side during
//! whole-version comparison.

use vstd::prelude::*;
use vstd::string::StrSliceExecFns;

use crate::chars::dec_string_i64;
use crate::chars::lemma_lex_cmp_flip;
use crate::chars::lemma_lex_cmp_reflexive;
use crate::chars::lemma_lex_cmp_three_way;
use crate::chars::spec_int_str;
use crate::chars::spec_lex_cmp;
use crate::chars::str_lex_cmp;
use crate::comp_op::CompOp;
use crate::pep440::lemma_pep_cmp3_flip;
use crate::pep440::lemma_pep_cmp3_reflexive;
use crate::pep440::lemma_pep_cmp3_three_way;
use crate::pep440::pep_cmp;
use crate::pep440::spec_pep_cmp3;
use crate::pep440::PEP440String;

verus! {

/// One part of a version string.
#[derive(Debug, Clone)]
pub enum VersionPart {
    /// An explicit generation marker that outranks every ordinary part.
    Epoch(i16),
    /// A numeric part, parsed in base 10.
    Integer(i32),
    /// A textual part, compared lexicographically by code point.
    LexicographicString(String),
    /// A PEP440-style part with its own three-tier ordering.
    PEP440String(PEP440String),
    /// The padding sentinel; never produced by parsing.
    Empty,
}

/// The mathematical model of one version part.
pub enum PartModel {
    /// Model of `VersionPart::Epoch`.
    Epoch(int),
    /// Model of `VersionPart::Integer`.
    Integer(int),
    /// Model of `VersionPart::LexicographicString`.
    LexicographicString(Seq<char>),
    /// Model of `VersionPart::PEP440String`: numeric prefix, core, suffix.
    PEP440String(int, Seq<char>, int),
    /// Model of `VersionPart::Empty`.
    Empty,
}

impl DeepView for VersionPart {
    type V = PartModel;

    open spec fn deep_view(&self) -> PartModel {
        match self {
            VersionPart::Epoch(e) => PartModel::Epoch(*e as int),
            VersionPart::Integer(i) => PartModel::Integer(*i as int),
            VersionPart::LexicographicString(s) => PartModel::LexicographicString(s@),
            VersionPart::PEP440String(p) => PartModel::PEP440String(
                p.pre as int,
                p.alpha@,
                p.post as int,
            ),
            VersionPart::Empty => PartModel::Empty,
        }
    }
}

/// Three-way comparison of two integers.
pub open spec fn spec_three_way(a: int, b: int) -> CompOp {
    if a < b {
        CompOp::Lt
    } else if a > b {
        CompOp::Gt
    } else {
        CompOp::Eq
    }
}

/// The priority rank of a part kind; a lower rank outranks a higher one.
pub open spec fn spec_rank(p: PartModel) -> int {
    match p {
        PartModel::Epoch(_) => 0,
        PartModel::Integer(_) => 1,
        PartModel::LexicographicString(_) => 2,
        PartModel::PEP440String(..) => 3,
        PartModel::Empty => 4,
    }
}

/// Pairwise comparison of two parts: same-kind parts compare by value, and
/// parts of different kinds compare by rank, the higher-priority kind
/// winning regardless of value.
pub open spec fn spec_cmp_parts(a: PartModel, b: PartModel) -> CompOp {
    match (a, b) {
        (PartModel::Epoch(x), PartModel::Epoch(y)) => spec_three_way(x, y),
        (PartModel::Integer(x), PartModel::Integer(y)) => spec_three_way(x, y),
        (PartModel::LexicographicString(x), PartModel::LexicographicString(y)) => spec_lex_cmp(
            x,
            y,
        ),
        (PartModel::PEP440String(p1, a1, q1), PartModel::PEP440String(p2, a2, q2)) => spec_pep_cmp3(
            p1,
            a1,
            q1,
            p2,
            a2,
            q2,
        ),
        _ => spec_three_way(spec_rank(b), spec_rank(a)),
    }
}

/// The type-matched empty counterpart of a part: zero for the numeric kinds,
/// the empty string for the textual kinds, and the sentinel for itself.
pub open spec fn spec_empty_model(p: PartModel) -> PartModel {
    match p {
        PartModel::Epoch(_) => PartModel::Epoch(0),
        PartModel::Integer(_) => PartModel::Integer(0),
        PartModel::LexicographicString(_) => PartModel::LexicographicString(Seq::empty()),
        PartModel::PEP440String(..) => PartModel::PEP440String(0, Seq::empty(), 0),
        PartModel::Empty => PartModel::Empty,
    }
}

/// Comparison of a trailing part against its own type-matched empty
/// counterpart, which stands in for the exhausted side.
pub open spec fn spec_cmp_tail(p: PartModel) -> CompOp {
    match p {
        PartModel::Epoch(x) => spec_three_way(x, 0),
        PartModel::Integer(x) => spec_three_way(x, 0),
        PartModel::LexicographicString(s) => spec_lex_cmp(s, Seq::empty()),
        PartModel::PEP440String(pre, alpha, post) => spec_pep_cmp3(
            pre,
            alpha,
            post,
            0,
            Seq::empty(),
            0,
        ),
        PartModel::Empty => CompOp::Eq,
    }
}

/// The trailing comparison is exactly the pairwise comparison against the
/// type-matched empty counterpart.
pub proof fn lemma_cmp_tail_agrees(p: PartModel)
    ensures
        spec_cmp_parts(p, spec_empty_model(p)) == spec_cmp_tail(p),
{
}

/// Holding the empty counterpart on the left against a trailing part is the
/// flip of the trailing comparison.
pub proof fn lemma_cmp_empty_against(p: PartModel)
    ensures
        spec_cmp_parts(spec_empty_model(p), p) == spec_cmp_tail(p).spec_flip(),
{
    lemma_cmp_tail_agrees(p);
    lemma_cmp_parts_flip(spec_empty_model(p), p);
    lemma_cmp_parts_three_way(p, spec_empty_model(p));
}

/// Comparing a part with itself yields `Eq`.
pub proof fn lemma_cmp_parts_reflexive(p: PartModel)
    ensures
        spec_cmp_parts(p, p) == CompOp::Eq,
{
    match p {
        PartModel::LexicographicString(s) => lemma_lex_cmp_reflexive(s),
        PartModel::PEP440String(pre, alpha, post) => lemma_pep_cmp3_reflexive(pre, alpha, post),
        _ => {},
    }
}

/// Swapping the operands of a part comparison flips the outcome.
pub proof fn lemma_cmp_parts_flip(a: PartModel, b: PartModel)
    ensures
        spec_cmp_parts(a, b) == spec_cmp_parts(b, a).spec_flip(),
{
    match (a, b) {
        (PartModel::LexicographicString(x), PartModel::LexicographicString(y)) => {
            lemma_lex_cmp_flip(x, y);
            lemma_lex_cmp_flip(y, x);
        },
        (PartModel::PEP440String(p1, a1, q1), PartModel::PEP440String(p2, a2, q2)) => {
            lemma_pep_cmp3_flip(p1, a1, q1, p2, a2, q2);
            lemma_pep_cmp3_flip(p2, a2, q2, p1, a1, q1);
        },
        _ => {},
    }
}

/// A part comparison yields one of `Lt`, `Eq`, `Gt`.
pub proof fn lemma_cmp_parts_three_way(a: PartModel, b: PartModel)
    ensures
        ({
            let c = spec_cmp_parts(a, b);
            c == CompOp::Lt || c == CompOp::Eq || c == CompOp::Gt
        }),
{
    match (a, b) {
        (PartModel::LexicographicString(x), PartModel::LexicographicString(y)) => {
            lemma_lex_cmp_three_way(x, y);
        },
        (PartModel::PEP440String(p1, a1, q1), PartModel::PEP440String(p2, a2, q2)) => {
            lemma_pep_cmp3_three_way(p1, a1, q1, p2, a2, q2);
        },
        _ => {},
    }
}

/// A trailing comparison yields one of `Lt`, `Eq`, `Gt`.
pub proof fn lemma_cmp_tail_three_way(p: PartModel)
    ensures
        ({
            let c = spec_cmp_tail(p);
            c == CompOp::Lt || c == CompOp::Eq || c == CompOp::Gt
        }),
{
    lemma_cmp_tail_agrees(p);
    lemma_cmp_parts_three_way(p, spec_empty_model(p));
}

/// The priority rank of a part.
fn rank_of(p: &VersionPart) -> (r: u8)
    ensures
        r as int == spec_rank(p.deep_view()),
{
    match p {
        VersionPart::Epoch(_) => 0,
        VersionPart::Integer(_) => 1,
        VersionPart::LexicographicString(_) => 2,
        VersionPart::PEP440String(_) => 3,
        VersionPart::Empty => 4,
    }
}

/// Compare two parts pairwise.
pub fn cmp_parts(a: &VersionPart, b: &VersionPart) -> (r: CompOp)
    ensures
        r == spec_cmp_parts(a.deep_view(), b.deep_view()),
{
    match (a, b) {
        (VersionPart::Epoch(x), VersionPart::Epoch(y)) => {
            if *x < *y {
                CompOp::Lt
            } else if *x > *y {
                CompOp::Gt
            } else {
                CompOp::Eq
            }
        },
        (VersionPart::Integer(x), VersionPart::Integer(y)) => {
            if *x < *y {
                CompOp::Lt
            } else if *x > *y {
                CompOp::Gt
            } else {
                CompOp::Eq
            }
        },
        (VersionPart::LexicographicString(x), VersionPart::LexicographicString(y)) => {
            str_lex_cmp(x.as_str(), y.as_str())
        },
        (VersionPart::PEP440String(x), VersionPart::PEP440String(y)) => pep_cmp(x, y),
        _ => {
            let ra = rank_of(a);
            let rb = rank_of(b);
            if rb < ra {
                CompOp::Lt
            } else if rb > ra {
                CompOp::Gt
            } else {
                CompOp::Eq
            }
        },
    }
}

/// Compare a trailing part against its own type-matched empty counterpart.
pub fn cmp_tail(p: &VersionPart) -> (r: CompOp)
    ensures
        r == spec_cmp_tail(p.deep_view()),
{
    match p {
        VersionPart::Epoch(x) => {
            if *x < 0 {
                CompOp::Lt
            } else if *x > 0 {
                CompOp::Gt
            } else {
                CompOp::Eq
            }
        },
        VersionPart::Integer(x) => {
            if *x < 0 {
                CompOp::Lt
            } else if *x > 0 {
                CompOp::Gt
            } else {
                CompOp::Eq
            }
        },
        VersionPart::LexicographicString(s) => {
            if s.as_str().unicode_len() == 0 {
                CompOp::Eq
            } else {
                CompOp::Gt
            }
        },
        VersionPart::PEP440String(x) => {
            let e = PEP440String::empty();
            pep_cmp(x, &e)
        },
        VersionPart::Empty => CompOp::Eq,
    }
}

/// Provide the type-matched empty part: the missing counterpart a part is
/// held against when the other version has run out of parts.
pub trait ProvideEmptyImpl {
    /// The model of the empty part this one is padded with.
    spec fn spec_empty(&self) -> PartModel;

    /// The type-matched empty part.
    fn get_empty(&self) -> (r: VersionPart)
        ensures
            r.deep_view() == self.spec_empty(),
    ;
}

impl ProvideEmptyImpl for VersionPart {
    open spec fn spec_empty(&self) -> PartModel {
        spec_empty_model(self.deep_view())
    }

    fn get_empty(&self) -> (r: VersionPart)
        ensures
            r.deep_view() == self.spec_empty(),
    {
        match self {
            VersionPart::Epoch(_) => VersionPart::Epoch(0),
            VersionPart::Integer(_) => VersionPart::Integer(0),
            VersionPart::LexicographicString(_) => VersionPart::LexicographicString(String::new()),
            VersionPart::PEP440String(_) => VersionPart::PEP440String(PEP440String::empty()),
            VersionPart::Empty => VersionPart::Empty,
        }
    }
}

/// The debug text of one part: its kind name around its value.
pub open spec fn spec_part_debug(m: PartModel) -> Seq<char> {
    match m {
        PartModel::Epoch(e) => "Epoch("@ + spec_int_str(e) + ")"@,
        PartModel::Integer(i) => "Integer("@ + spec_int_str(i) + ")"@,
        PartModel::LexicographicString(s) => "LexicographicString("@ + s + ")"@,
        PartModel::PEP440String(pre, alpha, post) => "PEP440String("@ + spec_int_str(pre) + alpha
            + spec_int_str(post) + ")"@,
        PartModel::Empty => "Empty"@,
    }
}

impl VersionPart {
    /// Render the part as its debug text, such as `Integer(1)`.
    pub fn debug_text(&self) -> (r: String)
        ensures
            r@ == spec_part_debug(self.deep_view()),
    {
        let mut s = String::new();
        match self {
            VersionPart::Epoch(e) => {
                s.append("Epoch(");
                let num = dec_string_i64(*e as i64);
                s.append(num.as_str());
                s.append(")");
            },
            VersionPart::Integer(i) => {
                s.append("Integer(");
                let num = dec_string_i64(*i as i64);
                s.append(num.as_str());
                s.append(")");
            },
            VersionPart::LexicographicString(t) => {
                s.append("LexicographicString(");
                s.append(t.as_str());
                s.append(")");
            },
            VersionPart::PEP440String(p) => {
                s.append("PEP440String(");
                let pre = dec_string_i64(p.pre as i64);
                s.append(pre.as_str());
                s.append(p.alpha.as_str());
                let post = dec_string_i64(p.post as i64);
                s.append(post.as_str());
                s.append(")");
            },
            VersionPart::Empty => {
                s.append("Empty");
            },
        }
        proof {
            assert(s@ =~= spec_part_debug(self.deep_view()));
        }
        s
    }
}

/// The expanded debug text of one part, as it stands inside the expanded
/// part list: indented, with its value on a line of its own.
pub open spec fn spec_part_debug_alternate(m: PartModel) -> Seq<char> {
    match m {
        PartModel::Epoch(e) => "    Epoch(\n        "@ + spec_int_str(e) + ",\n    ),\n"@,
        PartModel::Integer(i) => "    Integer(\n        "@ + spec_int_str(i) + ",\n    ),\n"@,
        PartModel::LexicographicString(s) => "    LexicographicString(\n        "@ + s
            + ",\n    ),\n"@,
        PartModel::PEP440String(pre, alpha, post) => "    PEP440String(\n        "@ + spec_int_str(
            pre,
        ) + alpha + spec_int_str(post) + ",\n    ),\n"@,
        PartModel::Empty => "    Empty,\n"@,
    }
}

impl VersionPart {
    /// Render the part in the expanded debug form used inside an expanded
    /// part list.
    pub fn debug_text_alternate(&self) -> (r: String)
        ensures
            r@ == spec_part_debug_alternate(self.deep_view()),
    {
        let mut s = String::new();
        match self {
            VersionPart::Epoch(e) => {
                s.append("    Epoch(\n        ");
                let num = dec_string_i64(*e as i64);
                s.append(num.as_str());
                s.append(",\n    ),\n");
            },
            VersionPart::Integer(i) => {
                s.append("    Integer(\n        ");
                let num = dec_string_i64(*i as i64);
                s.append(num.as_str());
                s.append(",\n    ),\n");
            },
            VersionPart::LexicographicString(t) => {
                s.append("    LexicographicString(\n        ");
                s.append(t.as_str());
                s.append(",\n    ),\n");
            },
            VersionPart::PEP440String(p) => {
                s.append("    PEP440String(\n        ");
                let pre = dec_string_i64(p.pre as i64);
                s.append(pre.as_str());
                s.append(p.alpha.as_str());
                let post = dec_string_i64(p.post as i64);
                s.append(post.as_str());
                s.append(",\n    ),\n");
            },
            VersionPart::Empty => {
                s.append("    Empty,\n");
            },
        }
        proof {
            assert(s@ =~= spec_part_debug_alternate(self.deep_view()));
        }
        s
    }
}

impl PartialEq for VersionPart {
    /// Two parts are equal when their pairwise comparison is `Eq`.
    fn eq(&self, other: &Self) -> bool {
        cmp_parts(self, other) == CompOp::Eq
    }
}

impl vstd::std_specs::cmp::PartialEqSpecImpl for VersionPart {
    open spec fn obeys_eq_spec() -> bool {
        true
    }

    open spec fn eq_spec(&self, other: &Self) -> bool {
        spec_cmp_parts(self.deep_view(), other.deep_view()) == CompOp::Eq
    }
}

impl PartialOrd for VersionPart {
    /// Parts are ordered by their pairwise comparison.
    fn partial_cmp(&self, other: &Self) -> Option<core::cmp::Ordering> {
        proof {
            lemma_cmp_parts_three_way(self.deep_view(), other.deep_view());
        }
        match cmp_parts(self, other) {
            CompOp::Lt => Some(core::cmp::Ordering::Less),
            CompOp::Gt => Some(core::cmp::Ordering::Greater),
            _ => Some(core::cmp::Ordering::Equal),
        }
    }
}

impl vstd::std_specs::cmp::PartialOrdSpecImpl for VersionPart {
    open spec fn obeys_partial_cmp_spec() -> bool {
        true
    }

    open spec fn partial_cmp_spec(&self, other: &Self) -> Option<core::cmp::Ordering> {
        match spec_cmp_parts(self.deep_view(), other.deep_view()) {
            CompOp::Lt => Some(core::cmp::Ordering::Less),
            CompOp::Gt => Some(core::cmp::Ordering::Greater),
            _ => Some(core::cmp::Ordering::Equal),
        }
    }
}

} // verus!
