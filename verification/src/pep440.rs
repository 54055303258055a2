//! PEP440-style version parts: leading digits, a keyword, trailing digits.
//!
//! A part such as `"2dev1"` decomposes into a numeric prefix, an alphabetic
//! core and a numeric suffix. Ordering is three-tiered: the prefixes decide
//! first; equal prefixes fall through to a keyword-aware comparison of the
//! cores, where a side containing `"dev"` sorts below a release and a side
//! containing `"post"` sorts above it; equal cores fall through to the
//! numeric suffixes.

use vstd::prelude::*;
use vstd::string::StrSliceExecFns;

use regex::Regex;

use crate::chars::all_digits;
use crate::chars::digit_val;
use crate::chars::digits_val;
use crate::chars::is_digit_char;
use crate::chars::is_letter_char;
use crate::chars::is_lower_letter;
use crate::chars::lemma_digits_val_nonneg;
use crate::chars::lemma_digits_val_prefix;
use crate::chars::lemma_lex_cmp_flip;
use crate::chars::lemma_lex_cmp_reflexive;
use crate::chars::lemma_lex_cmp_three_way;
use crate::chars::seq_is_ascii;
use crate::chars::spec_lex_cmp;
use crate::chars::str_lex_cmp;
use crate::comp_op::CompOp;

verus! {

/// One PEP440-style version part.
#[derive(Debug, Clone)]
pub struct PEP440String {
    /// The numeric prefix; `0` when absent.
    pub pre: i16,
    /// The alphabetic core between the two numeric runs.
    pub alpha: String,
    /// The numeric suffix; `0` when absent.
    pub post: i16,
}

/// Whether `pat` occurs in `s` as a contiguous substring.
pub open spec fn contains_seq(s: Seq<char>, pat: Seq<char>) -> bool {
    exists|i: int| 0 <= i && i + pat.len() <= s.len() && #[trigger] s.subrange(i, i + pat.len()) == pat
}

/// The characters of the `"dev"` keyword.
pub open spec fn dev_seq() -> Seq<char> {
    seq!['d', 'e', 'v']
}

/// The characters of the `"post"` keyword.
pub open spec fn post_seq() -> Seq<char> {
    seq!['p', 'o', 's', 't']
}

/// Keyword-aware comparison of two cores: a side alone in containing `"dev"`
/// is lesser, then a side alone in containing `"post"` is greater, and
/// otherwise plain lexicographic order decides.
pub open spec fn spec_pep_str_cmp(l: Seq<char>, r: Seq<char>) -> CompOp {
    let ld = contains_seq(l, dev_seq());
    let rd = contains_seq(r, dev_seq());
    let lp = contains_seq(l, post_seq());
    let rp = contains_seq(r, post_seq());
    if ld && !rd {
        CompOp::Lt
    } else if !ld && rd {
        CompOp::Gt
    } else if lp && !rp {
        CompOp::Gt
    } else if !lp && rp {
        CompOp::Lt
    } else {
        spec_lex_cmp(l, r)
    }
}

/// Three-tier comparison of two decomposed parts: numeric prefix, then the
/// keyword-aware core comparison, then numeric suffix.
pub open spec fn spec_pep_cmp3(
    pre1: int,
    alpha1: Seq<char>,
    post1: int,
    pre2: int,
    alpha2: Seq<char>,
    post2: int,
) -> CompOp {
    if pre1 < pre2 {
        CompOp::Lt
    } else if pre1 > pre2 {
        CompOp::Gt
    } else {
        let c = spec_pep_str_cmp(alpha1, alpha2);
        if c != CompOp::Eq {
            c
        } else if post1 < post2 {
            CompOp::Lt
        } else if post1 > post2 {
            CompOp::Gt
        } else {
            CompOp::Eq
        }
    }
}

/// The comparison of two parts.
pub open spec fn spec_pep_cmp(x: PEP440String, y: PEP440String) -> CompOp {
    spec_pep_cmp3(
        x.pre as int,
        x.alpha@,
        x.post as int,
        y.pre as int,
        y.alpha@,
        y.post as int,
    )
}

/// The first index at or after `from` that does not hold an ASCII digit.
pub open spec fn digit_run_end(s: Seq<char>, from: int) -> int
    decreases s.len() - from,
{
    if from < 0 || from >= s.len() {
        from
    } else if is_digit_char(s[from]) {
        digit_run_end(s, from + 1)
    } else {
        from
    }
}

/// The first index at or after `from` that does not hold an ASCII letter.
pub open spec fn letter_run_end(s: Seq<char>, from: int) -> int
    decreases s.len() - from,
{
    if from < 0 || from >= s.len() {
        from
    } else if is_letter_char(s[from]) {
        letter_run_end(s, from + 1)
    } else {
        from
    }
}

/// A digit run starts at `from`, stays in bounds, and covers digits only.
pub proof fn lemma_digit_run_end(s: Seq<char>, from: int)
    requires
        0 <= from <= s.len(),
    ensures
        from <= digit_run_end(s, from) <= s.len(),
        forall|j: int| from <= j < digit_run_end(s, from) ==> is_digit_char(#[trigger] s[j]),
    decreases s.len() - from,
{
    if from < s.len() && is_digit_char(s[from]) {
        lemma_digit_run_end(s, from + 1);
    }
}

/// A letter run starts at `from`, stays in bounds, and covers letters only.
pub proof fn lemma_letter_run_end(s: Seq<char>, from: int)
    requires
        0 <= from <= s.len(),
    ensures
        from <= letter_run_end(s, from) <= s.len(),
        forall|j: int| from <= j < letter_run_end(s, from) ==> is_letter_char(#[trigger] s[j]),
    decreases s.len() - from,
{
    if from < s.len() && is_letter_char(s[from]) {
        lemma_letter_run_end(s, from + 1);
    }
}

/// The numeric prefix of `s`: the value of its leading digit run.
pub open spec fn spec_pre_val(s: Seq<char>) -> int {
    digits_val(s.subrange(0, digit_run_end(s, 0)))
}

/// The alphabetic core of `s`: the letter run after the leading digits.
pub open spec fn spec_alpha_part(s: Seq<char>) -> Seq<char> {
    s.subrange(digit_run_end(s, 0), letter_run_end(s, digit_run_end(s, 0)))
}

/// The numeric suffix of `s`: the value of the digit run after the core.
pub open spec fn spec_post_val(s: Seq<char>) -> int {
    let q = letter_run_end(s, digit_run_end(s, 0));
    digits_val(s.subrange(q, digit_run_end(s, q)))
}

/// Relies on `regex::Regex::new` and `Regex::captures` with the anchored
/// pattern `^(\d*)([a-zA-Z]*)(\d*)`: on ASCII input the three capture groups
/// are the leading run of digits, the following run of letters, and the
/// following run of digits, each possibly empty.
#[verifier::external_body]
fn regex_leading_groups(input: &str) -> (r: (String, String, String))
    ensures
        seq_is_ascii(input@) ==> {
            let p = digit_run_end(input@, 0);
            let q = letter_run_end(input@, p);
            let e = digit_run_end(input@, q);
            r.0@ == input@.subrange(0, p) && r.1@ == input@.subrange(p, q) && r.2@
                == input@.subrange(q, e)
        },
{
    let re = Regex::new(r"^(\d*)([a-zA-Z]*)(\d*)").unwrap();
    let caps = re.captures(input).unwrap();
    let pre = caps.get(1).map_or("", |m| m.as_str()).to_string();
    let alpha = caps.get(2).map_or("", |m| m.as_str()).to_string();
    let post = caps.get(3).map_or("", |m| m.as_str()).to_string();
    (pre, alpha, post)
}

/// Relies on `regex::Regex::new` and `Regex::is_match`: a pattern made only
/// of lowercase ASCII letters matches a haystack exactly where the pattern
/// occurs in it as a substring.
#[verifier::external_body]
fn regex_contains_literal(hay: &str, pat: &str) -> (r: bool)
    requires
        pat@.len() > 0,
        forall|i: int| 0 <= i < pat@.len() ==> is_lower_letter(#[trigger] pat@[i]),
    ensures
        r == contains_seq(hay@, pat@),
{
    Regex::new(pat).unwrap().is_match(hay)
}

/// Parse the digits of `s` into an `i16`.
fn parse_i16_digits(s: &String) -> (r: i16)
    requires
        all_digits(s@),
        digits_val(s@) <= i16::MAX,
    ensures
        r as int == digits_val(s@),
{
    let st = s.as_str();
    let n = st.unicode_len();
    let mut acc: i16 = 0;
    let mut i: usize = 0;
    proof {
        assert(s@.subrange(0, 0) =~= Seq::<char>::empty());
    }
    while i < n
        invariant
            i <= n,
            n == s@.len(),
            st@ == s@,
            all_digits(s@),
            digits_val(s@) <= i16::MAX,
            acc as int == digits_val(s@.subrange(0, i as int)),
        decreases n - i,
    {
        let c = st.get_char(i);
        let d: i16 = ((c as u32) - 48) as i16;
        proof {
            let pfx = s@.subrange(0, i as int);
            let nxt = s@.subrange(0, i as int + 1);
            assert(nxt.drop_last() =~= pfx);
            assert(digits_val(nxt) == digits_val(pfx) * 10 + digit_val(c));
            lemma_digits_val_prefix(s@, i as int + 1);
            lemma_digits_val_nonneg(pfx);
            assert(digits_val(pfx) * 10 >= 0) by (nonlinear_arith)
                requires
                    digits_val(pfx) >= 0,
            ;
        }
        let wide: i32 = (acc as i32) * 10 + (d as i32);
        acc = wide as i16;
        i += 1;
    }
    proof {
        assert(s@.subrange(0, n as int) =~= s@);
    }
    acc
}

impl PEP440String {
    /// Decompose `input` into leading digits, letters, and trailing digits,
    /// as the anchored pattern `^(\d*)([a-zA-Z]*)(\d*)` captures them.
    /// An absent numeric run counts as zero, so `"0dev"` and `"dev"` are the
    /// same part.
    pub fn new(input: &str) -> (r: PEP440String)
        requires
            seq_is_ascii(input@),
            spec_pre_val(input@) <= i16::MAX,
            spec_post_val(input@) <= i16::MAX,
        ensures
            r.pre as int == spec_pre_val(input@),
            r.alpha@ == spec_alpha_part(input@),
            r.post as int == spec_post_val(input@),
    {
        let (pre_s, alpha_s, post_s) = regex_leading_groups(input);
        proof {
            lemma_digit_run_end(input@, 0);
            lemma_letter_run_end(input@, digit_run_end(input@, 0));
            lemma_digit_run_end(input@, letter_run_end(input@, digit_run_end(input@, 0)));
        }
        let pre = parse_i16_digits(&pre_s);
        let post = parse_i16_digits(&post_s);
        PEP440String { pre, alpha: alpha_s, post }
    }

    /// The empty part: both numeric runs zero and an empty core.
    pub fn empty() -> (r: PEP440String)
        ensures
            r.pre == 0,
            r.alpha@ == Seq::<char>::empty(),
            r.post == 0,
    {
        PEP440String { pre: 0, alpha: String::new(), post: 0 }
    }
}

/// Keyword-aware comparison of two core strings.
fn pep_str_cmp(l: &str, r: &str) -> (res: CompOp)
    ensures
        res == spec_pep_str_cmp(l@, r@),
{
    proof {
        reveal_strlit("dev");
        reveal_strlit("post");
        assert("dev"@ =~= dev_seq());
        assert("post"@ =~= post_seq());
    }
    let ld = regex_contains_literal(l, "dev");
    let rd = regex_contains_literal(r, "dev");
    let lp = regex_contains_literal(l, "post");
    let rp = regex_contains_literal(r, "post");
    if ld && !rd {
        CompOp::Lt
    } else if !ld && rd {
        CompOp::Gt
    } else if lp && !rp {
        CompOp::Gt
    } else if !lp && rp {
        CompOp::Lt
    } else {
        str_lex_cmp(l, r)
    }
}

/// Compare two PEP440-style parts.
pub fn pep_cmp(a: &PEP440String, b: &PEP440String) -> (r: CompOp)
    ensures
        r == spec_pep_cmp(*a, *b),
{
    if a.pre < b.pre {
        CompOp::Lt
    } else if a.pre > b.pre {
        CompOp::Gt
    } else {
        let c = pep_str_cmp(a.alpha.as_str(), b.alpha.as_str());
        if c == CompOp::Eq {
            if a.post < b.post {
                CompOp::Lt
            } else if a.post > b.post {
                CompOp::Gt
            } else {
                CompOp::Eq
            }
        } else {
            c
        }
    }
}

/// A part comparison yields one of `Lt`, `Eq`, `Gt`.
pub proof fn lemma_pep_cmp3_three_way(
    pre1: int,
    alpha1: Seq<char>,
    post1: int,
    pre2: int,
    alpha2: Seq<char>,
    post2: int,
)
    ensures
        ({
            let c = spec_pep_cmp3(pre1, alpha1, post1, pre2, alpha2, post2);
            c == CompOp::Lt || c == CompOp::Eq || c == CompOp::Gt
        }),
{
    lemma_lex_cmp_three_way(alpha1, alpha2);
}

/// Comparing a part with itself yields `Eq`.
pub proof fn lemma_pep_cmp3_reflexive(pre: int, alpha: Seq<char>, post: int)
    ensures
        spec_pep_cmp3(pre, alpha, post, pre, alpha, post) == CompOp::Eq,
{
    lemma_lex_cmp_reflexive(alpha);
}

/// Swapping the operands of a part comparison flips the outcome.
pub proof fn lemma_pep_cmp3_flip(
    pre1: int,
    alpha1: Seq<char>,
    post1: int,
    pre2: int,
    alpha2: Seq<char>,
    post2: int,
)
    ensures
        spec_pep_cmp3(pre1, alpha1, post1, pre2, alpha2, post2) == spec_pep_cmp3(
            pre2,
            alpha2,
            post2,
            pre1,
            alpha1,
            post1,
        ).spec_flip(),
{
    lemma_lex_cmp_flip(alpha1, alpha2);
    lemma_lex_cmp_flip(alpha2, alpha1);
}

impl PartialEq for PEP440String {
    /// Two parts are equal when their comparison is `Eq`.
    fn eq(&self, other: &Self) -> bool {
        pep_cmp(self, other) == CompOp::Eq
    }
}

impl vstd::std_specs::cmp::PartialEqSpecImpl for PEP440String {
    open spec fn obeys_eq_spec() -> bool {
        true
    }

    open spec fn eq_spec(&self, other: &Self) -> bool {
        spec_pep_cmp(*self, *other) == CompOp::Eq
    }
}

impl PartialOrd for PEP440String {
    /// Parts are totally ordered by their comparison.
    fn partial_cmp(&self, other: &Self) -> Option<core::cmp::Ordering> {
        proof {
            lemma_pep_cmp3_three_way(
                self.pre as int,
                self.alpha@,
                self.post as int,
                other.pre as int,
                other.alpha@,
                other.post as int,
            );
        }
        match pep_cmp(self, other) {
            CompOp::Lt => Some(core::cmp::Ordering::Less),
            CompOp::Gt => Some(core::cmp::Ordering::Greater),
            _ => Some(core::cmp::Ordering::Equal),
        }
    }
}

impl vstd::std_specs::cmp::PartialOrdSpecImpl for PEP440String {
    open spec fn obeys_partial_cmp_spec() -> bool {
        true
    }

    open spec fn partial_cmp_spec(&self, other: &Self) -> Option<core::cmp::Ordering> {
        match spec_pep_cmp(*self, *other) {
            CompOp::Lt => Some(core::cmp::Ordering::Less),
            CompOp::Gt => Some(core::cmp::Ordering::Greater),
            _ => Some(core::cmp::Ordering::Equal),
        }
    }
}

} // verus!
