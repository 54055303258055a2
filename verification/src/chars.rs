//! Character classification and small string utilities.
//!
//! Version strings are walked character by character, so the few facts the
//! library needs from `std`'s Unicode tables are named here, together with
//! verified helpers for collecting and trimming character sequences.

use vstd::prelude::*;
use vstd::string::StrSliceExecFns;

use crate::comp_op::CompOp;

verus! {

/// Whether `c` counts as a letter or digit when a version string is split.
///
/// The meaning is fixed by `char::is_alphanumeric`, whose Unicode tables no
/// short specification can restate; this name stands for its result.
pub uninterp spec fn char_is_alphanumeric(c: char) -> bool;

/// Whether `c` is stripped from the ends of an operator sign or name.
///
/// The meaning is fixed by `char::is_whitespace`; this name stands for its
/// result.
pub uninterp spec fn char_is_whitespace(c: char) -> bool;

/// Relies on `char::is_alphanumeric`: the result depends on the character
/// alone, and is named by `char_is_alphanumeric`.
pub assume_specification[ char::is_alphanumeric ](c: char) -> (r: bool)
    ensures
        r == char_is_alphanumeric(c),
;

/// Relies on `char::is_whitespace`: the result depends on the character
/// alone, and is named by `char_is_whitespace`.
pub assume_specification[ char::is_whitespace ](c: char) -> (r: bool)
    ensures
        r == char_is_whitespace(c),
;

/// `s` with whitespace removed from both ends.
pub open spec fn spec_trim(s: Seq<char>) -> Seq<char>
    decreases s.len(),
{
    if s.len() == 0 {
        s
    } else if char_is_whitespace(s[0]) {
        spec_trim(s.drop_first())
    } else if char_is_whitespace(s.last()) {
        spec_trim(s.drop_last())
    } else {
        s
    }
}

/// Whether `c` is an ASCII character.
pub open spec fn char_is_ascii(c: char) -> bool {
    (c as int) < 128
}

/// Whether every character of `s` is ASCII.
pub open spec fn seq_is_ascii(s: Seq<char>) -> bool {
    forall|i: int| 0 <= i < s.len() ==> char_is_ascii(#[trigger] s[i])
}

/// Whether `c` is a lowercase ASCII letter.
pub open spec fn is_lower_letter(c: char) -> bool {
    97 <= (c as int) && (c as int) <= 122
}

/// Whether `c` is an ASCII decimal digit.
pub open spec fn is_digit_char(c: char) -> bool {
    48 <= (c as int) && (c as int) <= 57
}

/// Whether `c` is an ASCII letter.
pub open spec fn is_letter_char(c: char) -> bool {
    (65 <= (c as int) && (c as int) <= 90) || (97 <= (c as int) && (c as int) <= 122)
}

/// The numeric value of the ASCII digit `c`.
pub open spec fn digit_val(c: char) -> int {
    (c as int) - 48
}

/// Whether every character of `t` is an ASCII decimal digit.
pub open spec fn all_digits(t: Seq<char>) -> bool {
    forall|i: int| 0 <= i < t.len() ==> is_digit_char(#[trigger] t[i])
}

/// The base-10 value of a sequence of ASCII digits.
pub open spec fn digits_val(t: Seq<char>) -> int
    decreases t.len(),
{
    if t.len() == 0 {
        0
    } else {
        digits_val(t.drop_last()) * 10 + digit_val(t.last())
    }
}

/// The value of a digit sequence is nonnegative.
pub proof fn lemma_digits_val_nonneg(t: Seq<char>)
    requires
        all_digits(t),
    ensures
        digits_val(t) >= 0,
    decreases t.len(),
{
    if t.len() > 0 {
        lemma_digits_val_nonneg(t.drop_last());
    }
}

/// The value of a prefix of a digit sequence never exceeds the whole value.
pub proof fn lemma_digits_val_prefix(t: Seq<char>, k: int)
    requires
        all_digits(t),
        0 <= k <= t.len(),
    ensures
        digits_val(t.subrange(0, k)) <= digits_val(t),
    decreases t.len() - k,
{
    if k == t.len() {
        assert(t.subrange(0, k) =~= t);
    } else {
        lemma_digits_val_prefix(t, k + 1);
        let p = t.subrange(0, k);
        let q = t.subrange(0, k + 1);
        assert(q.drop_last() =~= p);
        lemma_digits_val_nonneg(p);
        assert(digits_val(q) == digits_val(p) * 10 + digit_val(q.last()));
        assert(digits_val(p) * 10 >= digits_val(p)) by (nonlinear_arith)
            requires digits_val(p) >= 0;
    }
}

/// Byte-for-byte (code point) lexicographic order on character sequences.
pub open spec fn spec_lex_cmp(a: Seq<char>, b: Seq<char>) -> CompOp
    decreases a.len() + b.len(),
{
    if a.len() == 0 && b.len() == 0 {
        CompOp::Eq
    } else if a.len() == 0 {
        CompOp::Lt
    } else if b.len() == 0 {
        CompOp::Gt
    } else if (a[0] as int) < (b[0] as int) {
        CompOp::Lt
    } else if (a[0] as int) > (b[0] as int) {
        CompOp::Gt
    } else {
        spec_lex_cmp(a.drop_first(), b.drop_first())
    }
}

/// Lexicographic comparison of a sequence with itself is `Eq`.
pub proof fn lemma_lex_cmp_reflexive(a: Seq<char>)
    ensures
        spec_lex_cmp(a, a) == CompOp::Eq,
    decreases a.len(),
{
    if a.len() > 0 {
        lemma_lex_cmp_reflexive(a.drop_first());
    }
}

/// Swapping the operands of a lexicographic comparison flips the outcome.
pub proof fn lemma_lex_cmp_flip(a: Seq<char>, b: Seq<char>)
    ensures
        spec_lex_cmp(a, b) == spec_lex_cmp(b, a).spec_flip(),
    decreases a.len() + b.len(),
{
    if a.len() > 0 && b.len() > 0 && a[0] == b[0] {
        lemma_lex_cmp_flip(a.drop_first(), b.drop_first());
    }
}

/// A lexicographic comparison yields one of `Lt`, `Eq`, `Gt`.
pub proof fn lemma_lex_cmp_three_way(a: Seq<char>, b: Seq<char>)
    ensures
        spec_lex_cmp(a, b) == CompOp::Lt || spec_lex_cmp(a, b) == CompOp::Eq || spec_lex_cmp(
            a,
            b,
        ) == CompOp::Gt,
    decreases a.len() + b.len(),
{
    if a.len() > 0 && b.len() > 0 && a[0] == b[0] {
        lemma_lex_cmp_three_way(a.drop_first(), b.drop_first());
    }
}

/// Lexicographically compare two strings by code point.
pub fn str_lex_cmp(a: &str, b: &str) -> (r: CompOp)
    ensures
        r == spec_lex_cmp(a@, b@),
{
    let an = a.unicode_len();
    let bn = b.unicode_len();
    proof {
        assert(a@.skip(0) =~= a@);
        assert(b@.skip(0) =~= b@);
    }
    let mut i: usize = 0;
    loop
        invariant
            i <= an,
            i <= bn,
            an == a@.len(),
            bn == b@.len(),
            spec_lex_cmp(a@, b@) == spec_lex_cmp(a@.skip(i as int), b@.skip(i as int)),
        decreases an - i,
    {
        if i < an && i < bn {
            let ca = a.get_char(i);
            let cb = b.get_char(i);
            if (ca as u32) < (cb as u32) {
                return CompOp::Lt;
            } else if (ca as u32) > (cb as u32) {
                return CompOp::Gt;
            }
            proof {
                assert(a@.skip(i as int).drop_first() =~= a@.skip(i as int + 1));
                assert(b@.skip(i as int).drop_first() =~= b@.skip(i as int + 1));
            }
            i += 1;
        } else if i < bn {
            return CompOp::Lt;
        } else if i < an {
            return CompOp::Gt;
        } else {
            return CompOp::Eq;
        }
    }
}

/// The character for the decimal digit `d`.
pub open spec fn spec_digit_char(d: int) -> char {
    if d == 0 {
        '0'
    } else if d == 1 {
        '1'
    } else if d == 2 {
        '2'
    } else if d == 3 {
        '3'
    } else if d == 4 {
        '4'
    } else if d == 5 {
        '5'
    } else if d == 6 {
        '6'
    } else if d == 7 {
        '7'
    } else if d == 8 {
        '8'
    } else {
        '9'
    }
}

/// The decimal digits of the nonnegative number `n`, most significant first.
pub open spec fn spec_dec_digits(n: int) -> Seq<char>
    decreases n,
{
    if n < 0 {
        Seq::empty()
    } else if n < 10 {
        seq![spec_digit_char(n)]
    } else {
        spec_dec_digits(n / 10).push(spec_digit_char(n % 10))
    }
}

/// The decimal rendering of the integer `n`, with a leading minus sign when
/// it is negative.
pub open spec fn spec_int_str(n: int) -> Seq<char> {
    if n < 0 {
        seq!['-'] + spec_dec_digits(-n)
    } else {
        spec_dec_digits(n)
    }
}

/// The digit characters of `ds`, read back to front.
pub open spec fn spec_rev_digit_chars(ds: Seq<u32>) -> Seq<char> {
    Seq::new(ds.len(), |i: int| spec_digit_char(ds[ds.len() - 1 - i] as int))
}

/// The one-character string for the decimal digit `d`.
fn digit_literal(d: u32) -> (r: &'static str)
    requires
        d < 10,
    ensures
        r@ == seq![spec_digit_char(d as int)],
{
    proof {
        reveal_strlit("0");
        reveal_strlit("1");
        reveal_strlit("2");
        reveal_strlit("3");
        reveal_strlit("4");
        reveal_strlit("5");
        reveal_strlit("6");
        reveal_strlit("7");
        reveal_strlit("8");
        reveal_strlit("9");
        assert("0"@ =~= seq!['0']);
        assert("1"@ =~= seq!['1']);
        assert("2"@ =~= seq!['2']);
        assert("3"@ =~= seq!['3']);
        assert("4"@ =~= seq!['4']);
        assert("5"@ =~= seq!['5']);
        assert("6"@ =~= seq!['6']);
        assert("7"@ =~= seq!['7']);
        assert("8"@ =~= seq!['8']);
        assert("9"@ =~= seq!['9']);
    }
    match d {
        0 => "0",
        1 => "1",
        2 => "2",
        3 => "3",
        4 => "4",
        5 => "5",
        6 => "6",
        7 => "7",
        8 => "8",
        _ => "9",
    }
}

/// Render the nonnegative number `n` in decimal.
pub fn dec_string_u64(n: u64) -> (r: String)
    ensures
        r@ == spec_dec_digits(n as int),
{
    let mut digits: Vec<u32> = Vec::new();
    let mut m: u64 = n;
    proof {
        assert(spec_rev_digit_chars(digits@) =~= Seq::<char>::empty());
        assert(spec_dec_digits(n as int) =~= spec_dec_digits(m as int) + spec_rev_digit_chars(
            digits@,
        ));
    }
    while m >= 10
        invariant
            forall|x: int| 0 <= x < digits@.len() ==> (#[trigger] digits@[x]) < 10,
            spec_dec_digits(n as int) == spec_dec_digits(m as int) + spec_rev_digit_chars(digits@),
        decreases m,
    {
        let d: u32 = (m % 10) as u32;
        let ghost old_digits = digits@;
        digits.push(d);
        m = m / 10;
        proof {
            assert(spec_rev_digit_chars(old_digits.push(d)) =~= seq![spec_digit_char(d as int)]
                + spec_rev_digit_chars(old_digits));
            assert(spec_dec_digits(n as int) =~= spec_dec_digits(m as int) + spec_rev_digit_chars(
                digits@,
            ));
        }
    }
    let d: u32 = m as u32;
    let ghost old_digits = digits@;
    digits.push(d);
    proof {
        assert(spec_rev_digit_chars(old_digits.push(d)) =~= seq![spec_digit_char(d as int)]
            + spec_rev_digit_chars(old_digits));
        assert(spec_dec_digits(n as int) =~= spec_rev_digit_chars(digits@));
    }
    let mut s = String::new();
    let total = digits.len();
    let mut k: usize = 0;
    proof {
        assert(s@ =~= spec_rev_digit_chars(digits@).subrange(0, 0));
    }
    while k < total
        invariant
            k <= total,
            total == digits@.len(),
            forall|x: int| 0 <= x < digits@.len() ==> (#[trigger] digits@[x]) < 10,
            s@ == spec_rev_digit_chars(digits@).subrange(0, k as int),
            spec_dec_digits(n as int) == spec_rev_digit_chars(digits@),
        decreases total - k,
    {
        let idx = total - 1 - k;
        s.append(digit_literal(digits[idx]));
        k += 1;
        proof {
            assert(spec_rev_digit_chars(digits@)[k - 1] == spec_digit_char(
                digits@[total - (k as int)] as int,
            ));
            assert(s@ =~= spec_rev_digit_chars(digits@).subrange(0, k as int));
        }
    }
    proof {
        assert(spec_rev_digit_chars(digits@).subrange(0, total as int) =~= spec_rev_digit_chars(
            digits@,
        ));
    }
    s
}

/// Render the integer `n` in decimal, with a leading minus sign when it is
/// negative.
pub fn dec_string_i64(n: i64) -> (r: String)
    ensures
        r@ == spec_int_str(n as int),
{
    if n < 0 {
        let mag: u64 = (-(n as i128)) as u64;
        let mut s = String::new();
        proof {
            reveal_strlit("-");
            assert("-"@ =~= seq!['-']);
        }
        s.append("-");
        let ds = dec_string_u64(mag);
        s.append(ds.as_str());
        proof {
            assert(s@ =~= seq!['-'] + spec_dec_digits(mag as int));
        }
        s
    } else {
        dec_string_u64(n as u64)
    }
}

/// The characters of `s`, in order, as a vector.
pub fn chars_of(s: &str) -> (r: Vec<char>)
    ensures
        r@ == s@,
{
    let n = s.unicode_len();
    let mut v: Vec<char> = Vec::new();
    let mut i: usize = 0;
    while i < n
        invariant
            i <= n,
            n == s@.len(),
            v@ == s@.subrange(0, i as int),
        decreases n - i,
    {
        v.push(s.get_char(i));
        i += 1;
        assert(v@ =~= s@.subrange(0, i as int));
    }
    assert(v@ =~= s@);
    v
}

/// The window of `s` that remains when whitespace is trimmed from both ends:
/// `spec_trim(s@)` is exactly `s@` between the two returned indices.
pub fn trim_window(s: &Vec<char>) -> (r: (usize, usize))
    ensures
        r.0 <= r.1 <= s@.len(),
        spec_trim(s@) == s@.subrange(r.0 as int, r.1 as int),
{
    let n = s.len();
    proof {
        assert(s@.subrange(0, n as int) =~= s@);
    }
    let mut lo: usize = 0;
    while lo < n && s[lo].is_whitespace()
        invariant
            lo <= n,
            n == s@.len(),
            spec_trim(s@) == spec_trim(s@.subrange(lo as int, n as int)),
        decreases n - lo,
    {
        proof {
            let sub = s@.subrange(lo as int, n as int);
            assert(sub.drop_first() =~= s@.subrange(lo as int + 1, n as int));
        }
        lo += 1;
    }
    let mut hi: usize = n;
    while hi > lo && s[hi - 1].is_whitespace()
        invariant
            lo <= hi <= n,
            n == s@.len(),
            lo < n ==> !char_is_whitespace(s@[lo as int]),
            spec_trim(s@) == spec_trim(s@.subrange(lo as int, hi as int)),
        decreases hi,
    {
        proof {
            let sub = s@.subrange(lo as int, hi as int);
            assert(sub.drop_last() =~= s@.subrange(lo as int, hi as int - 1));
        }
        hi -= 1;
    }
    proof {
        let sub = s@.subrange(lo as int, hi as int);
        if lo == hi {
            assert(sub.len() == 0);
        } else {
            assert(sub[0] == s@[lo as int]);
            assert(sub.last() == s@[hi as int - 1]);
        }
    }
    (lo, hi)
}

} // verus!
