//! The default segment parser.
//!
//! A version string is split on every run of non-alphanumeric characters, so
//! `.`, `-`, `_` and whitespace are all equivalent separators. Each token
//! becomes an [`VersionPart::Integer`] when it is all ASCII digits and its
//! value fits, and a [`VersionPart::LexicographicString`] otherwise. Empty
//! input yields an empty part list; non-empty input with no numeric part at
//! all is rejected.

use vstd::prelude::*;
use vstd::string::StrSliceExecFns;

use crate::chars::all_digits;
use crate::chars::char_is_alphanumeric;
use crate::chars::chars_of;
use crate::chars::digit_val;
use crate::chars::digits_val;
use crate::chars::is_digit_char;
use crate::chars::lemma_digits_val_nonneg;
use crate::version_part::PartModel;
use crate::version_part::VersionPart;

verus! {

/// The first index at or after `from` that does not hold an alphanumeric
/// character.
pub open spec fn alnum_run_end(s: Seq<char>, from: int) -> int
    decreases s.len() - from,
{
    if from < 0 || from >= s.len() {
        from
    } else if char_is_alphanumeric(s[from]) {
        alnum_run_end(s, from + 1)
    } else {
        from
    }
}

/// An alphanumeric run stays in bounds, covers alphanumeric characters only,
/// and ends at the end of the string or at a separator.
pub proof fn lemma_alnum_run_end(s: Seq<char>, from: int)
    requires
        0 <= from <= s.len(),
    ensures
        from <= alnum_run_end(s, from) <= s.len(),
        forall|j: int| from <= j < alnum_run_end(s, from) ==> char_is_alphanumeric(#[trigger] s[j]),
        alnum_run_end(s, from) == s.len() || !char_is_alphanumeric(s[alnum_run_end(s, from)]),
    decreases s.len() - from,
{
    if from < s.len() && char_is_alphanumeric(s[from]) {
        lemma_alnum_run_end(s, from + 1);
    }
}

/// The indices that delimit an alphanumeric run determine where it ends.
pub proof fn lemma_alnum_run_end_is(s: Seq<char>, from: int, j: int)
    requires
        0 <= from <= j <= s.len(),
        forall|k: int| from <= k < j ==> char_is_alphanumeric(#[trigger] s[k]),
        j == s.len() || !char_is_alphanumeric(s[j]),
    ensures
        alnum_run_end(s, from) == j,
    decreases j - from,
{
    if from < j {
        lemma_alnum_run_end_is(s, from + 1, j);
    }
}

/// The tokens of `s` from position `i` on: the maximal alphanumeric runs, in
/// order, with separators discarded.
pub open spec fn spec_tokens_from(s: Seq<char>, i: int) -> Seq<Seq<char>>
    decreases s.len() - i,
    via spec_tokens_from_decreases
{
    if i < 0 || i >= s.len() {
        Seq::empty()
    } else if !char_is_alphanumeric(s[i]) {
        spec_tokens_from(s, i + 1)
    } else {
        seq![s.subrange(i, alnum_run_end(s, i))] + spec_tokens_from(s, alnum_run_end(s, i))
    }
}

#[via_fn]
proof fn spec_tokens_from_decreases(s: Seq<char>, i: int) {
    if 0 <= i < s.len() && char_is_alphanumeric(s[i]) {
        lemma_alnum_run_end(s, i + 1);
    }
}

/// How one token is classified: a run of ASCII digits whose value fits a
/// 32-bit integer becomes a numeric part, and anything else a textual part.
pub open spec fn spec_classify(t: Seq<char>) -> PartModel {
    if all_digits(t) && digits_val(t) <= i32::MAX {
        PartModel::Integer(digits_val(t))
    } else {
        PartModel::LexicographicString(t)
    }
}

/// The parts of `s` from position `i` on: its tokens, classified.
pub open spec fn spec_parts_from(s: Seq<char>, i: int) -> Seq<PartModel> {
    spec_tokens_from(s, i).map_values(|t: Seq<char>| spec_classify(t))
}

/// The parts of the whole of `s`.
pub open spec fn spec_parts(s: Seq<char>) -> Seq<PartModel> {
    spec_parts_from(s, 0)
}

/// Whether some part is numeric.
pub open spec fn spec_has_number(ps: Seq<PartModel>) -> bool {
    exists|k: int| 0 <= k < ps.len() && (#[trigger] ps[k]) is Integer
}

/// Whether `s` parses at all: empty input yields an empty part list, and
/// non-empty input must yield at least one numeric part.
pub open spec fn spec_accepts(s: Seq<char>) -> bool {
    s.len() == 0 || spec_has_number(spec_parts(s))
}

/// Classify the token at `v[start..end]` of `version`.
fn classify_token(version: &str, v: &Vec<char>, start: usize, end: usize) -> (r: VersionPart)
    requires
        start < end <= v@.len(),
        v@ == version@,
    ensures
        r.deep_view() == spec_classify(version@.subrange(start as int, end as int)),
{
    let ghost t = version@.subrange(start as int, end as int);
    let mut all_dig = true;
    let mut val: u64 = 0;
    let mut k = start;
    proof {
        assert(t.subrange(0, 0) =~= Seq::<char>::empty());
    }
    while k < end
        invariant
            start <= k <= end <= v@.len(),
            v@ == version@,
            t == version@.subrange(start as int, end as int),
            val <= 2147483648,
            all_dig == all_digits(t.subrange(0, k - start)),
            all_dig ==> ((val as int == digits_val(t.subrange(0, k - start)) && val <= 2147483647)
                || (val == 2147483648 && digits_val(t.subrange(0, k - start)) > 2147483647)),
        decreases end - k,
    {
        let c = v[k];
        let ghost m = k - start;
        proof {
            assert(t[m] == version@[k as int]);
            assert(t.subrange(0, m + 1).drop_last() =~= t.subrange(0, m));
            assert(t.subrange(0, m + 1).last() == t[m]);
        }
        if '0' <= c && c <= '9' {
            let d = (c as u32) - 48;
            proof {
                let p = t.subrange(0, m);
                let q = t.subrange(0, m + 1);
                assert(c == t[m]);
                assert(is_digit_char(t[m]));
                if all_dig {
                    assert forall|x: int| 0 <= x < q.len() implies is_digit_char(
                        #[trigger] q[x],
                    ) by {
                        if x < m {
                            assert(q[x] == p[x]);
                        } else {
                            assert(q[x] == t[m]);
                        }
                    }
                    assert(all_digits(q));
                    assert(digits_val(q) == digits_val(p) * 10 + digit_val(t[m]));
                    if val == 2147483648 {
                        lemma_digits_val_nonneg(p);
                        assert(digits_val(p) * 10 >= digits_val(p)) by (nonlinear_arith)
                            requires
                                digits_val(p) >= 0,
                        ;
                    }
                } else {
                    let bad = choose|x: int| 0 <= x < p.len() && !is_digit_char(#[trigger] p[x]);
                    assert(q[bad] == p[bad]);
                    assert(!all_digits(q));
                }
            }
            let nv = val * 10 + (d as u64);
            val = if nv > 2147483647 {
                2147483648
            } else {
                nv
            };
        } else {
            all_dig = false;
            proof {
                assert(!is_digit_char(t[m]));
                assert(!all_digits(t.subrange(0, m + 1)));
            }
        }
        k += 1;
    }
    proof {
        assert(t.subrange(0, end - start) =~= t);
    }
    if all_dig && val <= 2147483647 {
        VersionPart::Integer(val as i32)
    } else {
        let token = version.substring_char(start, end).to_owned();
        VersionPart::LexicographicString(token)
    }
}

/// Split the given version string into its version parts.
///
/// Any run of non-alphanumeric characters separates two parts. A token of
/// ASCII digits whose value fits a 32-bit integer becomes an integer part;
/// any other token becomes a textual part. An empty string holds no parts
/// and parses successfully; a non-empty string that yields no numeric part
/// at all is rejected with `None`.
pub fn default_parser(version: &str) -> (r: Option<Vec<VersionPart>>)
    ensures
        (match r {
            Some(ps) => spec_accepts(version@) && ps.deep_view() == spec_parts(version@),
            None => !spec_accepts(version@),
        }),
{
    let v = chars_of(version);
    let n = v.len();
    let mut parts: Vec<VersionPart> = Vec::new();
    let mut has_number = false;
    let mut i: usize = 0;
    proof {
        assert(parts.deep_view() =~= Seq::<PartModel>::empty());
    }
    while i < n
        invariant
            i <= n,
            n == v@.len(),
            v@ == version@,
            spec_parts(version@) == parts.deep_view() + spec_parts_from(version@, i as int),
            has_number == spec_has_number(parts.deep_view()),
        decreases n - i,
    {
        let ghost s = version@;
        if !v[i].is_alphanumeric() {
            proof {
                assert(spec_tokens_from(s, i as int) == spec_tokens_from(s, i as int + 1));
            }
            i += 1;
        } else {
            let start = i;
            let mut j = i + 1;
            while j < n && v[j].is_alphanumeric()
                invariant
                    start < j <= n,
                    n == v@.len(),
                    v@ == version@,
                    forall|k: int|
                        start <= k < j ==> char_is_alphanumeric(#[trigger] version@[k]),
                decreases n - j,
            {
                j += 1;
            }
            let ghost e = alnum_run_end(s, start as int);
            proof {
                lemma_alnum_run_end_is(s, start as int, j as int);
                assert(e == j);
            }
            let part = classify_token(version, &v, start, j);
            let is_num = match &part {
                VersionPart::Integer(_) => true,
                _ => false,
            };
            let ghost old_models = parts.deep_view();
            parts.push(part);
            proof {
                let ghost t = s.subrange(start as int, e);
                assert(parts.deep_view() =~= old_models + seq![spec_classify(t)]);
                assert(spec_tokens_from(s, start as int) == seq![t] + spec_tokens_from(s, e));
                assert(spec_parts_from(s, start as int) =~= seq![spec_classify(t)]
                    + spec_parts_from(s, e));
                assert(spec_parts(s) =~= parts.deep_view() + spec_parts_from(s, j as int));
                if is_num {
                    assert(parts.deep_view()[old_models.len() as int] == part.deep_view());
                    assert((part.deep_view()) is Integer);
                    assert(spec_has_number(parts.deep_view()));
                } else if has_number {
                    let w = choose|k: int|
                        0 <= k < old_models.len() && (#[trigger] old_models[k]) is Integer;
                    assert(parts.deep_view()[w] == old_models[w]);
                    assert(spec_has_number(parts.deep_view()));
                } else {
                    assert forall|k: int| 0 <= k < parts.deep_view().len() implies !((
                    #[trigger] parts.deep_view()[k]) is Integer) by {
                        if k < old_models.len() {
                            assert(!(old_models[k] is Integer));
                        }
                    }
                }
            }
            if is_num {
                has_number = true;
            }
            i = j;
        }
    }
    proof {
        assert(spec_parts_from(version@, n as int) =~= Seq::<PartModel>::empty());
        assert(spec_parts(version@) =~= parts.deep_view());
    }
    if !has_number && n > 0 {
        return None;
    }
    Some(parts)
}

} // verus!
