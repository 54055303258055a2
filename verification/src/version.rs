//! Parsed versions and whole-version comparison.
//!
//! A [`Version`] owns the original string and its parsed parts. Two versions
//! are compared part by part; when one runs out of parts, each trailing part
//! of the longer side is held against the empty value of its own kind, so a
//! trailing zero changes nothing while a trailing non-zero part decides the
//! outcome.

use vstd::prelude::*;

use crate::comp_op::CompOp;
use crate::parsers::default_parser;
use crate::parsers::spec_accepts;
use crate::parsers::spec_parts;
use crate::version_part::cmp_parts;
use crate::version_part::cmp_tail;
use crate::version_part::lemma_cmp_parts_flip;
use crate::version_part::lemma_cmp_parts_reflexive;
use crate::version_part::lemma_cmp_parts_three_way;
use crate::version_part::lemma_cmp_tail_three_way;
use crate::version_part::spec_cmp_parts;
use crate::version_part::spec_cmp_tail;
use crate::version_part::spec_part_debug;
use crate::version_part::spec_part_debug_alternate;
use crate::version_part::PartModel;
use crate::version_part::VersionPart;

verus! {

/// Whole-sequence comparison: parts are compared pairwise until one side
/// decides; a trailing part of the longer side is held against the empty
/// value of its own kind; two simultaneously exhausted sides are equal.
pub open spec fn spec_cmp_seq(a: Seq<PartModel>, b: Seq<PartModel>) -> CompOp
    decreases a.len() + b.len(),
{
    if a.len() == 0 && b.len() == 0 {
        CompOp::Eq
    } else if a.len() == 0 {
        let c = spec_cmp_tail(b[0]).spec_flip();
        if c == CompOp::Eq {
            spec_cmp_seq(a, b.drop_first())
        } else {
            c
        }
    } else if b.len() == 0 {
        let c = spec_cmp_tail(a[0]);
        if c == CompOp::Eq {
            spec_cmp_seq(a.drop_first(), b)
        } else {
            c
        }
    } else {
        let c = spec_cmp_parts(a[0], b[0]);
        if c == CompOp::Eq {
            spec_cmp_seq(a.drop_first(), b.drop_first())
        } else {
            c
        }
    }
}

/// Comparing a part sequence with itself yields `Eq`.
pub proof fn lemma_cmp_seq_reflexive(s: Seq<PartModel>)
    ensures
        spec_cmp_seq(s, s) == CompOp::Eq,
    decreases s.len(),
{
    if s.len() > 0 {
        lemma_cmp_parts_reflexive(s[0]);
        lemma_cmp_seq_reflexive(s.drop_first());
    }
}

/// Swapping the operands of a whole-sequence comparison flips the outcome.
pub proof fn lemma_cmp_seq_flip(a: Seq<PartModel>, b: Seq<PartModel>)
    ensures
        spec_cmp_seq(a, b) == spec_cmp_seq(b, a).spec_flip(),
    decreases a.len() + b.len(),
{
    if a.len() == 0 && b.len() == 0 {
    } else if a.len() == 0 {
        lemma_cmp_tail_three_way(b[0]);
        lemma_cmp_seq_flip(a, b.drop_first());
    } else if b.len() == 0 {
        lemma_cmp_tail_three_way(a[0]);
        lemma_cmp_seq_flip(a.drop_first(), b);
    } else {
        lemma_cmp_parts_flip(a[0], b[0]);
        lemma_cmp_parts_three_way(a[0], b[0]);
        lemma_cmp_seq_flip(a.drop_first(), b.drop_first());
    }
}

/// A whole-sequence comparison yields one of `Lt`, `Eq`, `Gt`.
pub proof fn lemma_cmp_seq_three_way(a: Seq<PartModel>, b: Seq<PartModel>)
    ensures
        ({
            let c = spec_cmp_seq(a, b);
            c == CompOp::Lt || c == CompOp::Eq || c == CompOp::Gt
        }),
    decreases a.len() + b.len(),
{
    if a.len() == 0 && b.len() == 0 {
    } else if a.len() == 0 {
        lemma_cmp_tail_three_way(b[0]);
        lemma_cmp_seq_three_way(a, b.drop_first());
    } else if b.len() == 0 {
        lemma_cmp_tail_three_way(a[0]);
        lemma_cmp_seq_three_way(a.drop_first(), b);
    } else {
        lemma_cmp_parts_three_way(a[0], b[0]);
        lemma_cmp_seq_three_way(a.drop_first(), b.drop_first());
    }
}

/// A run of `k` zero integer parts.
pub open spec fn spec_zero_parts(k: nat) -> Seq<PartModel> {
    Seq::new(k, |i: int| PartModel::Integer(0))
}

/// Zero-padding equivalence: appending trailing zero integer parts to a
/// version leaves it equal to the original, whichever side carries them; so
/// `"1"` and `"1.0.0"` compare as `Eq`.
pub proof fn lemma_trailing_zeros_equal(s: Seq<PartModel>, k: nat)
    ensures
        spec_cmp_seq(s, s + spec_zero_parts(k)) == CompOp::Eq,
        spec_cmp_seq(s + spec_zero_parts(k), s) == CompOp::Eq,
    decreases s.len() + k,
{
    let t = s + spec_zero_parts(k);
    if s.len() == 0 && k == 0 {
        assert(t.len() == 0);
    } else if s.len() == 0 {
        assert(t[0] == PartModel::Integer(0));
        assert(spec_cmp_tail(t[0]) == CompOp::Eq);
        lemma_trailing_zeros_equal(s, (k - 1) as nat);
        assert(t.drop_first() =~= s + spec_zero_parts((k - 1) as nat));
    } else {
        assert(t[0] == s[0]);
        lemma_cmp_parts_reflexive(s[0]);
        assert(t.drop_first() =~= s.drop_first() + spec_zero_parts(k));
        lemma_trailing_zeros_equal(s.drop_first(), k);
    }
    lemma_cmp_seq_flip(t, s);
}

/// For every version string, comparing the parsed version with itself yields
/// `Eq`.
pub proof fn lemma_compare_reflexive(s: Seq<char>)
    ensures
        spec_cmp_seq(spec_parts(s), spec_parts(s)) == CompOp::Eq,
{
    lemma_cmp_seq_reflexive(spec_parts(s));
}

/// For every pair of version strings, the comparison of `a` to `b` is the
/// flip of the comparison of `b` to `a`.
pub proof fn lemma_compare_flip(a: Seq<char>, b: Seq<char>)
    ensures
        spec_cmp_seq(spec_parts(a), spec_parts(b)) == spec_cmp_seq(
            spec_parts(b),
            spec_parts(a),
        ).spec_flip(),
{
    lemma_cmp_seq_flip(spec_parts(a), spec_parts(b));
}

/// The one-line debug text of a part list: the parts' debug texts, joined
/// with a comma and a space.
pub open spec fn spec_parts_debug(ps: Seq<PartModel>) -> Seq<char>
    decreases ps.len(),
{
    if ps.len() == 0 {
        Seq::empty()
    } else if ps.len() == 1 {
        spec_part_debug(ps[0])
    } else {
        spec_part_debug(ps[0]) + seq![',', ' '] + spec_parts_debug(ps.drop_first())
    }
}

/// Appending a part appends its debug text, with a separator when the list
/// was not empty.
proof fn lemma_parts_debug_push(ps: Seq<PartModel>, x: PartModel)
    ensures
        spec_parts_debug(ps.push(x)) == (if ps.len() == 0 {
            spec_part_debug(x)
        } else {
            spec_parts_debug(ps) + seq![',', ' '] + spec_part_debug(x)
        }),
    decreases ps.len(),
{
    if ps.len() == 0 {
        assert(ps.push(x) =~= seq![x]);
    } else {
        assert(ps.push(x).drop_first() =~= ps.drop_first().push(x));
        lemma_parts_debug_push(ps.drop_first(), x);
        assert(spec_parts_debug(ps.push(x)) =~= spec_parts_debug(ps) + seq![',', ' ']
            + spec_part_debug(x));
    }
}

/// The expanded debug text of a part list: each part's expanded text in
/// order.
pub open spec fn spec_alt_items(ps: Seq<PartModel>) -> Seq<char>
    decreases ps.len(),
{
    if ps.len() == 0 {
        Seq::empty()
    } else {
        spec_part_debug_alternate(ps[0]) + spec_alt_items(ps.drop_first())
    }
}

/// Appending a part appends its expanded debug text.
proof fn lemma_alt_items_push(ps: Seq<PartModel>, x: PartModel)
    ensures
        spec_alt_items(ps.push(x)) == spec_alt_items(ps) + spec_part_debug_alternate(x),
    decreases ps.len(),
{
    if ps.len() == 0 {
        assert(ps.push(x) =~= seq![x]);
        assert(ps.push(x).drop_first() =~= Seq::<PartModel>::empty());
        assert(spec_alt_items(ps.push(x).drop_first()) == Seq::<char>::empty());
        assert(spec_alt_items(ps.push(x)) =~= spec_alt_items(ps) + spec_part_debug_alternate(x));
    } else {
        assert(ps.push(x).drop_first() =~= ps.drop_first().push(x));
        lemma_alt_items_push(ps.drop_first(), x);
        assert(spec_alt_items(ps.push(x)) =~= spec_alt_items(ps) + spec_part_debug_alternate(x));
    }
}

/// The one-line debug text of a whole version: its parts within brackets.
pub open spec fn spec_version_debug(ps: Seq<PartModel>) -> Seq<char> {
    seq!['['] + spec_parts_debug(ps) + seq![']']
}

/// The expanded debug text of a whole version.
pub open spec fn spec_version_debug_alternate(ps: Seq<PartModel>) -> Seq<char> {
    if ps.len() == 0 {
        seq!['[', ']']
    } else {
        seq!['[', '\n'] + spec_alt_items(ps) + seq![']']
    }
}

/// A parsed version: the original string together with its parts.
pub struct Version {
    version: String,
    parts: Vec<VersionPart>,
}

impl View for Version {
    type V = Seq<PartModel>;

    closed spec fn view(&self) -> Seq<PartModel> {
        self.parts.deep_view()
    }
}

impl Version {
    /// The characters of the original version string.
    pub closed spec fn spec_str(&self) -> Seq<char> {
        self.version@
    }

    /// Create a `Version` from a version string, with the default parser.
    pub fn from(version: &str) -> (r: Option<Version>)
        ensures
            (match r {
                Some(v) => spec_accepts(version@) && v@ == spec_parts(version@) && v.spec_str()
                    == version@,
                None => !spec_accepts(version@),
            }),
    {
        Version::parse(version, default_parser)
    }

    /// Create a `Version` from a version string with the given `parser`
    /// function. This is the primary means of customizing behavior; the
    /// version is built from exactly what the parser hands back.
    pub fn parse<F: Fn(&str) -> Option<Vec<VersionPart>>>(version: &str, parser: F) -> (r: Option<
        Version,
    >)
        requires
            call_requires(parser, (version,)),
        ensures
            (match r {
                Some(v) => v.spec_str() == version@ && (exists|ps: Vec<VersionPart>|
                    call_ensures(parser, (version,), Some(ps)) && v@ == ps.deep_view()),
                None => call_ensures(parser, (version,), None::<Vec<VersionPart>>),
            }),
    {
        let parts = parser(version);
        match parts {
            Some(ps) => {
                let ghost gps = ps;
                let v = Version { version: version.to_owned(), parts: ps };
                proof {
                    assert(call_ensures(parser, (version,), Some(gps)) && v@ == gps.deep_view());
                }
                Some(v)
            },
            None => None,
        }
    }

    /// Get the original version string.
    pub fn as_str(&self) -> (r: &str)
        ensures
            r@ == self.spec_str(),
    {
        self.version.as_str()
    }

    /// Get a specific version part by its `index`.
    /// An error is returned if the given index is out of bounds.
    pub fn part(&self, index: usize) -> (r: Result<&VersionPart, ()>)
        ensures
            (match r {
                Ok(p) => index < self@.len() && p.deep_view() == self@[index as int],
                Err(()) => index >= self@.len(),
            }),
    {
        if index >= self.parts.len() {
            return Err(());
        }
        Ok(&self.parts[index])
    }

    /// Get a vector of all version parts.
    pub fn parts(&self) -> (r: &Vec<VersionPart>)
        ensures
            r.deep_view() == self@,
    {
        &self.parts
    }

    /// Get the number of parts in this version string.
    pub fn part_count(&self) -> (r: usize)
        ensures
            r == self@.len(),
    {
        self.parts.len()
    }

    /// Compare this version to the given `other` version, yielding one of
    /// `Lt`, `Eq` and `Gt`.
    pub fn compare(&self, other: &Version) -> (r: CompOp)
        ensures
            r == spec_cmp_seq(self@, other@),
    {
        Version::compare_iter(&self.parts, &other.parts)
    }

    /// Compare this version to the given `other` version, and check whether
    /// the given comparison operator is satisfied by the outcome.
    pub fn compare_to(&self, other: &Version, operator: &CompOp) -> (r: bool)
        ensures
            r == spec_cmp_seq(self@, other@).spec_satisfies(*operator),
    {
        let result = self.compare(other);
        proof {
            lemma_cmp_seq_three_way(self@, other@);
        }
        match result {
            CompOp::Eq => match operator {
                CompOp::Eq | CompOp::Le | CompOp::Ge => true,
                _ => false,
            },
            CompOp::Lt => match operator {
                CompOp::Ne | CompOp::Lt | CompOp::Le => true,
                _ => false,
            },
            CompOp::Gt => match operator {
                CompOp::Ne | CompOp::Gt | CompOp::Ge => true,
                _ => false,
            },
            _ => false,
        }
    }

    /// Render the part list as one debug line, such as
    /// `[Integer(1), Integer(2), Integer(3)]`.
    pub fn debug_text(&self) -> (r: String)
        ensures
            r@ == spec_version_debug(self@),
    {
        let ghost models = self@;
        let mut s = String::new();
        proof {
            reveal_strlit("[");
            assert("["@ =~= seq!['[']);
        }
        s.append("[");
        let n = self.parts.len();
        let mut i: usize = 0;
        proof {
            assert(models.subrange(0, 0) =~= Seq::<PartModel>::empty());
            assert(s@ =~= seq!['['] + spec_parts_debug(models.subrange(0, 0)));
        }
        while i < n
            invariant
                i <= n,
                n == self.parts@.len(),
                models == self@,
                s@ == seq!['['] + spec_parts_debug(models.subrange(0, i as int)),
            decreases n - i,
        {
            if i > 0 {
                proof {
                    reveal_strlit(", ");
                    assert(", "@ =~= seq![',', ' ']);
                }
                s.append(", ");
            }
            let piece = self.parts[i].debug_text();
            s.append(piece.as_str());
            i += 1;
            proof {
                let pfx = models.subrange(0, i - 1);
                let cur = models.subrange(0, i as int);
                assert(cur =~= pfx.push(models[i - 1]));
                lemma_parts_debug_push(pfx, models[i - 1]);
                assert(self.parts[i - 1].deep_view() == models[i - 1]);
                assert(s@ =~= seq!['['] + spec_parts_debug(cur));
            }
        }
        proof {
            reveal_strlit("]");
            assert("]"@ =~= seq![']']);
            assert(models.subrange(0, n as int) =~= models);
        }
        s.append("]");
        proof {
            assert(s@ =~= spec_version_debug(models));
        }
        s
    }

    /// Render the part list in the expanded debug form, one part per line
    /// with its value indented beneath it.
    pub fn debug_text_alternate(&self) -> (r: String)
        ensures
            r@ == spec_version_debug_alternate(self@),
    {
        let ghost models = self@;
        let n = self.parts.len();
        if n == 0 {
            proof {
                reveal_strlit("[]");
                assert("[]"@ =~= seq!['[', ']']);
            }
            let mut s = String::new();
            s.append("[]");
            proof {
                assert(s@ =~= spec_version_debug_alternate(models));
            }
            return s;
        }
        let mut s = String::new();
        proof {
            reveal_strlit("[\n");
            assert("[\n"@ =~= seq!['[', '\n']);
        }
        s.append("[\n");
        let mut i: usize = 0;
        proof {
            assert(models.subrange(0, 0) =~= Seq::<PartModel>::empty());
            assert(s@ =~= seq!['[', '\n'] + spec_alt_items(models.subrange(0, 0)));
        }
        while i < n
            invariant
                i <= n,
                n == self.parts@.len(),
                models == self@,
                s@ == seq!['[', '\n'] + spec_alt_items(models.subrange(0, i as int)),
            decreases n - i,
        {
            let piece = self.parts[i].debug_text_alternate();
            s.append(piece.as_str());
            i += 1;
            proof {
                let pfx = models.subrange(0, i - 1);
                let cur = models.subrange(0, i as int);
                assert(cur =~= pfx.push(models[i - 1]));
                lemma_alt_items_push(pfx, models[i - 1]);
                assert(self.parts[i - 1].deep_view() == models[i - 1]);
                assert(s@ =~= seq!['[', '\n'] + spec_alt_items(cur));
            }
        }
        proof {
            reveal_strlit("]");
            assert("]"@ =~= seq![']']);
            assert(models.subrange(0, n as int) =~= models);
        }
        s.append("]");
        proof {
            assert(s@ =~= spec_version_debug_alternate(models));
        }
        s
    }

    /// Compare two versions by walking their part vectors in step.
    fn compare_iter(a: &Vec<VersionPart>, b: &Vec<VersionPart>) -> (r: CompOp)
        ensures
            r == spec_cmp_seq(a.deep_view(), b.deep_view()),
    {
        let ghost ga = a.deep_view();
        let ghost gb = b.deep_view();
        let an = a.len();
        let bn = b.len();
        let mut i: usize = 0;
        proof {
            assert(ga.skip(0) =~= ga);
            assert(gb.skip(0) =~= gb);
        }
        loop
            invariant
                i <= an || i <= bn,
                an == ga.len(),
                bn == gb.len(),
                ga == a.deep_view(),
                gb == b.deep_view(),
                spec_cmp_seq(ga, gb) == spec_cmp_seq(
                    ga.skip(if i <= an { i as int } else { an as int }),
                    gb.skip(if i <= bn { i as int } else { bn as int }),
                ),
            decreases an + bn - i,
        {
            let ghost ra = ga.skip(if i <= an { i as int } else { an as int });
            let ghost rb = gb.skip(if i <= bn { i as int } else { bn as int });
            if i < an && i < bn {
                proof {
                    assert(ra[0] == ga[i as int]);
                    assert(rb[0] == gb[i as int]);
                    assert(ra.drop_first() =~= ga.skip(i as int + 1));
                    assert(rb.drop_first() =~= gb.skip(i as int + 1));
                }
                let c = cmp_parts(&a[i], &b[i]);
                if !(c == CompOp::Eq) {
                    return c;
                }
                i += 1;
            } else if i < bn {
                proof {
                    assert(ra.len() == 0);
                    assert(rb[0] == gb[i as int]);
                    assert(rb.drop_first() =~= gb.skip(i as int + 1));
                }
                let c = cmp_tail(&b[i]).flip();
                if !(c == CompOp::Eq) {
                    return c;
                }
                i += 1;
            } else if i < an {
                proof {
                    assert(rb.len() == 0);
                    assert(ra[0] == ga[i as int]);
                    assert(ra.drop_first() =~= ga.skip(i as int + 1));
                }
                let c = cmp_tail(&a[i]);
                if !(c == CompOp::Eq) {
                    return c;
                }
                i += 1;
            } else {
                proof {
                    assert(ra.len() == 0 && rb.len() == 0);
                }
                return CompOp::Eq;
            }
        }
    }
}

impl PartialEq for Version {
    /// Two versions are equal when their comparison yields `Eq`; two
    /// different part sequences, such as those of `"1"` and `"1.0.0"`, may
    /// well be equal.
    fn eq(&self, other: &Self) -> bool {
        proof {
            lemma_cmp_seq_three_way(self@, other@);
        }
        self.compare_to(other, &CompOp::Eq)
    }
}

impl vstd::std_specs::cmp::PartialEqSpecImpl for Version {
    open spec fn obeys_eq_spec() -> bool {
        true
    }

    open spec fn eq_spec(&self, other: &Self) -> bool {
        spec_cmp_seq(self@, other@) == CompOp::Eq
    }
}

impl PartialOrd for Version {
    /// Versions are ordered by their comparison.
    fn partial_cmp(&self, other: &Self) -> Option<core::cmp::Ordering> {
        proof {
            lemma_cmp_seq_three_way(self@, other@);
        }
        match self.compare(other) {
            CompOp::Lt => Some(core::cmp::Ordering::Less),
            CompOp::Gt => Some(core::cmp::Ordering::Greater),
            _ => Some(core::cmp::Ordering::Equal),
        }
    }
}

impl vstd::std_specs::cmp::PartialOrdSpecImpl for Version {
    open spec fn obeys_partial_cmp_spec() -> bool {
        true
    }

    open spec fn partial_cmp_spec(&self, other: &Self) -> Option<core::cmp::Ordering> {
        match spec_cmp_seq(self@, other@) {
            CompOp::Lt => Some(core::cmp::Ordering::Less),
            CompOp::Gt => Some(core::cmp::Ordering::Greater),
            _ => Some(core::cmp::Ordering::Equal),
        }
    }
}

} // verus!
