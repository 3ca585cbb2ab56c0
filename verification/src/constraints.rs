//! `requires-python` constraints: an interval over versions, tagged with the
//! scope that declared it. Project-level and default-group constraints
//! combine by intersection; an empty intersection is a conflict that names
//! both scopes. Non-default groups never reach this module.

use vstd::prelude::*;
use vstd::string::StringExecFns;

use crate::request::{
    parse_specifiers, scan_specifiers, CompareOp, Specifier, SpecifierV,
};
use crate::strutil::str_chars;
use crate::version::{
    lemma_rel_lt_congruence, lemma_rel_lt_trans, lemma_rel_trichotomy,
    lemma_version_lt_trans, lemma_version_trichotomy, rel_eq, rel_lt, release_lt,
    spec_release_version, version_le, version_lt, version_ord_eq, VersionParts, VersionPartsV,
};

verus! {

/// One end of a version interval, over release numbers.
#[derive(Clone, Debug)]
pub enum Bound {
    Unbounded,
    Included(Vec<u64>),
    Excluded(Vec<u64>),
}

/// The mathematical shape of a [`Bound`].
pub enum BoundV {
    Unbounded,
    Included(Seq<u64>),
    Excluded(Seq<u64>),
}

impl View for Bound {
    type V = BoundV;

    open spec fn view(&self) -> BoundV {
        match self {
            Bound::Unbounded => BoundV::Unbounded,
            Bound::Included(r) => BoundV::Included(r@),
            Bound::Excluded(r) => BoundV::Excluded(r@),
        }
    }
}

impl Bound {
    /// An equal copy.
    pub fn duplicate(&self) -> (r: Bound)
        ensures
            r@ == self@,
    {
        match self {
            Bound::Unbounded => Bound::Unbounded,
            Bound::Included(v) => Bound::Included(copy_u64s(v)),
            Bound::Excluded(v) => Bound::Excluded(copy_u64s(v)),
        }
    }
}

/// A copy of a release-number vector.
pub fn copy_u64s(v: &Vec<u64>) -> (r: Vec<u64>)
    ensures
        r@ == v@,
{
    let mut r: Vec<u64> = Vec::new();
    let mut i: usize = 0;
    while i < v.len()
        invariant
            i <= v@.len(),
            r@ =~= v@.subrange(0, i as int),
        decreases v@.len() - i,
    {
        r.push(v[i]);
        i = i + 1;
    }
    proof {
        assert(r@ =~= v@);
    }
    r
}

/// A `requires-python` constraint: the declaring scope's display name (as a
/// conflict lists it), the scope label (as a warning cites it), the original
/// constraint text, and the interval it denotes.
#[derive(Clone, Debug)]
pub struct RequiresPython {
    pub name: String,
    pub label: String,
    pub text: String,
    pub lower: Bound,
    pub upper: Bound,
}

/// The mathematical shape of a [`RequiresPython`].
pub struct RequiresPythonV {
    pub name: Seq<char>,
    pub label: Seq<char>,
    pub text: Seq<char>,
    pub lower: BoundV,
    pub upper: BoundV,
}

impl View for RequiresPython {
    type V = RequiresPythonV;

    open spec fn view(&self) -> RequiresPythonV {
        RequiresPythonV {
            name: self.name@,
            label: self.label@,
            text: self.text@,
            lower: self.lower@,
            upper: self.upper@,
        }
    }
}

impl RequiresPython {
    /// An equal copy.
    pub fn duplicate(&self) -> (r: RequiresPython)
        ensures
            r@ == self@,
    {
        RequiresPython {
            name: self.name.clone(),
            label: self.label.clone(),
            text: self.text.clone(),
            lower: self.lower.duplicate(),
            upper: self.upper.duplicate(),
        }
    }
}

/// Two scopes whose constraints admit no common version.
#[derive(Clone, Debug)]
pub struct Conflict {
    pub first_name: String,
    pub first_text: String,
    pub second_name: String,
    pub second_text: String,
}

/// The message of a conflict, naming both scopes and their constraints.
pub open spec fn spec_conflict_message(
    first_name: Seq<char>,
    first_text: Seq<char>,
    second_name: Seq<char>,
    second_text: Seq<char>,
) -> Seq<char> {
    "Found conflicting Python requirements:\n- "@ + first_name + ": "@ + first_text + "\n- "@
        + second_name + ": "@ + second_text
}

impl Conflict {
    /// Build the conflict's message.
    pub fn message(&self) -> (s: String)
        ensures
            s@ == spec_conflict_message(
                self.first_name@,
                self.first_text@,
                self.second_name@,
                self.second_text@,
            ),
    {
        let mut s: String = String::from_str("Found conflicting Python requirements:\n- ");
        s.append(self.first_name.as_str());
        s.append(": ");
        s.append(self.first_text.as_str());
        s.append("\n- ");
        s.append(self.second_name.as_str());
        s.append(": ");
        s.append(self.second_text.as_str());
        s
    }
}

// ---------------------------------------------------------------------------
// Satisfaction
// ---------------------------------------------------------------------------
/// Whether a version lies above a lower bound.
pub open spec fn lower_ok(b: BoundV, v: VersionPartsV) -> bool {
    match b {
        BoundV::Unbounded => true,
        BoundV::Included(r) => version_le(spec_release_version(r), v),
        BoundV::Excluded(r) => version_lt(spec_release_version(r), v),
    }
}

/// Whether a version lies below an upper bound.
pub open spec fn upper_ok(b: BoundV, v: VersionPartsV) -> bool {
    match b {
        BoundV::Unbounded => true,
        BoundV::Included(r) => version_le(v, spec_release_version(r)),
        BoundV::Excluded(r) => version_lt(v, spec_release_version(r)),
    }
}

/// Whether a version satisfies a constraint.
pub open spec fn requires_satisfied(rp: RequiresPythonV, v: VersionPartsV) -> bool {
    lower_ok(rp.lower, v) && upper_ok(rp.upper, v)
}

/// Test a version against a lower bound.
fn lower_check(b: &Bound, v: &VersionParts) -> (r: bool)
    ensures
        r == lower_ok(b@, v@),
{
    match b {
        Bound::Unbounded => true,
        Bound::Included(rel) => {
            let w: VersionParts = VersionParts::from_release(copy_u64s(rel));
            crate::version::version_parts_le(&w, v)
        },
        Bound::Excluded(rel) => {
            let w: VersionParts = VersionParts::from_release(copy_u64s(rel));
            crate::version::version_parts_lt(&w, v)
        },
    }
}

/// Test a version against an upper bound.
fn upper_check(b: &Bound, v: &VersionParts) -> (r: bool)
    ensures
        r == upper_ok(b@, v@),
{
    match b {
        Bound::Unbounded => true,
        Bound::Included(rel) => {
            let w: VersionParts = VersionParts::from_release(copy_u64s(rel));
            crate::version::version_parts_le(v, &w)
        },
        Bound::Excluded(rel) => {
            let w: VersionParts = VersionParts::from_release(copy_u64s(rel));
            crate::version::version_parts_lt(v, &w)
        },
    }
}

impl RequiresPython {
    /// Test a version against this constraint.
    pub fn satisfied_by(&self, v: &VersionParts) -> (r: bool)
        ensures
            r == requires_satisfied(self@, v@),
    {
        lower_check(&self.lower, v) && upper_check(&self.upper, v)
    }
}

// ---------------------------------------------------------------------------
// From specifiers
// ---------------------------------------------------------------------------
/// The lower bound one specifier contributes.
pub open spec fn spec_lower_of(sp: SpecifierV) -> BoundV {
    match sp.op {
        CompareOp::GreaterEq => BoundV::Included(sp.release),
        CompareOp::Greater => BoundV::Excluded(sp.release),
        CompareOp::Equal => BoundV::Included(sp.release),
        _ => BoundV::Unbounded,
    }
}

/// The given release numbers with the last one bumped, closing a wildcard.
pub open spec fn star_bump(r: Seq<u64>) -> Seq<u64> {
    if r.len() == 0 {
        r
    } else {
        r.drop_last().push((r.last() + 1) as u64)
    }
}

/// The upper bound one specifier contributes.
pub open spec fn spec_upper_of(sp: SpecifierV) -> BoundV {
    match sp.op {
        CompareOp::Less => BoundV::Excluded(sp.release),
        CompareOp::LessEq => BoundV::Included(sp.release),
        CompareOp::Equal => if sp.star {
            BoundV::Excluded(star_bump(sp.release))
        } else {
            BoundV::Included(sp.release)
        },
        _ => BoundV::Unbounded,
    }
}

/// The stricter of two lower bounds; on equal releases exclusion wins, and
/// on a tie the first is kept.
pub open spec fn lower_max(a: BoundV, b: BoundV) -> BoundV {
    match (a, b) {
        (BoundV::Unbounded, _) => b,
        (_, BoundV::Unbounded) => a,
        (BoundV::Included(ra), BoundV::Included(rb)) => if rel_lt(ra, rb) {
            b
        } else {
            a
        },
        (BoundV::Included(ra), BoundV::Excluded(rb)) => if rel_lt(rb, ra) {
            a
        } else {
            b
        },
        (BoundV::Excluded(ra), BoundV::Included(rb)) => if rel_lt(ra, rb) {
            b
        } else {
            a
        },
        (BoundV::Excluded(ra), BoundV::Excluded(rb)) => if rel_lt(ra, rb) {
            b
        } else {
            a
        },
    }
}

/// The stricter of two upper bounds; on equal releases exclusion wins, and
/// on a tie the first is kept.
pub open spec fn upper_min(a: BoundV, b: BoundV) -> BoundV {
    match (a, b) {
        (BoundV::Unbounded, _) => b,
        (_, BoundV::Unbounded) => a,
        (BoundV::Included(ra), BoundV::Included(rb)) => if rel_lt(rb, ra) {
            b
        } else {
            a
        },
        (BoundV::Included(ra), BoundV::Excluded(rb)) => if rel_lt(ra, rb) {
            a
        } else {
            b
        },
        (BoundV::Excluded(ra), BoundV::Included(rb)) => if rel_lt(rb, ra) {
            b
        } else {
            a
        },
        (BoundV::Excluded(ra), BoundV::Excluded(rb)) => if rel_lt(rb, ra) {
            b
        } else {
            a
        },
    }
}

/// The interval a specifier list denotes: the fold of each specifier's
/// contribution. Inequality specifiers contribute nothing to an interval.
pub open spec fn spec_interval(sps: Seq<SpecifierV>) -> (BoundV, BoundV)
    decreases sps.len(),
{
    if sps.len() == 0 {
        (BoundV::Unbounded, BoundV::Unbounded)
    } else {
        let (lo, hi) = spec_interval(sps.drop_last());
        (lower_max(lo, spec_lower_of(sps.last())), upper_min(hi, spec_upper_of(sps.last())))
    }
}

/// Pick the stricter lower bound.
fn lower_max_exec(a: Bound, b: Bound) -> (r: Bound)
    ensures
        r@ == lower_max(a@, b@),
{
    match (&a, &b) {
        (Bound::Unbounded, _) => b,
        (_, Bound::Unbounded) => a,
        (Bound::Included(ra), Bound::Included(rb)) => if release_lt(ra, rb) {
            b
        } else {
            a
        },
        (Bound::Included(ra), Bound::Excluded(rb)) => if release_lt(rb, ra) {
            a
        } else {
            b
        },
        (Bound::Excluded(ra), Bound::Included(rb)) => if release_lt(ra, rb) {
            b
        } else {
            a
        },
        (Bound::Excluded(ra), Bound::Excluded(rb)) => if release_lt(ra, rb) {
            b
        } else {
            a
        },
    }
}

/// Pick the stricter upper bound.
fn upper_min_exec(a: Bound, b: Bound) -> (r: Bound)
    ensures
        r@ == upper_min(a@, b@),
{
    match (&a, &b) {
        (Bound::Unbounded, _) => b,
        (_, Bound::Unbounded) => a,
        (Bound::Included(ra), Bound::Included(rb)) => if release_lt(rb, ra) {
            b
        } else {
            a
        },
        (Bound::Included(ra), Bound::Excluded(rb)) => if release_lt(ra, rb) {
            a
        } else {
            b
        },
        (Bound::Excluded(ra), Bound::Included(rb)) => if release_lt(rb, ra) {
            b
        } else {
            a
        },
        (Bound::Excluded(ra), Bound::Excluded(rb)) => if release_lt(rb, ra) {
            b
        } else {
            a
        },
    }
}

/// The lower bound of one specifier.
fn lower_of_exec(sp: &Specifier) -> (r: Bound)
    ensures
        r@ == spec_lower_of(sp@),
{
    match sp.op {
        CompareOp::GreaterEq => Bound::Included(copy_u64s(&sp.release)),
        CompareOp::Greater => Bound::Excluded(copy_u64s(&sp.release)),
        CompareOp::Equal => Bound::Included(copy_u64s(&sp.release)),
        _ => Bound::Unbounded,
    }
}

/// The upper bound of one specifier.
fn upper_of_exec(sp: &Specifier) -> (r: Bound)
    requires
        (sp@.op == CompareOp::Equal && sp@.star) ==> (sp@.release.len() > 0
            && sp@.release.last() < u64::MAX),
    ensures
        r@ == spec_upper_of(sp@),
{
    match sp.op {
        CompareOp::Less => Bound::Excluded(copy_u64s(&sp.release)),
        CompareOp::LessEq => Bound::Included(copy_u64s(&sp.release)),
        CompareOp::Equal => {
            if sp.star {
                let mut bumped: Vec<u64> = copy_u64s(&sp.release);
                let last_idx: usize = bumped.len() - 1;
                let last: u64 = bumped[last_idx];
                bumped.set(last_idx, last + 1);
                proof {
                    assert(bumped@ =~= star_bump(sp@.release));
                }
                Bound::Excluded(bumped)
            } else {
                Bound::Included(copy_u64s(&sp.release))
            }
        },
        _ => Bound::Unbounded,
    }
}

/// A specifier's numbers are non-empty and each is bounded.
pub open spec fn specifier_ok(sp: SpecifierV) -> bool {
    sp.release.len() >= 1 && (forall|j: int| 0 <= j < sp.release.len() ==> sp.release[j] <= 255)
}

/// Every parsed specifier's numbers are bounded, so a wildcard can be bumped.
pub proof fn lemma_parsed_specifier_bounded(s: Seq<char>, i: int, sps: Seq<SpecifierV>)
    requires
        0 <= i,
        parse_specifiers(s, i) == Some(sps),
    ensures
        forall|k: int| 0 <= k < sps.len() ==> specifier_ok(#[trigger] sps[k]),
    decreases s.len() - i,
{
    match crate::request::parse_specifier(s, i) {
        Option::None => {},
        Option::Some((sp, j)) => {
            let lo = crate::strutil::run_end(s, ' ', i);
            match crate::request::parse_op(s, lo) {
                Option::None => {},
                Option::Some((op, k)) => {
                    lemma_parse_comps_bounded(s, k);
                },
            }
            if j <= i || j > s.len() {
            } else if j == s.len() {
                assert(sps =~= seq![sp]);
            } else if s[j] == ',' {
                match parse_specifiers(s, j + 1) {
                    Option::None => {},
                    Option::Some(rest) => {
                        lemma_parsed_specifier_bounded(s, j + 1, rest);
                        assert(sps =~= seq![sp] + rest);
                        assert(forall|k2: int| 1 <= k2 < sps.len() ==> sps[k2] == rest[k2 - 1]);
                    },
                }
            }
        },
    }
}

/// Release numbers are non-empty and every number is bounded.
pub open spec fn comps_ok(o: Option<(Seq<u64>, int, bool)>) -> bool {
    match o {
        Option::None => true,
        Option::Some((rel, j, st)) => rel.len() >= 1 && (forall|k: int|
            0 <= k < rel.len() ==> rel[k] <= 255),
    }
}

/// Parsed release numbers are non-empty and bounded.
proof fn lemma_parse_comps_bounded(s: Seq<char>, i: int)
    requires
        0 <= i,
    ensures
        comps_ok(crate::request::parse_comps(s, i)),
    decreases s.len() - i,
{
    let e = crate::strutil::digits_end(s, i);
    if e <= i || e > s.len() {
    } else if crate::strutil::capped_val(s.subrange(i, e)) > 255 {
    } else {
        let val = crate::strutil::capped_val(s.subrange(i, e)) as u64;
        crate::strutil::lemma_digits_val_nonneg(s.subrange(i, e));
        if e + 1 < s.len() && s[e] == '.' && s[e + 1] == '*' {
            assert(seq![val].len() == 1 && seq![val][0] == val);
        } else if e < s.len() && s[e] == '.' {
            lemma_parse_comps_bounded(s, e + 1);
            match crate::request::parse_comps(s, e + 1) {
                Option::None => {},
                Option::Some((rest, j2, st2)) => {
                    let rel = seq![val] + rest;
                    assert(crate::request::parse_comps(s, i) == Some((rel, j2, st2)));
                    assert forall|k: int| 0 <= k < rel.len() implies rel[k] <= 255 by {
                        if k > 0 {
                            assert(rel[k] == rest[k - 1]);
                        } else {
                            assert(rel[0] == val);
                        }
                    }
                },
            }
        } else {
            assert(seq![val].len() == 1 && seq![val][0] == val);
        }
    }
}

impl RequiresPython {
    /// Read a constraint from its specifier text, tagging it with its scope's
    /// display name and label. Fails exactly when the text is not a specifier
    /// list.
    pub fn parse(text: &str, name: &str, label: &str) -> (r: Option<RequiresPython>)
        ensures
            (r is Some) == (parse_specifiers(text@, 0) is Some),
            (r matches Some(rp) ==> parse_specifiers(text@, 0) matches Some(sps) && rp@.lower
                == spec_interval(sps).0 && rp@.upper == spec_interval(sps).1 && rp@.text
                == text@ && rp@.name == name@ && rp@.label == label@),
    {
        let chars: Vec<char> = str_chars(text);
        match scan_specifiers(&chars, 0) {
            Option::None => None,
            Option::Some(sps) => {
                proof {
                    lemma_parsed_specifier_bounded(chars@, 0, sps.deep_view());
                }
                let mut lo: Bound = Bound::Unbounded;
                let mut hi: Bound = Bound::Unbounded;
                let mut i: usize = 0;
                while i < sps.len()
                    invariant
                        i <= sps@.len(),
                        (lo@, hi@) == spec_interval(sps.deep_view().subrange(0, i as int)),
                        forall|k: int| 0 <= k < sps.deep_view().len() ==> specifier_ok(
                            #[trigger] sps.deep_view()[k],
                        ),
                    decreases sps@.len() - i,
                {
                    proof {
                        assert(sps.deep_view()[i as int] == sps@[i as int]@);
                        let dv = sps.deep_view();
                        let extended = dv.subrange(0, i + 1 as int);
                        assert(extended.drop_last() =~= dv.subrange(0, i as int));
                        assert(extended.last() == dv[i as int]);
                    }
                    let l: Bound = lower_of_exec(&sps[i]);
                    let u: Bound = upper_of_exec(&sps[i]);
                    lo = lower_max_exec(lo, l);
                    hi = upper_min_exec(hi, u);
                    i = i + 1;
                }
                proof {
                    assert(sps.deep_view().subrange(0, sps.deep_view().len() as int)
                        =~= sps.deep_view());
                }
                Some(
                    RequiresPython {
                        name: String::from_str(name),
                        label: String::from_str(label),
                        text: String::from_str(text),
                        lower: lo,
                        upper: hi,
                    },
                )
            },
        }
    }
}

// ---------------------------------------------------------------------------
// Combination
// ---------------------------------------------------------------------------
/// Whether an interval is empty, bound-wise: its upper end does not lie
/// strictly above its lower end, except that two included equal ends still
/// admit the end itself.
pub open spec fn interval_empty(lo: BoundV, hi: BoundV) -> bool {
    match (lo, hi) {
        (BoundV::Unbounded, _) => false,
        (_, BoundV::Unbounded) => false,
        (BoundV::Included(a), BoundV::Included(b)) => rel_lt(b, a),
        (BoundV::Included(a), BoundV::Excluded(b)) => !rel_lt(a, b),
        (BoundV::Excluded(a), BoundV::Included(b)) => !rel_lt(a, b),
        (BoundV::Excluded(a), BoundV::Excluded(b)) => !rel_lt(a, b),
    }
}

/// Test two bounds for emptiness of the interval between them.
fn interval_empty_exec(lo: &Bound, hi: &Bound) -> (r: bool)
    ensures
        r == interval_empty(lo@, hi@),
{
    match (lo, hi) {
        (Bound::Unbounded, _) => false,
        (_, Bound::Unbounded) => false,
        (Bound::Included(a), Bound::Included(b)) => release_lt(b, a),
        (Bound::Included(a), Bound::Excluded(b)) => !release_lt(a, b),
        (Bound::Excluded(a), Bound::Included(b)) => !release_lt(a, b),
        (Bound::Excluded(a), Bound::Excluded(b)) => !release_lt(a, b),
    }
}

/// Combine the project constraint with the default dependency-group
/// constraint. With both absent there is no constraint; with one present it
/// stands alone; with both present the intersection stands, unless it is
/// empty, which is a conflict naming both scopes in order. The combined
/// constraint carries the scope whose lower bound won (the project's on a
/// tie). Non-default groups never reach this function.
pub fn combine_requires(
    project: Option<&RequiresPython>,
    default_group: Option<&RequiresPython>,
) -> (r: Result<Option<RequiresPython>, Conflict>)
    ensures
        ((project is None && default_group is None) ==> (r matches Ok(c) && c is None)),
        (project matches Some(p) ==> (default_group is None ==> (r matches Ok(c)
            && c matches Some(rp) && rp@ == p@))),
        (default_group matches Some(g) ==> (project is None ==> (r matches Ok(c)
            && c matches Some(rp) && rp@ == g@))),
        (project matches Some(p) ==> (default_group matches Some(g) ==> ({
            let lo = lower_max(p@.lower, g@.lower);
            let hi = upper_min(p@.upper, g@.upper);
            if interval_empty(lo, hi) {
                r matches Err(c) && c.first_name@ == p@.name && c.first_text@ == p@.text
                    && c.second_name@ == g@.name && c.second_text@ == g@.text
            } else {
                r matches Ok(c) && c matches Some(rp) && rp@.lower == lo && rp@.upper == hi
                    && (if lower_max(p@.lower, g@.lower) == p@.lower {
                    rp@.name == p@.name && rp@.label == p@.label && rp@.text == p@.text
                } else {
                    rp@.name == g@.name && rp@.label == g@.label && rp@.text == g@.text
                })
            }
        }))),
{
    match (project, default_group) {
        (Option::None, Option::None) => Result::Ok(None),
        (Option::Some(p), Option::None) => Result::Ok(Some(p.duplicate())),
        (Option::None, Option::Some(g)) => Result::Ok(Some(g.duplicate())),
        (Option::Some(p), Option::Some(g)) => {
            let lo: Bound = lower_max_exec(p.lower.duplicate(), g.lower.duplicate());
            let hi: Bound = upper_min_exec(p.upper.duplicate(), g.upper.duplicate());
            if interval_empty_exec(&lo, &hi) {
                Result::Err(
                    Conflict {
                        first_name: p.name.clone(),
                        first_text: p.text.clone(),
                        second_name: g.name.clone(),
                        second_text: g.text.clone(),
                    },
                )
            } else {
                let project_won: bool = {
                    let probe: Bound = lower_max_exec(p.lower.duplicate(), g.lower.duplicate());
                    bound_eq(&probe, &p.lower)
                };
                let src: &RequiresPython = if project_won {
                    p
                } else {
                    g
                };
                Result::Ok(
                    Some(
                        RequiresPython {
                            name: src.name.clone(),
                            label: src.label.clone(),
                            text: src.text.clone(),
                            lower: lo,
                            upper: hi,
                        },
                    ),
                )
            }
        },
    }
}

/// Test two bounds for equality.
fn bound_eq(a: &Bound, b: &Bound) -> (r: bool)
    ensures
        r == (a@ == b@),
{
    match (a, b) {
        (Bound::Unbounded, Bound::Unbounded) => true,
        (Bound::Included(ra), Bound::Included(rb)) => vecs_eq(ra, rb),
        (Bound::Excluded(ra), Bound::Excluded(rb)) => vecs_eq(ra, rb),
        _ => false,
    }
}

/// Test two number vectors for equality.
fn vecs_eq(a: &Vec<u64>, b: &Vec<u64>) -> (r: bool)
    ensures
        r == (a@ == b@),
{
    if a.len() != b.len() {
        proof {
            assert(a@.len() != b@.len());
        }
        return false;
    }
    let mut i: usize = 0;
    while i < a.len()
        invariant
            i <= a@.len(),
            a@.len() == b@.len(),
            forall|j: int| 0 <= j < i ==> a@[j] == b@[j],
        decreases a@.len() - i,
    {
        if a[i] != b[i] {
            return false;
        }
        i = i + 1;
    }
    proof {
        assert(a@ =~= b@);
    }
    true
}

// ---------------------------------------------------------------------------
// The conflict law
// ---------------------------------------------------------------------------
/// A conflict is real: when the combined interval is empty, no version at
/// all satisfies both scopes' constraints.
pub proof fn lemma_conflict_unsatisfiable(p: RequiresPythonV, g: RequiresPythonV, v: VersionPartsV)
    requires
        interval_empty(lower_max(p.lower, g.lower), upper_min(p.upper, g.upper)),
        requires_satisfied(p, v),
    ensures
        !requires_satisfied(g, v),
{
    let lo = lower_max(p.lower, g.lower);
    let hi = upper_min(p.upper, g.upper);
    if requires_satisfied(g, v) {
        assert(lower_ok(lo, v)) by {
            lemma_lower_max_ok(p.lower, g.lower, v);
        }
        assert(upper_ok(hi, v)) by {
            lemma_upper_min_ok(p.upper, g.upper, v);
        }
        lemma_bounds_nonempty(lo, hi, v);
        assert(false);
    }
}

/// A version above both lower bounds is above the stricter one.
proof fn lemma_lower_max_ok(a: BoundV, b: BoundV, v: VersionPartsV)
    requires
        lower_ok(a, v),
        lower_ok(b, v),
    ensures
        lower_ok(lower_max(a, b), v),
{
}

/// A version below both upper bounds is below the stricter one.
proof fn lemma_upper_min_ok(a: BoundV, b: BoundV, v: VersionPartsV)
    requires
        upper_ok(a, v),
        upper_ok(b, v),
    ensures
        upper_ok(upper_min(a, b), v),
{
}

/// A version inside an interval witnesses that it is not empty.
proof fn lemma_bounds_nonempty(lo: BoundV, hi: BoundV, v: VersionPartsV)
    requires
        lower_ok(lo, v),
        upper_ok(hi, v),
    ensures
        !interval_empty(lo, hi),
{
    match (lo, hi) {
        (BoundV::Unbounded, _) => {},
        (_, BoundV::Unbounded) => {},
        (BoundV::Included(a), BoundV::Included(b)) => {
            lemma_between(a, b, v, false, false);
        },
        (BoundV::Included(a), BoundV::Excluded(b)) => {
            lemma_between(a, b, v, false, true);
        },
        (BoundV::Excluded(a), BoundV::Included(b)) => {
            lemma_between(a, b, v, true, false);
        },
        (BoundV::Excluded(a), BoundV::Excluded(b)) => {
            lemma_between(a, b, v, true, true);
        },
    }
}

/// A version between two releases orders the releases; a strict side makes
/// the ordering strict.
proof fn lemma_between(a: Seq<u64>, b: Seq<u64>, v: VersionPartsV, strict_lo: bool, strict_hi: bool)
    requires
        if strict_lo {
            version_lt(spec_release_version(a), v)
        } else {
            version_le(spec_release_version(a), v)
        },
        if strict_hi {
            version_lt(v, spec_release_version(b))
        } else {
            version_le(v, spec_release_version(b))
        },
    ensures
        !rel_lt(b, a),
        (strict_lo || strict_hi) ==> rel_lt(a, b),
{
    let va = spec_release_version(a);
    let vb = spec_release_version(b);
    lemma_rel_trichotomy(a, b);
    lemma_rel_trichotomy(b, a);
    if version_lt(va, v) && version_lt(v, vb) {
        lemma_version_lt_trans(va, v, vb);
    } else if version_lt(va, v) && version_ord_eq(v, vb) {
        lemma_version_lt_congruence_right(va, v, vb);
    } else if version_ord_eq(va, v) && version_lt(v, vb) {
        lemma_version_lt_congruence_left(va, v, vb);
    } else {
        // both sides are order-equal
        assert(version_ord_eq(va, v) && version_ord_eq(v, vb));
        assert(rel_eq(a, v.release) && rel_eq(v.release, b));
        assert(rel_eq(a, b));
        lemma_rel_lt_congruence(a, b, b);
    }
    if version_lt(va, vb) {
        // a plain release version never differs from another by marker key
        assert(rel_lt(a, b));
    }
}

/// Order against a smaller version is kept under order-equivalence on the
/// right.
proof fn lemma_version_lt_congruence_right(a: VersionPartsV, b: VersionPartsV, c: VersionPartsV)
    requires
        version_lt(a, b),
        version_ord_eq(b, c),
    ensures
        version_lt(a, c),
{
    lemma_rel_lt_congruence(b.release, c.release, a.release);
}

/// Order against a larger version is kept under order-equivalence on the
/// left.
proof fn lemma_version_lt_congruence_left(a: VersionPartsV, b: VersionPartsV, c: VersionPartsV)
    requires
        version_ord_eq(a, b),
        version_lt(b, c),
    ensures
        version_lt(a, c),
{
    lemma_rel_lt_congruence(a.release, b.release, c.release);
}

} // verus!
