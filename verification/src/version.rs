//! The version value model: epoch, release numbers, pre/post/dev markers.
//!
//! Arbitrary version text is decoded by the PEP 440 parser of `uv_pep440`
//! behind a trusted wrapper; everything downstream of the parse — validation,
//! rendering, ordering — is verified against the component model.

use vstd::prelude::*;
use vstd::string::StringExecFns;

use crate::strutil::{render_u64, spec_digits};

verus! {

/// The kind of a pre-release marker.
#[derive(Clone, Copy, Debug, PartialEq, Eq, Structural)]
pub enum PreKind {
    Alpha,
    Beta,
    Rc,
}

/// A pre-release marker: kind and number (`a1`, `b2`, `rc3`).
#[derive(Clone, Copy, Debug, PartialEq, Eq, Structural)]
pub struct Prerelease {
    pub kind: PreKind,
    pub number: u64,
}

/// The decoded components of a version.
#[derive(Clone, Debug)]
pub struct VersionParts {
    pub epoch: u64,
    pub release: Vec<u64>,
    pub pre: Option<Prerelease>,
    pub post: Option<u64>,
    pub dev: Option<u64>,
    /// Whether the source text carried local segments; the segments
    /// themselves are never consulted by this engine.
    pub local: bool,
}

/// The mathematical shape of a version.
pub struct VersionPartsV {
    pub epoch: u64,
    pub release: Seq<u64>,
    pub pre: Option<Prerelease>,
    pub post: Option<u64>,
    pub dev: Option<u64>,
    pub local: bool,
}

impl View for VersionParts {
    type V = VersionPartsV;

    open spec fn view(&self) -> VersionPartsV {
        VersionPartsV {
            epoch: self.epoch,
            release: self.release@,
            pre: self.pre,
            post: self.post,
            dev: self.dev,
            local: self.local,
        }
    }
}

impl VersionPartsV {
    /// The release component at an index, zero when absent.
    pub open spec fn part(self, i: int) -> u64 {
        if 0 <= i < self.release.len() {
            self.release[i]
        } else {
            0
        }
    }

    /// The major number.
    pub open spec fn major(self) -> u64 {
        self.part(0)
    }

    /// The minor number.
    pub open spec fn minor(self) -> u64 {
        self.part(1)
    }

    /// The patch number, when a third release component is present.
    pub open spec fn patch(self) -> Option<u64> {
        if self.release.len() >= 3 {
            Some(self.release[2])
        } else {
            None
        }
    }

}

/// A plain release-only version value from its numbers.
pub open spec fn spec_release_version(release: Seq<u64>) -> VersionPartsV {
    VersionPartsV { epoch: 0, release, pre: None, post: None, dev: None, local: false }
}

impl VersionParts {
    /// A plain release-only version from its numbers.
    pub fn from_release(release: Vec<u64>) -> (r: VersionParts)
        ensures
            r@ == spec_release_version(release@),
    {
        VersionParts { epoch: 0, release, pre: None, post: None, dev: None, local: false }
    }

    /// An equal copy.
    pub fn duplicate(&self) -> (r: VersionParts)
        ensures
            r@ == self@,
    {
        let mut release: Vec<u64> = Vec::new();
        let mut i: usize = 0;
        while i < self.release.len()
            invariant
                i <= self.release.len(),
                release@ =~= self.release@.subrange(0, i as int),
            decreases self.release.len() - i,
        {
            release.push(self.release[i]);
            i = i + 1;
        }
        proof {
            assert(release@ =~= self.release@);
        }
        VersionParts {
            epoch: self.epoch,
            release,
            pre: self.pre,
            post: self.post,
            dev: self.dev,
            local: self.local,
        }
    }
}

// ---------------------------------------------------------------------------
// Rendering
// ---------------------------------------------------------------------------
/// The rendering of release numbers, dot-separated.
pub open spec fn spec_render_release(r: Seq<u64>) -> Seq<char>
    decreases r.len(),
{
    if r.len() == 0 {
        Seq::empty()
    } else if r.len() == 1 {
        spec_digits(r[0] as int)
    } else {
        spec_render_release(r.drop_last()) + seq!['.'] + spec_digits(r.last() as int)
    }
}

/// The rendering of a pre-release kind.
pub open spec fn spec_render_pre_kind(k: PreKind) -> Seq<char> {
    match k {
        PreKind::Alpha => seq!['a'],
        PreKind::Beta => seq!['b'],
        PreKind::Rc => seq!['r', 'c'],
    }
}

/// The normalized rendering of a version: epoch (when non-zero), release
/// numbers, then pre/post/dev markers. Local segments are not retained by
/// the model and do not render.
pub open spec fn spec_render_version(v: VersionPartsV) -> Seq<char> {
    let epoch_part = if v.epoch == 0 {
        Seq::<char>::empty()
    } else {
        spec_digits(v.epoch as int) + seq!['!']
    };
    let pre_part = match v.pre {
        Option::None => Seq::<char>::empty(),
        Option::Some(p) => spec_render_pre_kind(p.kind) + spec_digits(p.number as int),
    };
    let post_part = match v.post {
        Option::None => Seq::<char>::empty(),
        Option::Some(n) => seq!['.', 'p', 'o', 's', 't'] + spec_digits(n as int),
    };
    let dev_part = match v.dev {
        Option::None => Seq::<char>::empty(),
        Option::Some(n) => seq!['.', 'd', 'e', 'v'] + spec_digits(n as int),
    };
    epoch_part + spec_render_release(v.release) + pre_part + post_part + dev_part
}

/// Render release numbers as dot-separated decimal text.
pub fn render_release(r: &Vec<u64>) -> (s: String)
    ensures
        s@ == spec_render_release(r@),
{
    proof {
        reveal_strlit(".");
    }
    let mut s: String = String::new();
    let mut i: usize = 0;
    while i < r.len()
        invariant
            i <= r.len(),
            s@ == spec_render_release(r@.subrange(0, i as int)),
            "."@ =~= seq!['.'],
        decreases r.len() - i,
    {
        if i > 0 {
            s.append(".");
        }
        let piece: String = render_u64(r[i]);
        s.append(piece.as_str());
        proof {
            let prefix = r@.subrange(0, i as int);
            let extended = r@.subrange(0, i + 1 as int);
            assert(extended.drop_last() =~= prefix);
            assert(extended.last() == r@[i as int]);
            if i == 0 {
                assert(spec_render_release(extended) == spec_digits(r@[0] as int));
                assert(s@ =~= spec_render_release(extended));
            } else {
                assert(spec_render_release(extended) == spec_render_release(prefix) + seq!['.']
                    + spec_digits(r@[i as int] as int));
                assert(s@ =~= spec_render_release(extended));
            }
        }
        i = i + 1;
    }
    proof {
        assert(r@.subrange(0, r@.len() as int) =~= r@);
    }
    s
}

/// Render a version in its normalized form.
pub fn render_version(v: &VersionParts) -> (s: String)
    ensures
        s@ == spec_render_version(v@),
{
    proof {
        reveal_strlit("!");
        reveal_strlit("a");
        reveal_strlit("b");
        reveal_strlit("rc");
        reveal_strlit(".post");
        reveal_strlit(".dev");
    }
    let ghost epoch_part: Seq<char> = if v@.epoch == 0 {
        Seq::<char>::empty()
    } else {
        spec_digits(v@.epoch as int) + seq!['!']
    };
    let ghost pre_part: Seq<char> = match v@.pre {
        Option::None => Seq::<char>::empty(),
        Option::Some(p) => spec_render_pre_kind(p.kind) + spec_digits(p.number as int),
    };
    let ghost post_part: Seq<char> = match v@.post {
        Option::None => Seq::<char>::empty(),
        Option::Some(n) => seq!['.', 'p', 'o', 's', 't'] + spec_digits(n as int),
    };
    let ghost dev_part: Seq<char> = match v@.dev {
        Option::None => Seq::<char>::empty(),
        Option::Some(n) => seq!['.', 'd', 'e', 'v'] + spec_digits(n as int),
    };
    let mut s: String = String::new();
    if v.epoch != 0 {
        let epoch_text: String = render_u64(v.epoch);
        s.append(epoch_text.as_str());
        s.append("!");
    }
    proof {
        assert(s@ =~= epoch_part);
    }
    let release_text: String = render_release(&v.release);
    s.append(release_text.as_str());
    match &v.pre {
        Option::None => {},
        Option::Some(p) => {
            match p.kind {
                PreKind::Alpha => s.append("a"),
                PreKind::Beta => s.append("b"),
                PreKind::Rc => s.append("rc"),
            }
            proof {
                assert("a"@ =~= spec_render_pre_kind(PreKind::Alpha));
                assert("b"@ =~= spec_render_pre_kind(PreKind::Beta));
                assert("rc"@ =~= spec_render_pre_kind(PreKind::Rc));
            }
            let num: String = render_u64(p.number);
            s.append(num.as_str());
        },
    }
    proof {
        assert(s@ =~= epoch_part + spec_render_release(v@.release) + pre_part);
    }
    match &v.post {
        Option::None => {},
        Option::Some(n) => {
            s.append(".post");
            let num: String = render_u64(*n);
            s.append(num.as_str());
            proof {
                assert(".post"@ =~= seq!['.', 'p', 'o', 's', 't']);
            }
        },
    }
    proof {
        assert(s@ =~= epoch_part + spec_render_release(v@.release) + pre_part + post_part);
    }
    match &v.dev {
        Option::None => {},
        Option::Some(n) => {
            s.append(".dev");
            let num: String = render_u64(*n);
            s.append(num.as_str());
            proof {
                assert(".dev"@ =~= seq!['.', 'd', 'e', 'v']);
            }
        },
    }
    proof {
        assert(s@ =~= epoch_part + spec_render_release(v@.release) + pre_part + post_part
            + dev_part);
        assert(s@ =~= spec_render_version(v@));
    }
    s
}

// ---------------------------------------------------------------------------
// Ordering
// ---------------------------------------------------------------------------
/// The release component at an index, zero-padded past the end.
pub open spec fn pad(r: Seq<u64>, i: int) -> u64 {
    if 0 <= i < r.len() {
        r[i]
    } else {
        0
    }
}

/// Strict order on zero-padded release numbers, from a position on.
pub open spec fn rel_lt_from(a: Seq<u64>, b: Seq<u64>, i: int) -> bool
    decreases (if i < a.len() { a.len() - i } else { 0 }) + (if i < b.len() {
        b.len() - i
    } else {
        0
    }),
{
    if i >= a.len() && i >= b.len() {
        false
    } else if pad(a, i) < pad(b, i) {
        true
    } else if pad(a, i) > pad(b, i) {
        false
    } else {
        rel_lt_from(a, b, i + 1)
    }
}

/// Strict order on zero-padded release numbers.
pub open spec fn rel_lt(a: Seq<u64>, b: Seq<u64>) -> bool {
    rel_lt_from(a, b, 0)
}

/// Equality of zero-padded release numbers.
pub open spec fn rel_eq(a: Seq<u64>, b: Seq<u64>) -> bool {
    forall|i: int| 0 <= i ==> pad(a, i) == pad(b, i)
}

/// Padded releases compare in exactly one way.
pub proof fn lemma_rel_trichotomy(a: Seq<u64>, b: Seq<u64>)
    ensures
        rel_lt(a, b) <==> (!rel_eq(a, b) && !rel_lt(b, a)),
{
    lemma_rel_trichotomy_from(a, b, 0);
}

proof fn lemma_rel_trichotomy_from(a: Seq<u64>, b: Seq<u64>, i: int)
    requires
        0 <= i,
        forall|j: int| 0 <= j < i ==> pad(a, j) == pad(b, j),
    ensures
        rel_lt_from(a, b, i) <==> (!rel_eq(a, b) && !rel_lt_from(b, a, i)),
    decreases (if i < a.len() { a.len() - i } else { 0 }) + (if i < b.len() {
        b.len() - i
    } else {
        0
    }),
{
    if i >= a.len() && i >= b.len() {
        assert(forall|j: int| 0 <= j ==> pad(a, j) == pad(b, j)) by {
            assert forall|j: int| 0 <= j implies pad(a, j) == pad(b, j) by {
                if j >= i {
                    assert(pad(a, j) == 0 && pad(b, j) == 0);
                }
            }
        }
        assert(rel_eq(a, b));
    } else if pad(a, i) < pad(b, i) {
        assert(!rel_eq(a, b));
    } else if pad(a, i) > pad(b, i) {
        assert(!rel_eq(a, b));
    } else {
        lemma_rel_trichotomy_from(a, b, i + 1);
    }
}

/// Strict order is transitive on padded releases.
pub proof fn lemma_rel_lt_trans(a: Seq<u64>, b: Seq<u64>, c: Seq<u64>)
    requires
        rel_lt(a, b),
        rel_lt(b, c),
    ensures
        rel_lt(a, c),
{
    lemma_rel_lt_trans_from(a, b, c, 0);
}

/// Order against a third release is unchanged when two releases agree padded.
pub proof fn lemma_rel_lt_congruence(a: Seq<u64>, b: Seq<u64>, c: Seq<u64>)
    requires
        rel_eq(a, b),
    ensures
        rel_lt(a, c) == rel_lt(b, c),
        rel_lt(c, a) == rel_lt(c, b),
{
    lemma_rel_lt_congruence_from(a, b, c, 0);
}

proof fn lemma_rel_lt_congruence_from(a: Seq<u64>, b: Seq<u64>, c: Seq<u64>, i: int)
    requires
        0 <= i,
        rel_eq(a, b),
    ensures
        rel_lt_from(a, c, i) == rel_lt_from(b, c, i),
        rel_lt_from(c, a, i) == rel_lt_from(c, b, i),
    decreases (if i < a.len() { a.len() - i } else { 0 }) + (if i < b.len() {
        b.len() - i
    } else {
        0
    }) + (if i < c.len() {
        c.len() - i
    } else {
        0
    }),
{
    if i >= a.len() && i >= b.len() && i >= c.len() {
    } else {
        lemma_rel_lt_congruence_from(a, b, c, i + 1);
    }
}

proof fn lemma_rel_lt_trans_from(a: Seq<u64>, b: Seq<u64>, c: Seq<u64>, i: int)
    requires
        0 <= i,
        rel_lt_from(a, b, i),
        rel_lt_from(b, c, i),
    ensures
        rel_lt_from(a, c, i),
    decreases (if i < a.len() { a.len() - i } else { 0 }) + (if i < b.len() {
        b.len() - i
    } else {
        0
    }) + (if i < c.len() {
        c.len() - i
    } else {
        0
    }),
{
    if pad(a, i) == pad(b, i) && pad(b, i) == pad(c, i) {
        lemma_rel_lt_trans_from(a, b, c, i + 1);
    }
}

/// The rank of a pre-release kind in the ordering.
pub open spec fn pre_kind_rank(k: PreKind) -> int {
    match k {
        PreKind::Alpha => 0,
        PreKind::Beta => 1,
        PreKind::Rc => 2,
    }
}

/// The ordering key of the markers after the release numbers: a development
/// release sorts below a pre-release, which sorts below the final release;
/// post-releases sort above; a development marker sorts a version below the
/// same version without one.
pub open spec fn suffix_key(v: VersionPartsV) -> (int, int, int, int, int, int, int) {
    let (p0, p1, p2): (int, int, int) = match v.pre {
        Option::Some(p) => (1, pre_kind_rank(p.kind), p.number as int),
        Option::None => if v.dev is Some {
            (0, 0, 0)
        } else {
            (2, 0, 0)
        },
    };
    let (q0, q1): (int, int) = match v.post {
        Option::Some(n) => (1, n as int),
        Option::None => (0, 0),
    };
    let (d0, d1): (int, int) = match v.dev {
        Option::Some(n) => (0, n as int),
        Option::None => (1, 0),
    };
    (p0, p1, p2, q0, q1, d0, d1)
}

/// Lexicographic order on seven-part keys.
pub open spec fn key_lt(a: (int, int, int, int, int, int, int), b: (int, int, int, int, int, int, int)) -> bool {
    a.0 < b.0 || (a.0 == b.0 && (a.1 < b.1 || (a.1 == b.1 && (a.2 < b.2 || (a.2 == b.2 && (a.3
        < b.3 || (a.3 == b.3 && (a.4 < b.4 || (a.4 == b.4 && (a.5 < b.5 || (a.5 == b.5 && a.6
        < b.6)))))))))))
}

/// Strict version order: epoch, then zero-padded release numbers, then the
/// marker key. Local segments never participate.
pub open spec fn version_lt(a: VersionPartsV, b: VersionPartsV) -> bool {
    a.epoch < b.epoch || (a.epoch == b.epoch && (rel_lt(a.release, b.release) || (rel_eq(
        a.release,
        b.release,
    ) && key_lt(suffix_key(a), suffix_key(b)))))
}

/// Order-equivalence of versions: equal in every part the order consults.
pub open spec fn version_ord_eq(a: VersionPartsV, b: VersionPartsV) -> bool {
    a.epoch == b.epoch && rel_eq(a.release, b.release) && suffix_key(a) == suffix_key(b)
}

/// Non-strict version order.
pub open spec fn version_le(a: VersionPartsV, b: VersionPartsV) -> bool {
    version_lt(a, b) || version_ord_eq(a, b)
}

/// Versions compare in exactly one way.
pub proof fn lemma_version_trichotomy(a: VersionPartsV, b: VersionPartsV)
    ensures
        version_lt(a, b) <==> (!version_ord_eq(a, b) && !version_lt(b, a)),
{
    lemma_rel_trichotomy(a.release, b.release);
    lemma_rel_trichotomy(b.release, a.release);
}

/// Strict version order is transitive.
pub proof fn lemma_version_lt_trans(a: VersionPartsV, b: VersionPartsV, c: VersionPartsV)
    requires
        version_lt(a, b),
        version_lt(b, c),
    ensures
        version_lt(a, c),
{
    lemma_rel_trichotomy(a.release, b.release);
    lemma_rel_trichotomy(b.release, c.release);
    lemma_rel_trichotomy(a.release, c.release);
    if rel_lt(a.release, b.release) && rel_lt(b.release, c.release) {
        lemma_rel_lt_trans(a.release, b.release, c.release);
    }
    if rel_eq(a.release, b.release) {
        lemma_rel_lt_congruence(a.release, b.release, c.release);
    }
    if rel_eq(b.release, c.release) {
        lemma_rel_lt_congruence(b.release, c.release, a.release);
    }
}

/// Compare zero-padded release numbers.
pub fn release_lt(a: &Vec<u64>, b: &Vec<u64>) -> (r: bool)
    ensures
        r == rel_lt(a@, b@),
{
    let mut i: usize = 0;
    loop
        invariant
            0 <= i,
            rel_lt(a@, b@) == rel_lt_from(a@, b@, i as int),
        decreases (if i < a.len() { a.len() - i } else { 0 }) + (if i < b.len() {
            b.len() - i
        } else {
            0
        }),
    {
        if i >= a.len() && i >= b.len() {
            return false;
        }
        let pa: u64 = if i < a.len() { a[i] } else { 0 };
        let pb: u64 = if i < b.len() { b[i] } else { 0 };
        if pa < pb {
            return true;
        }
        if pa > pb {
            return false;
        }
        i = i + 1;
    }
}

/// Test order-equivalence of two versions.
pub fn version_parts_ord_eq(a: &VersionParts, b: &VersionParts) -> (r: bool)
    ensures
        r == version_ord_eq(a@, b@),
{
    proof {
        lemma_rel_trichotomy(a@.release, b@.release);
        lemma_rel_trichotomy(b@.release, a@.release);
    }
    if a.epoch != b.epoch {
        return false;
    }
    if release_lt(&a.release, &b.release) || release_lt(&b.release, &a.release) {
        return false;
    }
    suffix_keys_equal(a, b)
}

/// Test equality of the marker keys.
fn suffix_keys_equal(a: &VersionParts, b: &VersionParts) -> (r: bool)
    ensures
        r == (suffix_key(a@) == suffix_key(b@)),
{
    let pre_same: bool = match (&a.pre, &b.pre) {
        (Option::None, Option::None) => (a.dev.is_some() == b.dev.is_some()),
        (Option::Some(x), Option::Some(y)) => {
            let kind_same: bool = match (x.kind, y.kind) {
                (PreKind::Alpha, PreKind::Alpha) => true,
                (PreKind::Beta, PreKind::Beta) => true,
                (PreKind::Rc, PreKind::Rc) => true,
                _ => false,
            };
            kind_same && x.number == y.number
        },
        _ => false,
    };
    let post_same: bool = match (&a.post, &b.post) {
        (Option::None, Option::None) => true,
        (Option::Some(x), Option::Some(y)) => *x == *y,
        _ => false,
    };
    let dev_same: bool = match (&a.dev, &b.dev) {
        (Option::None, Option::None) => true,
        (Option::Some(x), Option::Some(y)) => *x == *y,
        _ => false,
    };
    pre_same && post_same && dev_same
}

/// Compare the marker keys strictly.
fn suffix_key_lt(a: &VersionParts, b: &VersionParts) -> (r: bool)
    ensures
        r == key_lt(suffix_key(a@), suffix_key(b@)),
{
    let (ap0, ap1, ap2): (u64, u64, u64) = match &a.pre {
        Option::Some(p) => (
            1,
            match p.kind { PreKind::Alpha => 0, PreKind::Beta => 1, PreKind::Rc => 2 },
            p.number,
        ),
        Option::None => if a.dev.is_some() { (0, 0, 0) } else { (2, 0, 0) },
    };
    let (bp0, bp1, bp2): (u64, u64, u64) = match &b.pre {
        Option::Some(p) => (
            1,
            match p.kind { PreKind::Alpha => 0, PreKind::Beta => 1, PreKind::Rc => 2 },
            p.number,
        ),
        Option::None => if b.dev.is_some() { (0, 0, 0) } else { (2, 0, 0) },
    };
    let (aq0, aq1): (u64, u64) = match &a.post {
        Option::Some(n) => (1, *n),
        Option::None => (0, 0),
    };
    let (bq0, bq1): (u64, u64) = match &b.post {
        Option::Some(n) => (1, *n),
        Option::None => (0, 0),
    };
    let (ad0, ad1): (u64, u64) = match &a.dev {
        Option::Some(n) => (0, *n),
        Option::None => (1, 0),
    };
    let (bd0, bd1): (u64, u64) = match &b.dev {
        Option::Some(n) => (0, *n),
        Option::None => (1, 0),
    };
    if ap0 != bp0 {
        return ap0 < bp0;
    }
    if ap1 != bp1 {
        return ap1 < bp1;
    }
    if ap2 != bp2 {
        return ap2 < bp2;
    }
    if aq0 != bq0 {
        return aq0 < bq0;
    }
    if aq1 != bq1 {
        return aq1 < bq1;
    }
    if ad0 != bd0 {
        return ad0 < bd0;
    }
    ad1 < bd1
}

/// Compare two versions strictly.
pub fn version_parts_lt(a: &VersionParts, b: &VersionParts) -> (r: bool)
    ensures
        r == version_lt(a@, b@),
{
    proof {
        lemma_rel_trichotomy(a@.release, b@.release);
        lemma_rel_trichotomy(b@.release, a@.release);
    }
    if a.epoch < b.epoch {
        return true;
    }
    if a.epoch > b.epoch {
        return false;
    }
    if release_lt(&a.release, &b.release) {
        return true;
    }
    if release_lt(&b.release, &a.release) {
        return false;
    }
    suffix_key_lt(a, b)
}

/// Compare two versions non-strictly.
pub fn version_parts_le(a: &VersionParts, b: &VersionParts) -> (r: bool)
    ensures
        r == version_le(a@, b@),
{
    version_parts_lt(a, b) || version_parts_ord_eq(a, b)
}

// ---------------------------------------------------------------------------
// The PEP 440 parser, trusted
// ---------------------------------------------------------------------------
/// What the PEP 440 parser of `uv_pep440` produces for a given text: either
/// the decoded components or the parser's error message. The outcome depends
/// on the text alone.
pub uninterp spec fn pep440_parse_spec(s: Seq<char>) -> Result<VersionPartsV, Seq<char>>;

/// Relies on `uv_pep440::Version::from_str`: parses PEP 440 version text into
/// epoch, release numbers, pre/post/dev markers and local segments, or fails
/// with a message; the outcome is a function of the input text alone.
#[verifier::external_body]
pub(crate) fn pep440_parse(s: &str) -> (r: Result<VersionParts, String>)
    ensures
        (r is Ok) == (pep440_parse_spec(s@) is Ok),
        (r matches Ok(p) ==> pep440_parse_spec(s@) matches Ok(q) && p@ == q),
        (r matches Err(e) ==> pep440_parse_spec(s@) matches Err(m) && e@ == m),
{
    match <uv_pep440::Version as core::str::FromStr>::from_str(s) {
        Ok(v) => {
            let pre = v.pre().map(|p| Prerelease {
                kind: match p.kind {
                    uv_pep440::PrereleaseKind::Alpha => PreKind::Alpha,
                    uv_pep440::PrereleaseKind::Beta => PreKind::Beta,
                    uv_pep440::PrereleaseKind::Rc => PreKind::Rc,
                },
                number: p.number,
            });
            let release = v.release().to_vec();
            Ok(VersionParts { epoch: v.epoch(), release, pre, post: v.post(), dev: v.dev(), local: v.is_local() })
        },
        Err(e) => Err(e.to_string()),
    }
}

} // verus!
