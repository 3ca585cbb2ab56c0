//! Parsing of interpreter request text into structured requests, and
//! matching of requests against probed interpreter metadata.
//!
//! Free text never fails to parse: text that is not version-shaped, not a
//! known implementation, not key syntax and not path-like becomes an
//! executable-name request. Only a version below the supported floor (or a
//! free-threading suffix on a version below the first free-threaded release)
//! is refused, eagerly, before any discovery begins.

use vstd::prelude::*;
use vstd::string::StringExecFns;

use crate::strutil::{
    capped_val, chars_to_string, digits_end, digits_val, find_char, find_from, lemma_digits_end,
    read_capped, render_u64, run_end, skip_digits, skip_run, spec_digits, split_char, split_from,
    str_chars, str_eq, sub_chars,
};
use crate::version::{
    pad, rel_lt, spec_release_version, version_le, version_lt, version_ord_eq,
    version_parts_le, version_parts_lt, version_parts_ord_eq, VersionParts, VersionPartsV,
};

verus! {

/// An interpreter build variant orthogonal to its version.
#[derive(Clone, Copy, Debug, PartialEq, Eq, Structural)]
pub enum PythonVariant {
    Standard,
    Freethreaded,
}

/// A known interpreter implementation.
#[derive(Clone, Copy, Debug, PartialEq, Eq, Structural)]
pub enum ImplementationName {
    CPython,
    PyPy,
    GraalPy,
}

/// A dotted version request: major, optional minor and patch, and variant.
#[derive(Clone, Copy, Debug, PartialEq, Eq, Structural)]
pub struct Dotted {
    pub major: u64,
    pub minor: Option<u64>,
    pub patch: Option<u64>,
    pub variant: PythonVariant,
}

/// A comparison operator of a version specifier.
#[derive(Clone, Copy, Debug, PartialEq, Eq, Structural)]
pub enum CompareOp {
    Less,
    LessEq,
    Equal,
    NotEqual,
    GreaterEq,
    Greater,
}

/// One version specifier: an operator applied to release numbers, with an
/// optional trailing wildcard for (in)equality on a release prefix.
#[derive(Clone, Debug)]
pub struct Specifier {
    pub op: CompareOp,
    pub release: Vec<u64>,
    pub star: bool,
}

/// The mathematical shape of a [`Specifier`].
pub struct SpecifierV {
    pub op: CompareOp,
    pub release: Seq<u64>,
    pub star: bool,
}

impl View for Specifier {
    type V = SpecifierV;

    open spec fn view(&self) -> SpecifierV {
        SpecifierV { op: self.op, release: self.release@, star: self.star }
    }
}

impl DeepView for Specifier {
    type V = SpecifierV;

    open spec fn deep_view(&self) -> SpecifierV {
        self.view()
    }
}

impl Specifier {
    /// An equal copy.
    pub fn duplicate(&self) -> (r: Specifier)
        ensures
            r@ == self@,
    {
        let mut release: Vec<u64> = Vec::new();
        let mut i: usize = 0;
        while i < self.release.len()
            invariant
                i <= self.release.len(),
                release@ =~= self.release@.subrange(0, i as int),
            decreases self.release.len() - i,
        {
            release.push(self.release[i]);
            i = i + 1;
        }
        proof {
            assert(release@ =~= self.release@);
        }
        Specifier { op: self.op, release, star: self.star }
    }
}

// ---------------------------------------------------------------------------
// Grammar: dotted components and specifiers
// ---------------------------------------------------------------------------
/// Dot-separated release numbers starting at a position: the numbers, the
/// position after them, and whether a trailing `.*` wildcard closed the list.
/// Every number must fit the marker range.
pub open spec fn parse_comps(s: Seq<char>, i: int) -> Option<(Seq<u64>, int, bool)>
    decreases s.len() - i,
{
    let e = digits_end(s, i);
    if e <= i || e > s.len() {
        None
    } else if capped_val(s.subrange(i, e)) > 255 {
        None
    } else {
        let val = capped_val(s.subrange(i, e)) as u64;
        if e + 1 < s.len() && s[e] == '.' && s[e + 1] == '*' {
            Some((seq![val], e + 2, true))
        } else if e < s.len() && s[e] == '.' {
            match parse_comps(s, e + 1) {
                Option::None => None,
                Option::Some((rest, j, st)) => Some((seq![val] + rest, j, st)),
            }
        } else {
            Some((seq![val], e, false))
        }
    }
}

/// Parsed release numbers end strictly past their start and within the text,
/// and at least one number is read.
pub proof fn lemma_parse_comps_bounds(s: Seq<char>, i: int)
    requires
        0 <= i,
    ensures
        parse_comps(s, i) matches Some((rel, j, st)) ==> i < j <= s.len() && rel.len() >= 1,
    decreases s.len() - i,
{
    let e = digits_end(s, i);
    if e <= i || e > s.len() {
    } else if capped_val(s.subrange(i, e)) > 255 {
    } else {
        if e + 1 < s.len() && s[e] == '.' && s[e + 1] == '*' {
        } else if e < s.len() && s[e] == '.' {
            lemma_parse_comps_bounds(s, e + 1);
        }
    }
}

/// Read dot-separated release numbers.
pub fn scan_comps(v: &Vec<char>, start: usize) -> (r: Option<(Vec<u64>, usize, bool)>)
    requires
        start <= v@.len(),
    ensures
        (r is Some) == (parse_comps(v@, start as int) is Some),
        (r matches Some((comps, end, star)) ==> parse_comps(v@, start as int) matches Some(
            (c2, e2, s2),
        ) && comps@ == c2 && end == e2 && star == s2),
    decreases v@.len() - start,
{
    proof {
        lemma_digits_end(v@, start as int);
    }
    let e: usize = skip_digits(v, start);
    if e <= start {
        return None;
    }
    let val: u64 = read_capped(v, start, e);
    if val > 255 {
        return None;
    }
    if e < v.len() && v[e] == '.' && e + 1 < v.len() && v[e + 1] == '*' {
        let mut comps: Vec<u64> = Vec::new();
        comps.push(val);
        proof {
            assert(comps@ =~= seq![val]);
        }
        Some((comps, e + 2, true))
    } else if e < v.len() && v[e] == '.' {
        match scan_comps(v, e + 1) {
            Option::None => None,
            Option::Some((rest, j, st)) => {
                let mut comps: Vec<u64> = Vec::new();
                comps.push(val);
                let mut tail: Vec<u64> = rest;
                comps.append(&mut tail);
                proof {
                    assert(parse_comps(v@, start as int) matches Some((c2, e2, s2)) && comps@
                        =~= c2);
                }
                Some((comps, j, st))
            },
        }
    } else {
        let mut comps: Vec<u64> = Vec::new();
        comps.push(val);
        proof {
            assert(comps@ =~= seq![val]);
        }
        Some((comps, e, false))
    }
}

/// A comparison operator at a position: the operator and the position after.
pub open spec fn parse_op(s: Seq<char>, i: int) -> Option<(CompareOp, int)> {
    if 0 <= i && i + 2 <= s.len() && s[i] == '>' && s[i + 1] == '=' {
        Some((CompareOp::GreaterEq, i + 2))
    } else if 0 <= i && i + 2 <= s.len() && s[i] == '<' && s[i + 1] == '=' {
        Some((CompareOp::LessEq, i + 2))
    } else if 0 <= i && i + 2 <= s.len() && s[i] == '=' && s[i + 1] == '=' {
        Some((CompareOp::Equal, i + 2))
    } else if 0 <= i && i + 2 <= s.len() && s[i] == '!' && s[i + 1] == '=' {
        Some((CompareOp::NotEqual, i + 2))
    } else if 0 <= i && i + 1 <= s.len() && s[i] == '>' {
        Some((CompareOp::Greater, i + 1))
    } else if 0 <= i && i + 1 <= s.len() && s[i] == '<' {
        Some((CompareOp::Less, i + 1))
    } else {
        None
    }
}

/// Read a comparison operator.
pub fn scan_op(v: &Vec<char>, i: usize) -> (r: Option<(CompareOp, usize)>)
    requires
        i <= v@.len(),
    ensures
        (r is Some) == (parse_op(v@, i as int) is Some),
        (r matches Some((op, j)) ==> parse_op(v@, i as int) matches Some((o2, j2)) && op == o2
            && j == j2),
{
    if i < v.len() && i + 1 < v.len() && v[i] == '>' && v[i + 1] == '=' {
        Some((CompareOp::GreaterEq, i + 2))
    } else if i < v.len() && i + 1 < v.len() && v[i] == '<' && v[i + 1] == '=' {
        Some((CompareOp::LessEq, i + 2))
    } else if i < v.len() && i + 1 < v.len() && v[i] == '=' && v[i + 1] == '=' {
        Some((CompareOp::Equal, i + 2))
    } else if i < v.len() && i + 1 < v.len() && v[i] == '!' && v[i + 1] == '=' {
        Some((CompareOp::NotEqual, i + 2))
    } else if i < v.len() && v[i] == '>' {
        Some((CompareOp::Greater, i + 1))
    } else if i < v.len() && v[i] == '<' {
        Some((CompareOp::Less, i + 1))
    } else {
        None
    }
}

/// One specifier at a position, spaces allowed around it: the specifier and
/// the position after its trailing spaces. The wildcard is accepted only on
/// (in)equality.
pub open spec fn parse_specifier(s: Seq<char>, i: int) -> Option<(SpecifierV, int)> {
    let lo = run_end(s, ' ', i);
    match parse_op(s, lo) {
        Option::None => None,
        Option::Some((op, k)) => match parse_comps(s, k) {
            Option::None => None,
            Option::Some((rel, j, star)) => if star && !(op == CompareOp::Equal || op
                == CompareOp::NotEqual) {
                None
            } else {
                Some((SpecifierV { op, release: rel, star }, run_end(s, ' ', j)))
            },
        },
    }
}

/// Read one specifier.
pub fn scan_specifier(v: &Vec<char>, i: usize) -> (r: Option<(Specifier, usize)>)
    requires
        i <= v@.len(),
    ensures
        (r is Some) == (parse_specifier(v@, i as int) is Some),
        (r matches Some((sp, j)) ==> parse_specifier(v@, i as int) matches Some((sp2, j2))
            && sp@ == sp2 && j == j2),
{
    let lo: usize = skip_run(v, ' ', i);
    match scan_op(v, lo) {
        Option::None => None,
        Option::Some((op, k)) => {
            proof {
                assert(parse_op(v@, lo as int) matches Some((o2, k2)) && k2 <= v@.len());
            }
            match scan_comps(v, k) {
                Option::None => None,
                Option::Some((rel, j, star)) => {
                    if star && !(matches!(op, CompareOp::Equal) || matches!(
                        op,
                        CompareOp::NotEqual,
                    )) {
                        None
                    } else {
                        proof {
                            lemma_parse_comps_bounds(v@, k as int);
                        }
                        let end: usize = skip_run(v, ' ', j);
                        Some((Specifier { op, release: rel, star }, end))
                    }
                },
            }
        },
    }
}

/// A comma-separated list of specifiers filling the text from a position to
/// its end.
pub open spec fn parse_specifiers(s: Seq<char>, i: int) -> Option<Seq<SpecifierV>>
    decreases s.len() - i,
{
    match parse_specifier(s, i) {
        Option::None => None,
        Option::Some((sp, j)) => if j <= i || j > s.len() {
            None
        } else if j == s.len() {
            Some(seq![sp])
        } else if s[j] == ',' {
            match parse_specifiers(s, j + 1) {
                Option::None => None,
                Option::Some(rest) => Some(seq![sp] + rest),
            }
        } else {
            None
        },
    }
}

/// Read a comma-separated list of specifiers filling the text to its end.
pub fn scan_specifiers(v: &Vec<char>, i: usize) -> (r: Option<Vec<Specifier>>)
    requires
        i <= v@.len(),
    ensures
        (r is Some) == (parse_specifiers(v@, i as int) is Some),
        (r matches Some(sps) ==> parse_specifiers(v@, i as int) matches Some(sps2)
            && sps.deep_view() == sps2),
    decreases v@.len() - i,
{
    match scan_specifier(v, i) {
        Option::None => None,
        Option::Some((sp, j)) => {
            if j <= i || j > v.len() {
                None
            } else if j == v.len() {
                let mut out: Vec<Specifier> = Vec::new();
                out.push(sp);
                proof {
                    assert(out.deep_view() =~~= seq![sp@]);
                }
                Some(out)
            } else if v[j] == ',' {
                match scan_specifiers(v, j + 1) {
                    Option::None => None,
                    Option::Some(rest) => {
                        let mut out: Vec<Specifier> = Vec::new();
                        out.push(sp);
                        let mut tail: Vec<Specifier> = rest;
                        let ghost tail_view = tail.deep_view();
                        out.append(&mut tail);
                        proof {
                            assert(out.deep_view() =~~= seq![sp@] + tail_view);
                        }
                        Some(out)
                    },
                }
            } else {
                None
            }
        },
    }
}

/// A dotted version request: one to three release numbers, optionally closed
/// by the free-threading suffix.
pub open spec fn parse_dotted(s: Seq<char>) -> Option<Dotted> {
    let ft = s.len() > 0 && s.last() == 't';
    let body = if ft {
        s.drop_last()
    } else {
        s
    };
    match parse_comps(body, 0) {
        Option::None => None,
        Option::Some((rel, j, star)) => if star || j != body.len() || rel.len() > 3 {
            None
        } else {
            Some(
                Dotted {
                    major: rel[0],
                    minor: if rel.len() >= 2 {
                        Some(rel[1])
                    } else {
                        None
                    },
                    patch: if rel.len() >= 3 {
                        Some(rel[2])
                    } else {
                        None
                    },
                    variant: if ft {
                        PythonVariant::Freethreaded
                    } else {
                        PythonVariant::Standard
                    },
                },
            )
        },
    }
}

/// Read a dotted version request.
pub fn scan_dotted(v: &Vec<char>) -> (r: Option<Dotted>)
    ensures
        r == parse_dotted(v@),
{
    let ft: bool = v.len() > 0 && v[v.len() - 1] == 't';
    let body: Vec<char> = if ft {
        sub_chars(v, 0, v.len() - 1)
    } else {
        sub_chars(v, 0, v.len())
    };
    proof {
        if ft {
            assert(body@ =~= v@.drop_last());
        } else {
            assert(body@ =~= v@);
        }
    }
    match scan_comps(&body, 0) {
        Option::None => None,
        Option::Some((rel, j, star)) => {
            if star || j != body.len() || rel.len() > 3 {
                None
            } else {
                Some(
                    Dotted {
                        major: rel[0],
                        minor: if rel.len() >= 2 {
                            Some(rel[1])
                        } else {
                            None
                        },
                        patch: if rel.len() >= 3 {
                            Some(rel[2])
                        } else {
                            None
                        },
                        variant: if ft {
                            PythonVariant::Freethreaded
                        } else {
                            PythonVariant::Standard
                        },
                    },
                )
            }
        },
    }
}

// ---------------------------------------------------------------------------
// Rendering
// ---------------------------------------------------------------------------
/// The normalized rendering of a dotted version request.
pub open spec fn spec_render_dotted(d: Dotted) -> Seq<char> {
    let minor_part = match d.minor {
        Option::None => Seq::<char>::empty(),
        Option::Some(m) => seq!['.'] + spec_digits(m as int),
    };
    let patch_part = match d.patch {
        Option::None => Seq::<char>::empty(),
        Option::Some(p) => seq!['.'] + spec_digits(p as int),
    };
    let suffix = if d.variant == PythonVariant::Freethreaded {
        seq!['t']
    } else {
        Seq::<char>::empty()
    };
    spec_digits(d.major as int) + minor_part + patch_part + suffix
}

/// Render a dotted version request.
pub fn render_dotted(d: &Dotted) -> (s: String)
    ensures
        s@ == spec_render_dotted(*d),
{
    proof {
        reveal_strlit(".");
        reveal_strlit("t");
    }
    let mut s: String = render_u64(d.major);
    match d.minor {
        Option::None => {},
        Option::Some(m) => {
            s.append(".");
            let t: String = render_u64(m);
            s.append(t.as_str());
        },
    }
    match d.patch {
        Option::None => {},
        Option::Some(p) => {
            s.append(".");
            let t: String = render_u64(p);
            s.append(t.as_str());
        },
    }
    if matches!(d.variant, PythonVariant::Freethreaded) {
        s.append("t");
    }
    proof {
        assert(s@ =~= spec_render_dotted(*d));
    }
    s
}

/// The rendering of a comparison operator.
pub open spec fn spec_render_op(op: CompareOp) -> Seq<char> {
    match op {
        CompareOp::Less => seq!['<'],
        CompareOp::LessEq => seq!['<', '='],
        CompareOp::Equal => seq!['=', '='],
        CompareOp::NotEqual => seq!['!', '='],
        CompareOp::GreaterEq => seq!['>', '='],
        CompareOp::Greater => seq!['>'],
    }
}

/// The rendering of one specifier.
pub open spec fn spec_render_specifier(sp: SpecifierV) -> Seq<char> {
    spec_render_op(sp.op) + crate::version::spec_render_release(sp.release) + (if sp.star {
        seq!['.', '*']
    } else {
        Seq::<char>::empty()
    })
}

/// The rendering of a specifier list, comma-and-space separated.
pub open spec fn spec_render_specifiers(sps: Seq<SpecifierV>) -> Seq<char>
    decreases sps.len(),
{
    if sps.len() == 0 {
        Seq::<char>::empty()
    } else if sps.len() == 1 {
        spec_render_specifier(sps[0])
    } else {
        spec_render_specifiers(sps.drop_last()) + seq![',', ' '] + spec_render_specifier(
            sps.last(),
        )
    }
}

/// Render one specifier.
pub fn render_specifier(sp: &Specifier) -> (s: String)
    ensures
        s@ == spec_render_specifier(sp@),
{
    proof {
        reveal_strlit("<");
        reveal_strlit("<=");
        reveal_strlit("==");
        reveal_strlit("!=");
        reveal_strlit(">=");
        reveal_strlit(">");
        reveal_strlit(".*");
    }
    let mut s: String = match sp.op {
        CompareOp::Less => String::from_str("<"),
        CompareOp::LessEq => String::from_str("<="),
        CompareOp::Equal => String::from_str("=="),
        CompareOp::NotEqual => String::from_str("!="),
        CompareOp::GreaterEq => String::from_str(">="),
        CompareOp::Greater => String::from_str(">"),
    };
    proof {
        assert(s@ =~= spec_render_op(sp@.op));
    }
    let rel: String = crate::version::render_release(&sp.release);
    s.append(rel.as_str());
    if sp.star {
        s.append(".*");
    }
    proof {
        assert(s@ =~= spec_render_specifier(sp@));
    }
    s
}

// ---------------------------------------------------------------------------
// Requests
// ---------------------------------------------------------------------------
/// A version request: a dotted shape or a specifier range.
#[derive(Clone, Debug)]
pub enum VersionRequest {
    Dotted(Dotted),
    Range(Vec<Specifier>),
}

/// The mathematical shape of a [`VersionRequest`].
pub enum VersionRequestV {
    Dotted(Dotted),
    Range(Seq<SpecifierV>),
}

impl View for VersionRequest {
    type V = VersionRequestV;

    open spec fn view(&self) -> VersionRequestV {
        match self {
            VersionRequest::Dotted(d) => VersionRequestV::Dotted(*d),
            VersionRequest::Range(sps) => VersionRequestV::Range(sps.deep_view()),
        }
    }
}

/// A key request: dash-separated implementation, version, platform and
/// variant fields, each optionally the wildcard.
#[derive(Clone, Debug)]
pub struct KeyReq {
    pub implementation: Option<ImplementationName>,
    pub version: Option<Dotted>,
    pub os: Option<String>,
    pub arch: Option<String>,
    pub variant: Option<PythonVariant>,
}

/// The mathematical shape of a [`KeyReq`].
pub struct KeyReqV {
    pub implementation: Option<ImplementationName>,
    pub version: Option<Dotted>,
    pub os: Option<Seq<char>>,
    pub arch: Option<Seq<char>>,
    pub variant: Option<PythonVariant>,
}

impl View for KeyReq {
    type V = KeyReqV;

    open spec fn view(&self) -> KeyReqV {
        KeyReqV {
            implementation: self.implementation,
            version: self.version,
            os: match &self.os {
                Option::None => None,
                Option::Some(o) => Some(o@),
            },
            arch: match &self.arch {
                Option::None => None,
                Option::Some(a) => Some(a@),
            },
            variant: self.variant,
        }
    }
}

/// A structured interpreter request.
#[derive(Clone, Debug)]
pub enum PythonRequest {
    /// Any interpreter at all.
    Any,
    /// An interpreter of a version shape or range.
    Version(VersionRequest),
    /// An interpreter of a given implementation.
    Implementation(ImplementationName),
    /// An implementation at a version.
    ImplementationVersion(ImplementationName, VersionRequest),
    /// A dash-separated key with wildcards.
    Key(KeyReq),
    /// An interpreter at a filesystem path.
    Path(String),
    /// An executable name to look up on the search path.
    ExecutableName(String),
}

/// The mathematical shape of a [`PythonRequest`].
pub enum PythonRequestV {
    Any,
    Version(VersionRequestV),
    Implementation(ImplementationName),
    ImplementationVersion(ImplementationName, VersionRequestV),
    Key(KeyReqV),
    Path(Seq<char>),
    ExecutableName(Seq<char>),
}

impl View for PythonRequest {
    type V = PythonRequestV;

    open spec fn view(&self) -> PythonRequestV {
        match self {
            PythonRequest::Any => PythonRequestV::Any,
            PythonRequest::Version(vr) => PythonRequestV::Version(vr@),
            PythonRequest::Implementation(i) => PythonRequestV::Implementation(*i),
            PythonRequest::ImplementationVersion(i, vr) => PythonRequestV::ImplementationVersion(
                *i,
                vr@,
            ),
            PythonRequest::Key(k) => PythonRequestV::Key(k@),
            PythonRequest::Path(p) => PythonRequestV::Path(p@),
            PythonRequest::ExecutableName(n) => PythonRequestV::ExecutableName(n@),
        }
    }
}

impl VersionRequest {
    /// An equal copy.
    pub fn duplicate(&self) -> (r: VersionRequest)
        ensures
            r@ == self@,
    {
        match self {
            VersionRequest::Dotted(d) => VersionRequest::Dotted(*d),
            VersionRequest::Range(sps) => {
                let mut out: Vec<Specifier> = Vec::new();
                let mut i: usize = 0;
                while i < sps.len()
                    invariant
                        i <= sps@.len(),
                        out@.len() == i,
                        forall|j: int| 0 <= j < i ==> (#[trigger] out@[j])@ == sps@[j]@,
                    decreases sps@.len() - i,
                {
                    out.push(sps[i].duplicate());
                    i = i + 1;
                }
                proof {
                    assert(out.deep_view() =~~= sps.deep_view());
                }
                VersionRequest::Range(out)
            },
        }
    }
}

impl KeyReq {
    /// An equal copy.
    pub fn duplicate(&self) -> (r: KeyReq)
        ensures
            r@ == self@,
    {
        KeyReq {
            implementation: self.implementation,
            version: self.version,
            os: match &self.os {
                Option::None => None,
                Option::Some(o) => Some(o.clone()),
            },
            arch: match &self.arch {
                Option::None => None,
                Option::Some(a) => Some(a.clone()),
            },
            variant: self.variant,
        }
    }
}

impl PythonRequest {
    /// An equal copy.
    pub fn duplicate(&self) -> (r: PythonRequest)
        ensures
            r@ == self@,
    {
        match self {
            PythonRequest::Any => PythonRequest::Any,
            PythonRequest::Version(vr) => PythonRequest::Version(vr.duplicate()),
            PythonRequest::Implementation(i) => PythonRequest::Implementation(*i),
            PythonRequest::ImplementationVersion(i, vr) => PythonRequest::ImplementationVersion(
                *i,
                vr.duplicate(),
            ),
            PythonRequest::Key(k) => PythonRequest::Key(k.duplicate()),
            PythonRequest::Path(p) => PythonRequest::Path(p.clone()),
            PythonRequest::ExecutableName(n) => PythonRequest::ExecutableName(n.clone()),
        }
    }
}

/// A known implementation name or its short alias.
pub open spec fn parse_implementation(s: Seq<char>) -> Option<ImplementationName> {
    if s == "cpython"@ || s == "cp"@ {
        Some(ImplementationName::CPython)
    } else if s == "pypy"@ || s == "pp"@ {
        Some(ImplementationName::PyPy)
    } else if s == "graalpy"@ || s == "gp"@ {
        Some(ImplementationName::GraalPy)
    } else {
        None
    }
}

/// Read an implementation name or its alias.
pub fn scan_implementation(s: &str) -> (r: Option<ImplementationName>)
    ensures
        r == parse_implementation(s@),
{
    if str_eq(s, "cpython") || str_eq(s, "cp") {
        Some(ImplementationName::CPython)
    } else if str_eq(s, "pypy") || str_eq(s, "pp") {
        Some(ImplementationName::PyPy)
    } else if str_eq(s, "graalpy") || str_eq(s, "gp") {
        Some(ImplementationName::GraalPy)
    } else {
        None
    }
}

/// A version request: a dotted shape, else a specifier range.
pub open spec fn parse_version_request(s: Seq<char>) -> Option<VersionRequestV> {
    match parse_dotted(s) {
        Option::Some(d) => Some(VersionRequestV::Dotted(d)),
        Option::None => match parse_specifiers(s, 0) {
            Option::Some(sps) => Some(VersionRequestV::Range(sps)),
            Option::None => None,
        },
    }
}

/// Read a version request.
pub fn scan_version_request(v: &Vec<char>) -> (r: Option<VersionRequest>)
    ensures
        (r is Some) == (parse_version_request(v@) is Some),
        (r matches Some(vr) ==> parse_version_request(v@) matches Some(vr2) && vr@ == vr2),
{
    match scan_dotted(v) {
        Option::Some(d) => Some(VersionRequest::Dotted(d)),
        Option::None => match scan_specifiers(v, 0) {
            Option::Some(sps) => Some(VersionRequest::Range(sps)),
            Option::None => None,
        },
    }
}

/// A key request over the dash-separated segments of the text.
pub open spec fn parse_key(s: Seq<char>) -> Option<KeyReqV> {
    let segs = split_from(s, '-', 0);
    if segs.len() < 2 || segs.len() > 5 {
        None
    } else if segs[0] != "any"@ && parse_implementation(segs[0]) is None {
        None
    } else if segs[1] != "any"@ && parse_dotted(segs[1]) is None {
        None
    } else if segs.len() >= 3 && segs[2].len() == 0 {
        None
    } else if segs.len() >= 4 && segs[3].len() == 0 {
        None
    } else if segs.len() >= 5 && segs[4] != "any"@ && segs[4] != "freethreaded"@ {
        None
    } else {
        Some(
            KeyReqV {
                implementation: if segs[0] == "any"@ {
                    None
                } else {
                    parse_implementation(segs[0])
                },
                version: if segs[1] == "any"@ {
                    None
                } else {
                    parse_dotted(segs[1])
                },
                os: if segs.len() >= 3 && segs[2] != "any"@ {
                    Some(segs[2])
                } else {
                    None
                },
                arch: if segs.len() >= 4 && segs[3] != "any"@ {
                    Some(segs[3])
                } else {
                    None
                },
                variant: if segs.len() >= 5 && segs[4] == "freethreaded"@ {
                    Some(PythonVariant::Freethreaded)
                } else {
                    None
                },
            },
        )
    }
}

/// Read a key request.
pub fn scan_key(v: &Vec<char>) -> (r: Option<KeyReq>)
    ensures
        (r is Some) == (parse_key(v@) is Some),
        (r matches Some(k) ==> parse_key(v@) matches Some(k2) && k@ == k2),
{
    let segs: Vec<String> = split_char(v, '-');
    proof {
        assert(forall|i: int| 0 <= i < segs@.len() ==> segs.deep_view()[i] == #[trigger] segs@[i]@);
    }
    if segs.len() < 2 || segs.len() > 5 {
        return None;
    }
    let seg0_any: bool = str_eq(segs[0].as_str(), "any");
    let imp: Option<ImplementationName> = scan_implementation(segs[0].as_str());
    if !seg0_any && imp.is_none() {
        return None;
    }
    let seg1_any: bool = str_eq(segs[1].as_str(), "any");
    let seg1_chars: Vec<char> = str_chars(segs[1].as_str());
    let ver: Option<Dotted> = scan_dotted(&seg1_chars);
    if !seg1_any && ver.is_none() {
        return None;
    }
    if segs.len() >= 3 && segs[2].as_str().unicode_len() == 0 {
        return None;
    }
    if segs.len() >= 4 && segs[3].as_str().unicode_len() == 0 {
        return None;
    }
    if segs.len() >= 5 {
        let a: bool = str_eq(segs[4].as_str(), "any");
        let f: bool = str_eq(segs[4].as_str(), "freethreaded");
        if !a && !f {
            return None;
        }
    }
    let os: Option<String> = if segs.len() >= 3 && !str_eq(segs[2].as_str(), "any") {
        Some(segs[2].clone())
    } else {
        None
    };
    let arch: Option<String> = if segs.len() >= 4 && !str_eq(segs[3].as_str(), "any") {
        Some(segs[3].clone())
    } else {
        None
    };
    let variant: Option<PythonVariant> = if segs.len() >= 5 && str_eq(
        segs[4].as_str(),
        "freethreaded",
    ) {
        Some(PythonVariant::Freethreaded)
    } else {
        None
    };
    Some(
        KeyReq {
            implementation: if seg0_any {
                None
            } else {
                imp
            },
            version: if seg1_any {
                None
            } else {
                ver
            },
            os,
            arch,
            variant,
        },
    )
}

/// What free request text means, in order: nothing or the wildcard; a version
/// shape or range; an implementation name; implementation-at-version; key
/// syntax; path-like text; and otherwise an executable name.
pub open spec fn spec_parse_request(s: Seq<char>) -> PythonRequestV {
    if s == ""@ || s == "any"@ || s == "default"@ {
        PythonRequestV::Any
    } else if parse_version_request(s) is Some {
        PythonRequestV::Version(parse_version_request(s)->Some_0)
    } else if parse_implementation(s) is Some {
        PythonRequestV::Implementation(parse_implementation(s)->Some_0)
    } else if at_split_ok(s) {
        PythonRequestV::ImplementationVersion(
            parse_implementation(s.subrange(0, find_from(s, '@', 0)))->Some_0,
            parse_version_request(s.subrange(find_from(s, '@', 0) + 1, s.len() as int))->Some_0,
        )
    } else if parse_key(s) is Some {
        PythonRequestV::Key(parse_key(s)->Some_0)
    } else if find_from(s, '/', 0) < s.len() || find_from(s, '\\', 0) < s.len() || (s.len() > 0
        && s[0] == '.') {
        PythonRequestV::Path(s)
    } else {
        PythonRequestV::ExecutableName(s)
    }
}

/// Whether the text splits at `@` into an implementation and a version.
pub open spec fn at_split_ok(s: Seq<char>) -> bool {
    let a = find_from(s, '@', 0);
    a < s.len() && parse_implementation(s.subrange(0, a)) is Some && parse_version_request(
        s.subrange(a + 1, s.len() as int),
    ) is Some
}

// ---------------------------------------------------------------------------
// The supported floor
// ---------------------------------------------------------------------------
/// The message for a version below the supported floor.
pub open spec fn msg_unsupported_old(text: Seq<char>) -> Seq<char> {
    "Invalid version request: Python <3.7 is not supported but "@ + text
        + " was requested."@
}

/// The message for a free-threading request below its first supported version.
pub open spec fn msg_unsupported_ft(text: Seq<char>) -> Seq<char> {
    "Invalid version request: Python <3.13 does not support free-threading but "@ + text
        + " was requested."@
}

/// The complaint a dotted version earns, if any: below the supported floor,
/// or free-threading on a version that cannot have it.
pub open spec fn dotted_minor_below(d: Dotted, bound: u64) -> bool {
    match d.minor {
        Option::Some(m) => m < bound,
        Option::None => false,
    }
}

pub open spec fn dotted_floor_error(d: Dotted) -> Option<Seq<char>> {
    if d.major < 3 || (d.major == 3 && dotted_minor_below(d, 7)) {
        Some(msg_unsupported_old(spec_render_dotted(d)))
    } else if d.variant == PythonVariant::Freethreaded && d.major == 3 && dotted_minor_below(
        d,
        13,
    ) {
        Some(msg_unsupported_ft(spec_render_dotted(d)))
    } else {
        None
    }
}

/// The complaint a version request earns, if any; ranges are never checked.
pub open spec fn version_request_floor_error(vr: VersionRequestV) -> Option<Seq<char>> {
    match vr {
        VersionRequestV::Dotted(d) => dotted_floor_error(d),
        VersionRequestV::Range(_) => None,
    }
}

/// The complaint a request earns, if any: wherever a dotted version stands in
/// it.
pub open spec fn request_floor_error(r: PythonRequestV) -> Option<Seq<char>> {
    match r {
        PythonRequestV::Version(vr) => version_request_floor_error(vr),
        PythonRequestV::ImplementationVersion(_, vr) => version_request_floor_error(vr),
        PythonRequestV::Key(k) => match k.version {
            Option::Some(d) => dotted_floor_error(d),
            Option::None => None,
        },
        _ => None,
    }
}

/// Build the floor complaint for a dotted version.
fn dotted_floor_message(d: &Dotted) -> (r: Option<String>)
    ensures
        (r is Some) == (dotted_floor_error(*d) is Some),
        (r matches Some(m) ==> dotted_floor_error(*d) matches Some(m2) && m@ == m2),
{
    let minor_low: bool = match d.minor {
        Option::Some(m) => m < 7,
        Option::None => false,
    };
    let minor_under_13: bool = match d.minor {
        Option::Some(m) => m < 13,
        Option::None => false,
    };
    if d.major < 3 || (d.major == 3 && minor_low) {
        let mut m: String = String::from_str(
            "Invalid version request: Python <3.7 is not supported but ",
        );
        let text: String = render_dotted(d);
        m.append(text.as_str());
        m.append(" was requested.");
        Some(m)
    } else if matches!(d.variant, PythonVariant::Freethreaded) && d.major == 3 && minor_under_13 {
        let mut m: String = String::from_str(
            "Invalid version request: Python <3.13 does not support free-threading but ",
        );
        let text: String = render_dotted(d);
        m.append(text.as_str());
        m.append(" was requested.");
        Some(m)
    } else {
        None
    }
}

impl PythonRequest {
    /// Parse request text. Free text never fails: it falls back to an
    /// executable-name request. Only a version below the supported floor is
    /// refused, before any discovery.
    pub fn parse(s: &str) -> (r: Result<PythonRequest, String>)
        ensures
            (r is Ok) == (request_floor_error(spec_parse_request(s@)) is None),
            (r matches Ok(req) ==> req@ == spec_parse_request(s@)),
            (r matches Err(e) ==> request_floor_error(spec_parse_request(s@)) matches Some(m)
                && e@ == m),
    {
        let v: Vec<char> = str_chars(s);
        let parsed: PythonRequest = if str_eq(s, "") || str_eq(s, "any") || str_eq(s, "default") {
            PythonRequest::Any
        } else if let Option::Some(vr) = scan_version_request(&v) {
            PythonRequest::Version(vr)
        } else if let Option::Some(i) = scan_implementation(s) {
            PythonRequest::Implementation(i)
        } else {
            let a: usize = find_char(&v, '@', 0);
            let mut at_form: Option<PythonRequest> = None;
            if a < v.len() {
                let left: Vec<char> = sub_chars(&v, 0, a);
                let left_text: String = chars_to_string(&v, 0, a);
                if let Option::Some(i) = scan_implementation(left_text.as_str()) {
                    let right: Vec<char> = sub_chars(&v, a + 1, v.len());
                    if let Option::Some(vr) = scan_version_request(&right) {
                        at_form = Some(PythonRequest::ImplementationVersion(i, vr));
                    }
                }
            }
            match at_form {
                Option::Some(req) => req,
                Option::None => {
                    if let Option::Some(k) = scan_key(&v) {
                        PythonRequest::Key(k)
                    } else if contains_slash(&v) || (v.len() > 0 && v[0] == '.') {
                        PythonRequest::Path(String::from_str(s))
                    } else {
                        PythonRequest::ExecutableName(String::from_str(s))
                    }
                },
            }
        };
        let floor: Option<String> = match &parsed {
            PythonRequest::Version(VersionRequest::Dotted(d)) => dotted_floor_message(d),
            PythonRequest::ImplementationVersion(_, VersionRequest::Dotted(d)) => (
                dotted_floor_message(d)
            ),
            PythonRequest::Key(k) => match &k.version {
                Option::Some(d) => dotted_floor_message(d),
                Option::None => None,
            },
            _ => None,
        };
        match floor {
            Option::Some(m) => Result::Err(m),
            Option::None => Result::Ok(parsed),
        }
    }
}

/// Whether the text holds a path separator.
fn contains_slash(v: &Vec<char>) -> (r: bool)
    ensures
        r == (find_from(v@, '/', 0) < v@.len() || find_from(v@, '\\', 0) < v@.len()),
{
    let a: usize = find_char(v, '/', 0);
    if a < v.len() {
        return true;
    }
    let b: usize = find_char(v, '\\', 0);
    b < v.len()
}

// ---------------------------------------------------------------------------
// Matching
// ---------------------------------------------------------------------------
/// Whether an interpreter version (with its free-threading flag) matches a
/// dotted request: the written release numbers agree, and the free-threaded
/// variant is present when requested.
pub open spec fn dotted_matches(d: Dotted, v: VersionPartsV, free_threaded: bool) -> bool {
    &&& v.major() == d.major
    &&& (d.minor matches Some(m) ==> v.minor() == m)
    &&& (d.patch matches Some(p) ==> v.part(2) == p)
    &&& (d.variant == PythonVariant::Freethreaded ==> free_threaded)
}

/// Whether a version satisfies one specifier. A wildcard compares the given
/// release prefix, zero-padded; the plain operators compare whole versions,
/// a bare release standing for its final release.
pub open spec fn specifier_satisfied(sp: SpecifierV, v: VersionPartsV) -> bool {
    if sp.star {
        let prefix_eq = forall|i: int|
            0 <= i < sp.release.len() ==> pad(v.release, i) == sp.release[i];
        if sp.op == CompareOp::Equal {
            prefix_eq
        } else {
            !prefix_eq
        }
    } else {
        let w = spec_release_version(sp.release);
        match sp.op {
            CompareOp::Less => version_lt(v, w),
            CompareOp::LessEq => version_le(v, w),
            CompareOp::Equal => version_ord_eq(v, w),
            CompareOp::NotEqual => !version_ord_eq(v, w),
            CompareOp::GreaterEq => version_le(w, v),
            CompareOp::Greater => version_lt(w, v),
        }
    }
}

/// Whether a version satisfies every specifier of a list.
pub open spec fn specifiers_satisfied(sps: Seq<SpecifierV>, v: VersionPartsV) -> bool {
    forall|i: int| 0 <= i < sps.len() ==> specifier_satisfied(#[trigger] sps[i], v)
}

/// Whether an interpreter version matches a version request.
pub open spec fn version_request_matches(
    vr: VersionRequestV,
    v: VersionPartsV,
    free_threaded: bool,
) -> bool {
    match vr {
        VersionRequestV::Dotted(d) => dotted_matches(d, v, free_threaded),
        VersionRequestV::Range(sps) => specifiers_satisfied(sps, v),
    }
}

/// Test a dotted request against a version.
pub fn dotted_match(d: &Dotted, v: &VersionParts, free_threaded: bool) -> (r: bool)
    ensures
        r == dotted_matches(*d, v@, free_threaded),
{
    let major: u64 = if v.release.len() >= 1 {
        v.release[0]
    } else {
        0
    };
    let minor: u64 = if v.release.len() >= 2 {
        v.release[1]
    } else {
        0
    };
    let patch: u64 = if v.release.len() >= 3 {
        v.release[2]
    } else {
        0
    };
    if major != d.major {
        return false;
    }
    match d.minor {
        Option::Some(m) => if minor != m {
            return false;
        },
        Option::None => {},
    }
    match d.patch {
        Option::Some(p) => if patch != p {
            return false;
        },
        Option::None => {},
    }
    if matches!(d.variant, PythonVariant::Freethreaded) && !free_threaded {
        return false;
    }
    true
}

/// Test one specifier against a version.
pub fn specifier_match(sp: &Specifier, v: &VersionParts) -> (r: bool)
    ensures
        r == specifier_satisfied(sp@, v@),
{
    if sp.star {
        let mut i: usize = 0;
        let mut prefix_eq: bool = true;
        while i < sp.release.len()
            invariant
                i <= sp.release@.len(),
                prefix_eq == (forall|j: int|
                    0 <= j < i ==> pad(v@.release, j) == sp.release@[j]),
            decreases sp.release@.len() - i,
        {
            let p: u64 = if i < v.release.len() {
                v.release[i]
            } else {
                0
            };
            if p != sp.release[i] {
                prefix_eq = false;
            }
            i = i + 1;
        }
        if matches!(sp.op, CompareOp::Equal) {
            prefix_eq
        } else {
            !prefix_eq
        }
    } else {
        let mut rel: Vec<u64> = Vec::new();
        let mut i: usize = 0;
        while i < sp.release.len()
            invariant
                i <= sp.release@.len(),
                rel@ =~= sp.release@.subrange(0, i as int),
            decreases sp.release@.len() - i,
        {
            rel.push(sp.release[i]);
            i = i + 1;
        }
        proof {
            assert(rel@ =~= sp.release@);
        }
        let w: VersionParts = VersionParts::from_release(rel);
        match sp.op {
            CompareOp::Less => version_parts_lt(v, &w),
            CompareOp::LessEq => version_parts_le(v, &w),
            CompareOp::Equal => version_parts_ord_eq(v, &w),
            CompareOp::NotEqual => !version_parts_ord_eq(v, &w),
            CompareOp::GreaterEq => version_parts_le(&w, v),
            CompareOp::Greater => version_parts_lt(&w, v),
        }
    }
}

/// Test a specifier list against a version.
pub fn specifiers_match(sps: &Vec<Specifier>, v: &VersionParts) -> (r: bool)
    ensures
        r == specifiers_satisfied(sps.deep_view(), v@),
{
    let mut i: usize = 0;
    while i < sps.len()
        invariant
            i <= sps@.len(),
            forall|j: int| 0 <= j < i ==> specifier_satisfied(
                #[trigger] sps.deep_view()[j],
                v@,
            ),
        decreases sps@.len() - i,
    {
        if !specifier_match(&sps[i], v) {
            proof {
                assert(sps.deep_view()[i as int] == sps@[i as int]@);
            }
            return false;
        }
        i = i + 1;
    }
    true
}

/// Test a version request against a version.
pub fn version_request_match(vr: &VersionRequest, v: &VersionParts, free_threaded: bool) -> (r:
    bool)
    ensures
        r == version_request_matches(vr@, v@, free_threaded),
{
    match vr {
        VersionRequest::Dotted(d) => dotted_match(d, v, free_threaded),
        VersionRequest::Range(sps) => specifiers_match(sps, v),
    }
}

// ---------------------------------------------------------------------------
// The round trip
// ---------------------------------------------------------------------------
/// Rendering a supported dotted version request and parsing the text back
/// gives the same request, with no floor complaint: the parser round-trips
/// every normalized `major.minor[.patch]` shape (and its free-threaded form)
/// from the supported range.
pub proof fn lemma_request_round_trip(d: Dotted)
    requires
        d.major <= 255,
        (d.minor matches Some(m) ==> m <= 255),
        (d.patch matches Some(p) ==> p <= 255),
        d.patch is Some ==> d.minor is Some,
        d.major >= 3,
        d.major == 3 ==> (d.minor matches Some(m) && m >= 7),
        d.variant == PythonVariant::Freethreaded ==> (d.major > 3 || (d.minor matches Some(m)
            && m >= 13)),
    ensures
        spec_parse_request(spec_render_dotted(d)) == PythonRequestV::Version(
            VersionRequestV::Dotted(d),
        ),
        request_floor_error(spec_parse_request(spec_render_dotted(d))) is None,
{
    let s = spec_render_dotted(d);
    lemma_render_dotted_parses(d);
    assert(parse_dotted(s) == Some(d));
    reveal_strlit("");
    reveal_strlit("any");
    reveal_strlit("default");
    crate::strutil::lemma_spec_digits_val(d.major as int);
    assert(s[0] == spec_digits(d.major as int)[0]);
    assert(crate::strutil::is_digit_char(s[0]));
    assert(s != ""@ && s != "any"@ && s != "default"@) by {
        assert("any"@.len() == 3 && "any"@[0] == 'a');
        assert("default"@.len() == 7 && "default"@[0] == 'd');
        assert(""@.len() == 0);
    }
    assert(parse_version_request(s) == Some(VersionRequestV::Dotted(d)));
}

/// The rendering of a dotted request parses back to it.
proof fn lemma_render_dotted_parses(d: Dotted)
    requires
        d.major <= 255,
        (d.minor matches Some(m) ==> m <= 255),
        (d.patch matches Some(p) ==> p <= 255),
        d.patch is Some ==> d.minor is Some,
    ensures
        parse_dotted(spec_render_dotted(d)) == Some(d),
{
    let s = spec_render_dotted(d);
    let ft = d.variant == PythonVariant::Freethreaded;
    let body = spec_digits(d.major as int) + (match d.minor {
        Option::None => Seq::<char>::empty(),
        Option::Some(m) => seq!['.'] + spec_digits(m as int),
    }) + (match d.patch {
        Option::None => Seq::<char>::empty(),
        Option::Some(p) => seq!['.'] + spec_digits(p as int),
    });
    crate::strutil::lemma_spec_digits_val(d.major as int);
    if d.minor is Some {
        crate::strutil::lemma_spec_digits_val(d.minor->Some_0 as int);
    }
    if d.patch is Some {
        crate::strutil::lemma_spec_digits_val(d.patch->Some_0 as int);
    }
    assert(body.len() > 0);
    if ft {
        assert(s =~= body + seq!['t']);
        assert(s.last() == 't');
        assert(s.drop_last() =~= body);
    } else {
        assert(s =~= body);
        assert(crate::strutil::is_digit_char(s.last()));
        assert(s.last() != 't');
    }
    lemma_body_comps(d, body);
    assert(parse_dotted(s) == Some(d));
}

/// The body of a rendered dotted request reads back as its components.
proof fn lemma_body_comps(d: Dotted, body: Seq<char>)
    requires
        d.major <= 255,
        (d.minor matches Some(m) ==> m <= 255),
        (d.patch matches Some(p) ==> p <= 255),
        d.patch is Some ==> d.minor is Some,
        body == spec_digits(d.major as int) + (match d.minor {
            Option::None => Seq::<char>::empty(),
            Option::Some(m) => seq!['.'] + spec_digits(m as int),
        }) + (match d.patch {
            Option::None => Seq::<char>::empty(),
            Option::Some(p) => seq!['.'] + spec_digits(p as int),
        }),
    ensures
        ({
            let rel = seq![d.major] + (match d.minor {
                Option::None => Seq::<u64>::empty(),
                Option::Some(m) => seq![m],
            }) + (match d.patch {
                Option::None => Seq::<u64>::empty(),
                Option::Some(p) => seq![p],
            });
            parse_comps(body, 0) == Some((rel, body.len() as int, false))
        }),
{
    let da = spec_digits(d.major as int);
    crate::strutil::lemma_spec_digits_val(d.major as int);
    let la = da.len() as int;
    match d.minor {
        Option::None => {
            assert(body =~= da);
            crate::strutil::lemma_digits_end_of_run(body, 0, la);
            assert(body.subrange(0, la) =~= da);
            assert(capped_val(body.subrange(0, la)) == d.major as int);
            assert(parse_comps(body, 0) == Some((seq![d.major], la, false)));
            assert(seq![d.major] + Seq::<u64>::empty() + Seq::<u64>::empty() =~= seq![d.major]);
        },
        Option::Some(m) => {
            let dm = spec_digits(m as int);
            crate::strutil::lemma_spec_digits_val(m as int);
            let lm = dm.len() as int;
            match d.patch {
                Option::None => {
                    assert(body =~= da + seq!['.'] + dm);
                    assert(body[la] == '.');
                    crate::strutil::lemma_digits_end_of_run(body, 0, la);
                    assert(body.subrange(0, la) =~= da);
                    assert(capped_val(body.subrange(0, la)) == d.major as int);
                    // the minor run
                    crate::strutil::lemma_digits_end_of_run(body, la + 1, la + 1 + lm);
                    assert(body.subrange(la + 1, la + 1 + lm) =~= dm);
                    assert(capped_val(body.subrange(la + 1, la + 1 + lm)) == m as int);
                    assert(la + 1 + lm == body.len());
                    assert(parse_comps(body, la + 1) == Some((seq![m], body.len() as int, false)));
                    assert(body[la] == '.' && !(la + 1 < body.len() && body[la + 1] == '*'));
                    assert(parse_comps(body, 0) == Some(
                        (seq![d.major] + seq![m], body.len() as int, false),
                    ));
                    assert(seq![d.major] + seq![m] + Seq::<u64>::empty() =~= seq![d.major]
                        + seq![m]);
                },
                Option::Some(p) => {
                    let dp = spec_digits(p as int);
                    crate::strutil::lemma_spec_digits_val(p as int);
                    let lp = dp.len() as int;
                    assert(body =~= da + seq!['.'] + dm + seq!['.'] + dp);
                    assert(body[la] == '.');
                    assert(body[la + 1 + lm] == '.');
                    crate::strutil::lemma_digits_end_of_run(body, 0, la);
                    assert(body.subrange(0, la) =~= da);
                    assert(capped_val(body.subrange(0, la)) == d.major as int);
                    crate::strutil::lemma_digits_end_of_run(body, la + 1, la + 1 + lm);
                    assert(body.subrange(la + 1, la + 1 + lm) =~= dm);
                    assert(capped_val(body.subrange(la + 1, la + 1 + lm)) == m as int);
                    crate::strutil::lemma_digits_end_of_run(
                        body,
                        la + 1 + lm + 1,
                        la + 1 + lm + 1 + lp,
                    );
                    assert(body.subrange(la + 1 + lm + 1, la + 1 + lm + 1 + lp) =~= dp);
                    assert(capped_val(body.subrange(la + 1 + lm + 1, la + 1 + lm + 1 + lp))
                        == p as int);
                    assert(la + 1 + lm + 1 + lp == body.len());
                    assert(parse_comps(body, la + 1 + lm + 1) == Some(
                        (seq![p], body.len() as int, false),
                    ));
                    assert(parse_comps(body, la + 1) == Some(
                        (seq![m] + seq![p], body.len() as int, false),
                    ));
                    assert(parse_comps(body, 0) == Some(
                        (seq![d.major] + (seq![m] + seq![p]), body.len() as int, false),
                    ));
                    assert(seq![d.major] + seq![m] + seq![p] =~= seq![d.major] + (seq![m]
                        + seq![p]));
                },
            }
        },
    }
}

/// Render a specifier list.
pub fn render_specifiers(sps: &Vec<Specifier>) -> (s: String)
    ensures
        s@ == spec_render_specifiers(sps.deep_view()),
{
    proof {
        reveal_strlit(", ");
    }
    let mut s: String = String::new();
    let mut i: usize = 0;
    while i < sps.len()
        invariant
            i <= sps.len(),
            s@ == spec_render_specifiers(sps.deep_view().subrange(0, i as int)),
            ", "@ =~= seq![',', ' '],
        decreases sps.len() - i,
    {
        if i > 0 {
            s.append(", ");
        }
        let piece: String = render_specifier(&sps[i]);
        s.append(piece.as_str());
        proof {
            let dv = sps.deep_view();
            let prefix = dv.subrange(0, i as int);
            let extended = dv.subrange(0, i + 1 as int);
            assert(extended.drop_last() =~= prefix);
            assert(extended.last() == sps@[i as int]@);
            if i == 0 {
                assert(s@ =~= spec_render_specifiers(extended));
            } else {
                assert(s@ =~= spec_render_specifiers(extended));
            }
        }
        i = i + 1;
    }
    proof {
        assert(sps.deep_view().subrange(0, sps.deep_view().len() as int) =~= sps.deep_view());
    }
    s
}

} // verus!
