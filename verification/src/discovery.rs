//! Source enumeration and interpreter selection.
//!
//! Candidates come from precedence-ordered sources — an explicitly provided
//! path, the active environment, a script environment, a discovered
//! environment, the managed registry, the search path — each prunable by a
//! flag before any probing. Selection walks the enumeration in order and
//! returns the first candidate whose probed metadata matches the request and,
//! when the request was not explicit, the accumulated `requires-python`
//! constraint. Probe failures skip the candidate, except a missing executable
//! inside the explicitly activated environment, which is fatal.
//!
//! Probing itself is outside work: the caller probes each candidate once and
//! hands the outcomes in; selection is verified for every outcome.

use vstd::prelude::*;
use vstd::string::StringExecFns;

use crate::constraints::{requires_satisfied, RequiresPython, RequiresPythonV};
use crate::pin::VersionFilePin;
use crate::request::{
    render_dotted, render_specifiers, spec_parse_request, spec_render_dotted,
    spec_render_specifiers, version_request_match, version_request_matches, Dotted,
    ImplementationName, KeyReqV, PythonRequest, PythonRequestV, PythonVariant, VersionRequest,
    VersionRequestV,
};
use crate::version::{render_version, spec_render_version, VersionParts, VersionPartsV};

verus! {

/// Where a candidate interpreter came from, in precedence order.
#[derive(Clone, Copy, Debug, PartialEq, Eq, Structural)]
pub enum InterpreterSource {
    ProvidedPath,
    ActiveEnvironment,
    ScriptEnvironment,
    DiscoveredEnvironment,
    ManagedRegistry,
    SearchPath,
}

/// Probed interpreter metadata.
#[derive(Clone, Debug)]
pub struct InterpreterInfo {
    pub implementation: ImplementationName,
    pub version: VersionParts,
    pub os: String,
    pub arch: String,
    pub free_threaded: bool,
    /// The installation root the interpreter reports: for an interpreter
    /// inside a virtual environment, the `home` its environment records.
    pub home: String,
}

/// The mathematical shape of an [`InterpreterInfo`].
pub struct InterpreterInfoV {
    pub implementation: ImplementationName,
    pub version: VersionPartsV,
    pub os: Seq<char>,
    pub arch: Seq<char>,
    pub free_threaded: bool,
    pub home: Seq<char>,
}

impl View for InterpreterInfo {
    type V = InterpreterInfoV;

    open spec fn view(&self) -> InterpreterInfoV {
        InterpreterInfoV {
            implementation: self.implementation,
            version: self.version@,
            os: self.os@,
            arch: self.arch@,
            free_threaded: self.free_threaded,
            home: self.home@,
        }
    }
}

impl InterpreterInfo {
    /// An equal copy.
    pub fn duplicate(&self) -> (r: InterpreterInfo)
        ensures
            r@ == self@,
    {
        InterpreterInfo {
            implementation: self.implementation,
            version: self.version.duplicate(),
            os: self.os.clone(),
            arch: self.arch.clone(),
            free_threaded: self.free_threaded,
            home: self.home.clone(),
        }
    }
}

/// The outcome of probing one executable.
#[derive(Clone, Debug)]
pub enum Probe {
    Usable(InterpreterInfo),
    MissingExecutable,
    PermissionDenied(String),
    QueryError(String),
}

/// The mathematical shape of a [`Probe`].
pub enum ProbeV {
    Usable(InterpreterInfoV),
    MissingExecutable,
    PermissionDenied(Seq<char>),
    QueryError(Seq<char>),
}

impl View for Probe {
    type V = ProbeV;

    open spec fn view(&self) -> ProbeV {
        match self {
            Probe::Usable(i) => ProbeV::Usable(i@),
            Probe::MissingExecutable => ProbeV::MissingExecutable,
            Probe::PermissionDenied(m) => ProbeV::PermissionDenied(m@),
            Probe::QueryError(m) => ProbeV::QueryError(m@),
        }
    }
}

impl Probe {
    /// An equal copy.
    pub fn duplicate(&self) -> (r: Probe)
        ensures
            r@ == self@,
    {
        match self {
            Probe::Usable(i) => Probe::Usable(i.duplicate()),
            Probe::MissingExecutable => Probe::MissingExecutable,
            Probe::PermissionDenied(m) => Probe::PermissionDenied(m.clone()),
            Probe::QueryError(m) => Probe::QueryError(m.clone()),
        }
    }
}

/// A probed candidate: an executable path, its executable name, and the
/// probe's outcome.
#[derive(Clone, Debug)]
pub struct Candidate {
    pub path: String,
    pub name: String,
    pub probe: Probe,
}

/// The mathematical shape of a [`Candidate`].
pub struct CandidateV {
    pub path: Seq<char>,
    pub name: Seq<char>,
    pub probe: ProbeV,
}

impl View for Candidate {
    type V = CandidateV;

    open spec fn view(&self) -> CandidateV {
        CandidateV { path: self.path@, name: self.name@, probe: self.probe@ }
    }
}

impl DeepView for Candidate {
    type V = CandidateV;

    open spec fn deep_view(&self) -> CandidateV {
        self.view()
    }
}

impl Candidate {
    /// An equal copy.
    pub fn duplicate(&self) -> (r: Candidate)
        ensures
            r@ == self@,
    {
        Candidate { path: self.path.clone(), name: self.name.clone(), probe: self.probe.duplicate() }
    }
}

/// A virtual-environment directory under consideration: its root, whether its
/// configuration marker file is present, and the interpreter inside, if any.
#[derive(Clone, Debug)]
pub struct EnvDir {
    pub root: String,
    pub has_cfg: bool,
    pub interpreter: Option<Candidate>,
}

/// The mathematical shape of an [`EnvDir`].
pub struct EnvDirV {
    pub root: Seq<char>,
    pub has_cfg: bool,
    pub interpreter: Option<CandidateV>,
}

impl View for EnvDir {
    type V = EnvDirV;

    open spec fn view(&self) -> EnvDirV {
        EnvDirV {
            root: self.root@,
            has_cfg: self.has_cfg,
            interpreter: match &self.interpreter {
                Option::None => None,
                Option::Some(c) => Some(c@),
            },
        }
    }
}

/// Everything the caller gathered for one resolution pass, already probed
/// once per path.
#[derive(Clone, Debug)]
pub struct InterpreterPool {
    pub active_env: Option<EnvDir>,
    pub discovered_env: Option<EnvDir>,
    pub script_env: Option<EnvDir>,
    pub managed: Vec<Candidate>,
    pub search_path: Vec<Candidate>,
}

/// The mathematical shape of an [`InterpreterPool`].
pub struct InterpreterPoolV {
    pub active_env: Option<EnvDirV>,
    pub discovered_env: Option<EnvDirV>,
    pub script_env: Option<EnvDirV>,
    pub managed: Seq<CandidateV>,
    pub search_path: Seq<CandidateV>,
}

impl View for InterpreterPool {
    type V = InterpreterPoolV;

    open spec fn view(&self) -> InterpreterPoolV {
        InterpreterPoolV {
            active_env: match &self.active_env {
                Option::None => None,
                Option::Some(e) => Some(e@),
            },
            discovered_env: match &self.discovered_env {
                Option::None => None,
                Option::Some(e) => Some(e@),
            },
            script_env: match &self.script_env {
                Option::None => None,
                Option::Some(e) => Some(e@),
            },
            managed: self.managed.deep_view(),
            search_path: self.search_path.deep_view(),
        }
    }
}

/// Which sources a resolution may consult.
#[derive(Clone, Copy, Debug, PartialEq, Eq, Structural)]
pub struct DiscoveryFlags {
    /// Skip environment sources and use the system interpreters.
    pub system: bool,
    /// `Some(true)`: only managed installations besides environments;
    /// `Some(false)`: never managed installations.
    pub managed: Option<bool>,
}

/// Where the effective request came from.
#[derive(Clone, Debug)]
pub enum RequestOrigin {
    /// The user asked explicitly.
    UserRequest,
    /// A version file supplied it; the field is the file's displayed path.
    PinFile(String),
    /// Nothing was requested.
    DefaultRequest,
}

/// The mathematical shape of a [`RequestOrigin`].
pub enum RequestOriginV {
    UserRequest,
    PinFile(Seq<char>),
    DefaultRequest,
}

impl View for RequestOrigin {
    type V = RequestOriginV;

    open spec fn view(&self) -> RequestOriginV {
        match self {
            RequestOrigin::UserRequest => RequestOriginV::UserRequest,
            RequestOrigin::PinFile(p) => RequestOriginV::PinFile(p@),
            RequestOrigin::DefaultRequest => RequestOriginV::DefaultRequest,
        }
    }
}

/// One enumerated candidate with its source tag.
#[derive(Clone, Debug)]
pub struct SourcedCandidate {
    pub source: InterpreterSource,
    pub path: String,
    pub name: String,
    pub probe: Probe,
}

/// The mathematical shape of a [`SourcedCandidate`].
pub struct SourcedCandidateV {
    pub source: InterpreterSource,
    pub path: Seq<char>,
    pub name: Seq<char>,
    pub probe: ProbeV,
}

impl View for SourcedCandidate {
    type V = SourcedCandidateV;

    open spec fn view(&self) -> SourcedCandidateV {
        SourcedCandidateV {
            source: self.source,
            path: self.path@,
            name: self.name@,
            probe: self.probe@,
        }
    }
}

impl DeepView for SourcedCandidate {
    type V = SourcedCandidateV;

    open spec fn deep_view(&self) -> SourcedCandidateV {
        self.view()
    }
}

// ---------------------------------------------------------------------------
// Enumeration
// ---------------------------------------------------------------------------
/// What one environment directory contributes: nothing when its marker file
/// is absent; its interpreter when present; and a missing-executable entry
/// otherwise, whose path points inside its binary directory.
pub open spec fn env_entry(source: InterpreterSource, e: EnvDirV) -> Seq<SourcedCandidateV> {
    if !e.has_cfg {
        seq![]
    } else {
        match e.interpreter {
            Option::Some(c) => seq![
                SourcedCandidateV { source, path: c.path, name: c.name, probe: c.probe },
            ],
            Option::None => seq![
                SourcedCandidateV {
                    source,
                    path: e.root + "/bin/python"@,
                    name: "python"@,
                    probe: ProbeV::MissingExecutable,
                },
            ],
        }
    }
}

/// An optional environment's contribution.
pub open spec fn opt_env_entries(source: InterpreterSource, e: Option<EnvDirV>) -> Seq<
    SourcedCandidateV,
> {
    match e {
        Option::None => seq![],
        Option::Some(env) => env_entry(source, env),
    }
}

/// A candidate list tagged with one source.
pub open spec fn tagged(source: InterpreterSource, cs: Seq<CandidateV>) -> Seq<SourcedCandidateV> {
    cs.map_values(
        |c: CandidateV| SourcedCandidateV { source, path: c.path, name: c.name, probe: c.probe },
    )
}

/// The precedence-ordered enumeration: script environment, active
/// environment, discovered environment (all pruned by the system flag), then
/// the managed registry and the search path as the managed flag allows.
pub open spec fn spec_enumerate(pool: InterpreterPoolV, flags: DiscoveryFlags) -> Seq<
    SourcedCandidateV,
> {
    let envs = if flags.system {
        seq![]
    } else {
        opt_env_entries(InterpreterSource::ScriptEnvironment, pool.script_env) + opt_env_entries(
            InterpreterSource::ActiveEnvironment,
            pool.active_env,
        ) + opt_env_entries(InterpreterSource::DiscoveredEnvironment, pool.discovered_env)
    };
    let managed = if flags.managed == Some(false) {
        seq![]
    } else {
        tagged(InterpreterSource::ManagedRegistry, pool.managed)
    };
    let search = if flags.managed == Some(true) {
        seq![]
    } else {
        tagged(InterpreterSource::SearchPath, pool.search_path)
    };
    envs + managed + search
}

/// Push one environment's contribution.
fn push_env(
    out: &mut Vec<SourcedCandidate>,
    source: InterpreterSource,
    e: &Option<EnvDir>,
)
    ensures
        final(out).deep_view() == old(out).deep_view() + opt_env_entries(
            source,
            match e {
                Option::None => None,
                Option::Some(env) => Some(env@),
            },
        ),
{
    match e {
        Option::None => {
            proof {
                assert(out.deep_view() =~~= old(out).deep_view() + seq![]);
            }
        },
        Option::Some(env) => {
            if !env.has_cfg {
                proof {
                    assert(out.deep_view() =~~= old(out).deep_view() + seq![]);
                }
                return;
            }
            match &env.interpreter {
                Option::Some(c) => {
                    out.push(
                        SourcedCandidate {
                            source,
                            path: c.path.clone(),
                            name: c.name.clone(),
                            probe: c.probe.duplicate(),
                        },
                    );
                    proof {
                        assert(out.deep_view() =~~= old(out).deep_view() + env_entry(
                            source,
                            env@,
                        ));
                    }
                },
                Option::None => {
                    let mut path: String = env.root.clone();
                    path.append("/bin/python");
                    out.push(
                        SourcedCandidate {
                            source,
                            path,
                            name: String::from_str("python"),
                            probe: Probe::MissingExecutable,
                        },
                    );
                    proof {
                        assert(out.deep_view() =~~= old(out).deep_view() + env_entry(
                            source,
                            env@,
                        ));
                    }
                },
            }
        },
    }
}

/// Push a candidate list under one source tag.
fn push_tagged(out: &mut Vec<SourcedCandidate>, source: InterpreterSource, cs: &Vec<Candidate>)
    ensures
        final(out).deep_view() == old(out).deep_view() + tagged(source, cs.deep_view()),
{
    let mut i: usize = 0;
    while i < cs.len()
        invariant
            i <= cs@.len(),
            out.deep_view() =~~= old(out).deep_view() + tagged(
                source,
                cs.deep_view().subrange(0, i as int),
            ),
        decreases cs@.len() - i,
    {
        let ghost prev_dv = out.deep_view();
        let c: &Candidate = &cs[i];
        out.push(
            SourcedCandidate {
                source,
                path: c.path.clone(),
                name: c.name.clone(),
                probe: c.probe.duplicate(),
            },
        );
        proof {
            assert(cs.deep_view()[i as int] == cs@[i as int]@);
            let pushed = SourcedCandidateV {
                source,
                path: cs.deep_view()[i as int].path,
                name: cs.deep_view()[i as int].name,
                probe: cs.deep_view()[i as int].probe,
            };
            assert(out@.last().deep_view() == pushed);
            assert(out.deep_view() =~~= prev_dv.push(pushed));
            assert(tagged(source, cs.deep_view().subrange(0, i + 1 as int)) =~= tagged(
                source,
                cs.deep_view().subrange(0, i as int),
            ).push(pushed));
            assert((old(out).deep_view() + tagged(
                source,
                cs.deep_view().subrange(0, i as int),
            )).push(pushed) =~~= old(out).deep_view() + tagged(
                source,
                cs.deep_view().subrange(0, i + 1 as int),
            ));
            assert(out.deep_view() =~~= old(out).deep_view() + tagged(
                source,
                cs.deep_view().subrange(0, i + 1 as int),
            ));
        }
        i = i + 1;
    }
    proof {
        assert(cs.deep_view().subrange(0, cs.deep_view().len() as int) =~= cs.deep_view());
    }
}

// ---------------------------------------------------------------------------
// Matching
// ---------------------------------------------------------------------------
/// Whether probed metadata matches a key request, field by field; absent
/// fields match anything.
pub open spec fn key_matches(k: KeyReqV, info: InterpreterInfoV) -> bool {
    &&& (k.implementation matches Some(i) ==> info.implementation == i)
    &&& (k.version matches Some(d) ==> crate::request::dotted_matches(
        d,
        info.version,
        info.free_threaded,
    ))
    &&& (k.os matches Some(o) ==> info.os == o)
    &&& (k.arch matches Some(a) ==> info.arch == a)
    &&& (k.variant == Some(PythonVariant::Freethreaded) ==> info.free_threaded)
}

/// Whether an enumerated candidate matches a request: its probe must be
/// usable and its metadata must agree with the request. A path request never
/// matches here — it bypasses enumeration entirely.
pub open spec fn request_matches(req: PythonRequestV, c: SourcedCandidateV) -> bool {
    match c.probe {
        ProbeV::Usable(info) => match req {
            PythonRequestV::Any => true,
            PythonRequestV::Version(vr) => version_request_matches(
                vr,
                info.version,
                info.free_threaded,
            ),
            PythonRequestV::Implementation(i) => info.implementation == i,
            PythonRequestV::ImplementationVersion(i, vr) => info.implementation == i
                && version_request_matches(vr, info.version, info.free_threaded),
            PythonRequestV::Key(k) => key_matches(k, info),
            PythonRequestV::ExecutableName(n) => c.name == n,
            PythonRequestV::Path(_) => false,
        },
        _ => false,
    }
}

/// Whether a candidate wins: it matches the request, and — when no request
/// was made at all — it also satisfies the constraint. An explicit or pinned
/// request overrides the constraint (with a warning) rather than filtering.
pub open spec fn candidate_viable(
    req: PythonRequestV,
    constraint: Option<RequiresPythonV>,
    filter_by_constraint: bool,
    c: SourcedCandidateV,
) -> bool {
    &&& request_matches(req, c)
    &&& (filter_by_constraint ==> match (constraint, c.probe) {
        (Option::Some(rp), ProbeV::Usable(info)) => requires_satisfied(rp, info.version),
        _ => true,
    })
}

/// A missing executable inside the explicitly activated environment is fatal.
pub open spec fn candidate_fatal(c: SourcedCandidateV) -> bool {
    c.source == InterpreterSource::ActiveEnvironment && c.probe is MissingExecutable
}

/// What a scan of the enumeration produces: the first fatal or winning
/// candidate, or nothing.
pub enum ScanOutcome {
    Win(SourcedCandidateV),
    Fatal(SourcedCandidateV),
    NoHit,
}

/// Scan the enumeration in order: the first fatal candidate aborts, the
/// first viable candidate wins, anything else is skipped.
pub open spec fn spec_scan(
    entries: Seq<SourcedCandidateV>,
    req: PythonRequestV,
    constraint: Option<RequiresPythonV>,
    filter_by_constraint: bool,
) -> ScanOutcome
    decreases entries.len(),
{
    if entries.len() == 0 {
        ScanOutcome::NoHit
    } else if candidate_fatal(entries[0]) {
        ScanOutcome::Fatal(entries[0])
    } else if candidate_viable(req, constraint, filter_by_constraint, entries[0]) {
        ScanOutcome::Win(entries[0])
    } else {
        spec_scan(entries.skip(1), req, constraint, filter_by_constraint)
    }
}

/// Test a request against a candidate's name and metadata.
fn request_match_exec(req: &PythonRequest, name: &String, info: &InterpreterInfo) -> (r: bool)
    ensures
        r == request_matches(
            req@,
            (SourcedCandidateV {
                source: InterpreterSource::SearchPath,
                path: Seq::<char>::empty(),
                name: name@,
                probe: ProbeV::Usable(info@),
            }),
        ),
{
    match req {
        PythonRequest::Any => true,
        PythonRequest::Version(vr) => version_request_match(vr, &info.version, info.free_threaded),
        PythonRequest::Implementation(i) => impl_eq(*i, info.implementation),
        PythonRequest::ImplementationVersion(i, vr) => impl_eq(*i, info.implementation)
            && version_request_match(vr, &info.version, info.free_threaded),
        PythonRequest::Key(k) => {
            let impl_ok: bool = match &k.implementation {
                Option::Some(i) => impl_eq(*i, info.implementation),
                Option::None => true,
            };
            let version_ok: bool = match &k.version {
                Option::Some(d) => crate::request::dotted_match(
                    d,
                    &info.version,
                    info.free_threaded,
                ),
                Option::None => true,
            };
            let os_ok: bool = match &k.os {
                Option::Some(o) => crate::strutil::str_eq(o.as_str(), info.os.as_str()),
                Option::None => true,
            };
            let arch_ok: bool = match &k.arch {
                Option::Some(a) => crate::strutil::str_eq(a.as_str(), info.arch.as_str()),
                Option::None => true,
            };
            let variant_ok: bool = match &k.variant {
                Option::Some(v) => match v {
                    PythonVariant::Freethreaded => info.free_threaded,
                    PythonVariant::Standard => true,
                },
                Option::None => true,
            };
            impl_ok && version_ok && os_ok && arch_ok && variant_ok
        },
        PythonRequest::ExecutableName(n) => crate::strutil::str_eq(n.as_str(), name.as_str()),
        PythonRequest::Path(_) => false,
    }
}

/// Test two implementation names for equality.
fn impl_eq(a: ImplementationName, b: ImplementationName) -> (r: bool)
    ensures
        r == (a == b),
{
    match (a, b) {
        (ImplementationName::CPython, ImplementationName::CPython) => true,
        (ImplementationName::PyPy, ImplementationName::PyPy) => true,
        (ImplementationName::GraalPy, ImplementationName::GraalPy) => true,
        _ => false,
    }
}

// ---------------------------------------------------------------------------
// Messages
// ---------------------------------------------------------------------------
/// The display name of an implementation.
pub open spec fn spec_impl_display(i: ImplementationName) -> Seq<char> {
    match i {
        ImplementationName::CPython => "CPython"@,
        ImplementationName::PyPy => "PyPy"@,
        ImplementationName::GraalPy => "GraalPy"@,
    }
}

/// The display name of an implementation.
pub fn impl_display(i: ImplementationName) -> (r: String)
    ensures
        r@ == spec_impl_display(i),
{
    match i {
        ImplementationName::CPython => String::from_str("CPython"),
        ImplementationName::PyPy => String::from_str("PyPy"),
        ImplementationName::GraalPy => String::from_str("GraalPy"),
    }
}

/// The rendering of a version request for a message.
pub open spec fn spec_render_version_request(vr: VersionRequestV) -> Seq<char> {
    match vr {
        VersionRequestV::Dotted(d) => spec_render_dotted(d),
        VersionRequestV::Range(sps) => spec_render_specifiers(sps),
    }
}

/// The rendering of a request for a message.
pub open spec fn spec_render_request(r: PythonRequestV) -> Seq<char> {
    match r {
        PythonRequestV::Any => "any"@,
        PythonRequestV::Version(vr) => "Python "@ + spec_render_version_request(vr),
        PythonRequestV::Implementation(i) => spec_impl_display(i),
        PythonRequestV::ImplementationVersion(i, vr) => spec_impl_display(i) + " "@
            + spec_render_version_request(vr),
        PythonRequestV::Key(k) => spec_render_key(k),
        PythonRequestV::Path(p) => "path `"@ + p + "`"@,
        PythonRequestV::ExecutableName(n) => "`"@ + n + "`"@,
    }
}

/// The rendering of a key request: its segments joined by dashes, the
/// wildcard standing for absent fields, trailing wildcards dropped.
pub open spec fn spec_render_key(k: KeyReqV) -> Seq<char> {
    let impl_part = match k.implementation {
        Option::Some(i) => spec_impl_display_lower(i),
        Option::None => "any"@,
    };
    let version_part = match k.version {
        Option::Some(d) => spec_render_dotted(d),
        Option::None => "any"@,
    };
    let os_part = match k.os {
        Option::Some(o) => seq!['-'] + o,
        Option::None => Seq::<char>::empty(),
    };
    let arch_part = match k.arch {
        Option::Some(a) => seq!['-'] + a,
        Option::None => Seq::<char>::empty(),
    };
    let variant_part = if k.variant == Some(PythonVariant::Freethreaded) {
        "-freethreaded"@
    } else {
        Seq::<char>::empty()
    };
    impl_part + seq!['-'] + version_part + os_part + arch_part + variant_part
}

/// The lower-case key segment of an implementation.
pub open spec fn spec_impl_display_lower(i: ImplementationName) -> Seq<char> {
    match i {
        ImplementationName::CPython => "cpython"@,
        ImplementationName::PyPy => "pypy"@,
        ImplementationName::GraalPy => "graalpy"@,
    }
}

/// Render a version request.
pub fn render_version_request(vr: &VersionRequest) -> (s: String)
    ensures
        s@ == spec_render_version_request(vr@),
{
    match vr {
        VersionRequest::Dotted(d) => render_dotted(d),
        VersionRequest::Range(sps) => render_specifiers(sps),
    }
}

/// Render a key request.
#[verifier::rlimit(60)]
fn render_key(k: &crate::request::KeyReq) -> (s: String)
    ensures
        s@ == spec_render_key(k@),
{
    proof {
        reveal_strlit("-");
        reveal_strlit("any");
        reveal_strlit("-freethreaded");
    }
    let mut s: String = match &k.implementation {
        Option::Some(i) => match i {
            ImplementationName::CPython => String::from_str("cpython"),
            ImplementationName::PyPy => String::from_str("pypy"),
            ImplementationName::GraalPy => String::from_str("graalpy"),
        },
        Option::None => String::from_str("any"),
    };
    s.append("-");
    match &k.version {
        Option::Some(d) => {
            let t: String = render_dotted(d);
            s.append(t.as_str());
        },
        Option::None => s.append("any"),
    }
    proof {
        let impl_part = match k@.implementation {
            Option::Some(i) => spec_impl_display_lower(i),
            Option::None => "any"@,
        };
        let version_part = match k@.version {
            Option::Some(d) => spec_render_dotted(d),
            Option::None => "any"@,
        };
        assert("-"@ =~= seq!['-']);
        assert(s@ =~= impl_part + seq!['-'] + version_part);
    }
    match &k.os {
        Option::Some(o) => {
            s.append("-");
            s.append(o.as_str());
        },
        Option::None => {},
    }
    match &k.arch {
        Option::Some(a) => {
            s.append("-");
            s.append(a.as_str());
        },
        Option::None => {},
    }
    let ft: bool = match &k.variant {
        Option::Some(v) => matches!(v, PythonVariant::Freethreaded),
        Option::None => false,
    };
    if ft {
        s.append("-freethreaded");
    }
    proof {
        assert(s@ =~= spec_render_key(k@));
    }
    s
}

/// Render a request for a message.
pub fn render_request(r: &PythonRequest) -> (s: String)
    ensures
        s@ == spec_render_request(r@),
{
    match r {
        PythonRequest::Any => String::from_str("any"),
        PythonRequest::Version(vr) => {
            let mut s: String = String::from_str("Python ");
            let t: String = render_version_request(vr);
            s.append(t.as_str());
            s
        },
        PythonRequest::Implementation(i) => impl_display(*i),
        PythonRequest::ImplementationVersion(i, vr) => {
            let mut s: String = impl_display(*i);
            s.append(" ");
            let t: String = render_version_request(vr);
            s.append(t.as_str());
            proof {
                reveal_strlit(" ");
            }
            s
        },
        PythonRequest::Key(k) => render_key(k),
        PythonRequest::Path(p) => {
            let mut s: String = String::from_str("path `");
            s.append(p.as_str());
            s.append("`");
            s
        },
        PythonRequest::ExecutableName(n) => {
            let mut s: String = String::from_str("`");
            s.append(n.as_str());
            s.append("`");
            s
        },
    }
}

/// The phrase naming the sources a resolution searched, as pruned by the
/// flags.
pub open spec fn spec_sources_phrase(flags: DiscoveryFlags) -> Seq<char> {
    if !flags.system && flags.managed is None {
        "virtual environments, managed installations, or search path"@
    } else if !flags.system && flags.managed == Some(true) {
        "virtual environments or managed installations"@
    } else if !flags.system && flags.managed == Some(false) {
        "virtual environments or search path"@
    } else if flags.system && flags.managed is None {
        "managed installations or search path"@
    } else if flags.system && flags.managed == Some(true) {
        "managed installations"@
    } else {
        "search path"@
    }
}

/// The phrase naming the searched sources.
pub fn sources_phrase(flags: &DiscoveryFlags) -> (s: String)
    ensures
        s@ == spec_sources_phrase(*flags),
{
    let managed_only: bool = matches!(flags.managed, Option::Some(true));
    let managed_off: bool = matches!(flags.managed, Option::Some(false));
    if !flags.system && !managed_only && !managed_off {
        String::from_str("virtual environments, managed installations, or search path")
    } else if !flags.system && managed_only {
        String::from_str("virtual environments or managed installations")
    } else if !flags.system && managed_off {
        String::from_str("virtual environments or search path")
    } else if flags.system && !managed_only && !managed_off {
        String::from_str("managed installations or search path")
    } else if flags.system && managed_only {
        String::from_str("managed installations")
    } else {
        String::from_str("search path")
    }
}

/// The cause attributed to a failed probe.
pub open spec fn spec_probe_cause(path: Seq<char>, p: ProbeV) -> Seq<char> {
    match p {
        ProbeV::Usable(_) => Seq::<char>::empty(),
        ProbeV::MissingExecutable => "Python interpreter not found at `"@ + path + "`"@,
        ProbeV::PermissionDenied(d) => "Failed to query Python interpreter at `"@ + path
            + "`\n  Caused by: "@ + d,
        ProbeV::QueryError(d) => "Failed to query Python interpreter at `"@ + path
            + "`\n  Caused by: "@ + d,
    }
}

/// Build the cause of a failed probe.
pub fn probe_cause(path: &String, p: &Probe) -> (s: String)
    requires
        !(p@ is Usable),
    ensures
        s@ == spec_probe_cause(path@, p@),
{
    match p {
        Probe::Usable(_) => String::new(),
        Probe::MissingExecutable => {
            let mut s: String = String::from_str("Python interpreter not found at `");
            s.append(path.as_str());
            s.append("`");
            s
        },
        Probe::PermissionDenied(d) => {
            let mut s: String = String::from_str("Failed to query Python interpreter at `");
            s.append(path.as_str());
            s.append("`\n  Caused by: ");
            s.append(d.as_str());
            s
        },
        Probe::QueryError(d) => {
            let mut s: String = String::from_str("Failed to query Python interpreter at `");
            s.append(path.as_str());
            s.append("`\n  Caused by: ");
            s.append(d.as_str());
            s
        },
    }
}

/// The phrase naming where a fatally failing candidate stood.
pub open spec fn spec_source_phrase(source: InterpreterSource) -> Seq<char> {
    match source {
        InterpreterSource::ProvidedPath => "provided path"@,
        InterpreterSource::ActiveEnvironment => "active virtual environment"@,
        InterpreterSource::ScriptEnvironment => "script environment"@,
        InterpreterSource::DiscoveredEnvironment => "virtual environment"@,
        InterpreterSource::ManagedRegistry => "managed installation"@,
        InterpreterSource::SearchPath => "search path"@,
    }
}

/// The warning for a winning interpreter that violates the constraint: an
/// explicit request is called out as such; a pinned request names its file
/// and suggests repinning; with no request at all the constraint filters
/// instead, so no warning arises.
pub open spec fn spec_incompat_warning(
    origin: RequestOriginV,
    version_text: Seq<char>,
    rp: RequiresPythonV,
) -> Option<Seq<char>> {
    match origin {
        RequestOriginV::UserRequest => Some(
            "The requested interpreter resolved to Python "@ + version_text
                + ", which is incompatible with the project's Python requirement: `"@ + rp.text
                + "` (from `"@ + rp.label + ".requires-python`)"@,
        ),
        RequestOriginV::PinFile(f) => Some(
            "The Python request from `"@ + f + "` resolved to Python "@ + version_text
                + ", which is incompatible with the project's Python requirement: `"@ + rp.text
                + "` (from `"@ + rp.label + ".requires-python`)\nUse `uv python pin` to update the `"@
                + f + "` file to a compatible version"@,
        ),
        RequestOriginV::DefaultRequest => None,
    }
}

/// The warnings a winning candidate earns.
pub open spec fn spec_selection_warnings(
    origin: RequestOriginV,
    constraint: Option<RequiresPythonV>,
    info: InterpreterInfoV,
) -> Seq<Seq<char>> {
    match constraint {
        Option::None => seq![],
        Option::Some(rp) => if requires_satisfied(rp, info.version) {
            seq![]
        } else {
            match spec_incompat_warning(origin, spec_render_version(info.version), rp) {
                Option::Some(w) => seq![w],
                Option::None => seq![],
            }
        },
    }
}

/// Build the incompatibility warning.
fn incompat_warning(origin: &RequestOrigin, version_text: &String, rp: &RequiresPython) -> (r:
    Option<String>)
    ensures
        (r is Some) == (spec_incompat_warning(origin@, version_text@, rp@) is Some),
        (r matches Some(w) ==> spec_incompat_warning(origin@, version_text@, rp@) matches Some(
            w2,
        ) && w@ == w2),
{
    match origin {
        RequestOrigin::UserRequest => {
            let mut s: String = String::from_str("The requested interpreter resolved to Python ");
            s.append(version_text.as_str());
            s.append(", which is incompatible with the project's Python requirement: `");
            s.append(rp.text.as_str());
            s.append("` (from `");
            s.append(rp.label.as_str());
            s.append(".requires-python`)");
            Some(s)
        },
        RequestOrigin::PinFile(f) => {
            let mut s: String = String::from_str("The Python request from `");
            s.append(f.as_str());
            s.append("` resolved to Python ");
            s.append(version_text.as_str());
            s.append(", which is incompatible with the project's Python requirement: `");
            s.append(rp.text.as_str());
            s.append("` (from `");
            s.append(rp.label.as_str());
            s.append(".requires-python`)\nUse `uv python pin` to update the `");
            s.append(f.as_str());
            s.append("` file to a compatible version");
            Some(s)
        },
        RequestOrigin::DefaultRequest => None,
    }
}

// ---------------------------------------------------------------------------
// Selection
// ---------------------------------------------------------------------------
/// A selected interpreter.
#[derive(Clone, Debug)]
pub struct Resolution {
    pub path: String,
    pub source: InterpreterSource,
    pub info: InterpreterInfo,
    pub warnings: Vec<String>,
}

/// The mathematical shape of a [`Resolution`].
pub struct ResolutionV {
    pub path: Seq<char>,
    pub source: InterpreterSource,
    pub info: InterpreterInfoV,
    pub warnings: Seq<Seq<char>>,
}

impl View for Resolution {
    type V = ResolutionV;

    open spec fn view(&self) -> ResolutionV {
        ResolutionV {
            path: self.path@,
            source: self.source,
            info: self.info@,
            warnings: self.warnings.deep_view(),
        }
    }
}

/// A failed selection.
#[derive(Clone, Debug)]
pub enum SelectionError {
    /// No candidate matched; carries the request and the phrase naming the
    /// searched sources.
    NotFound { request: PythonRequest, sources: String },
    /// A candidate that had to be usable could not be inspected.
    FatalProbe { source: InterpreterSource, path: String, cause: String },
    /// A provided path points at nothing.
    NoInterpreterAtPath { path: String },
    /// A provided directory holds no interpreter.
    NoInterpreterInDirectory { path: String },
}

/// The message of a not-found failure.
pub open spec fn spec_not_found_message(req: PythonRequestV, sources: Seq<char>) -> Seq<char> {
    if req is Any {
        "No interpreter found in "@ + sources
    } else {
        "No interpreter found for "@ + spec_render_request(req) + " in "@ + sources
    }
}

/// The message of a fatal probe failure.
pub open spec fn spec_fatal_message(
    source: InterpreterSource,
    path: Seq<char>,
    cause: Seq<char>,
) -> Seq<char> {
    "Failed to inspect Python interpreter from "@ + spec_source_phrase(source) + " at `"@ + path
        + "`\n  Caused by: "@ + cause
}

/// The message of a selection failure.
pub open spec fn spec_selection_error_message(e: SelectionError) -> Seq<char> {
    match e {
        SelectionError::NotFound { request, sources } => spec_not_found_message(
            request@,
            sources@,
        ),
        SelectionError::FatalProbe { source, path, cause } => spec_fatal_message(
            source,
            path@,
            cause@,
        ),
        SelectionError::NoInterpreterAtPath { path } => "No interpreter found at path `"@ + path@
            + "`"@,
        SelectionError::NoInterpreterInDirectory { path } => "No interpreter found in directory `"@
            + path@ + "`"@,
    }
}

impl SelectionError {
    /// Build the failure's message.
    pub fn message(&self) -> (s: String)
        ensures
            s@ == spec_selection_error_message(*self),
    {
        match self {
            SelectionError::NotFound { request, sources } => {
                if matches!(request, PythonRequest::Any) {
                    let mut s: String = String::from_str("No interpreter found in ");
                    s.append(sources.as_str());
                    s
                } else {
                    let mut s: String = String::from_str("No interpreter found for ");
                    let t: String = render_request(request);
                    s.append(t.as_str());
                    s.append(" in ");
                    s.append(sources.as_str());
                    s
                }
            },
            SelectionError::FatalProbe { source, path, cause } => {
                let mut s: String = String::from_str(
                    "Failed to inspect Python interpreter from ",
                );
                let phrase: String = match source {
                    InterpreterSource::ProvidedPath => String::from_str("provided path"),
                    InterpreterSource::ActiveEnvironment => String::from_str(
                        "active virtual environment",
                    ),
                    InterpreterSource::ScriptEnvironment => String::from_str(
                        "script environment",
                    ),
                    InterpreterSource::DiscoveredEnvironment => String::from_str(
                        "virtual environment",
                    ),
                    InterpreterSource::ManagedRegistry => String::from_str(
                        "managed installation",
                    ),
                    InterpreterSource::SearchPath => String::from_str("search path"),
                };
                s.append(phrase.as_str());
                s.append(" at `");
                s.append(path.as_str());
                s.append("`\n  Caused by: ");
                s.append(cause.as_str());
                proof {
                    assert(phrase@ =~= spec_source_phrase(*source));
                    assert(s@ =~= spec_fatal_message(*source, path@, cause@));
                }
                s
            },
            SelectionError::NoInterpreterAtPath { path } => {
                let mut s: String = String::from_str("No interpreter found at path `");
                s.append(path.as_str());
                s.append("`");
                s
            },
            SelectionError::NoInterpreterInDirectory { path } => {
                let mut s: String = String::from_str("No interpreter found in directory `");
                s.append(path.as_str());
                s.append("`");
                s
            },
        }
    }
}

/// Select an interpreter from the pool: walk the enumeration in precedence
/// order and return the first candidate that matches the request and, when
/// nothing was requested, the constraint. A winner that violates the
/// constraint under an explicit or pinned request carries a warning. A
/// missing executable in the activated environment is fatal. Exhausting the
/// enumeration names the request and the searched sources.
#[verifier::rlimit(100)]
pub fn find_interpreter(
    request: &PythonRequest,
    origin: &RequestOrigin,
    constraint: Option<&RequiresPython>,
    pool: &InterpreterPool,
    flags: &DiscoveryFlags,
) -> (r: Result<Resolution, SelectionError>)
    requires
        !(request@ is Path),
    ensures
        ({
            let entries = spec_enumerate(pool@, *flags);
            let cv = match constraint {
                Option::None => None::<RequiresPythonV>,
                Option::Some(c) => Some(c@),
            };
            let filter = origin@ is DefaultRequest;
            match spec_scan(entries, request@, cv, filter) {
                ScanOutcome::Win(c) => r matches Ok(res) && res@.path == c.path && res@.source
                    == c.source && (c.probe matches ProbeV::Usable(info) && res@.info == info
                    && res@.warnings == spec_selection_warnings(origin@, cv, info)),
                ScanOutcome::Fatal(c) => r matches Err(e) && e matches SelectionError::FatalProbe {
                    source,
                    path,
                    cause,
                } && source == c.source && path@ == c.path && cause@ == spec_probe_cause(
                    c.path,
                    c.probe,
                ),
                ScanOutcome::NoHit => r matches Err(e) && e matches SelectionError::NotFound {
                    request: rq,
                    sources,
                } && rq@ == request@ && sources@ == spec_sources_phrase(*flags),
            }
        }),
{
    let entries: Vec<SourcedCandidate> = enumerate(pool, flags);
    let ghost entries_v = entries.deep_view();
    let ghost cv = match constraint {
        Option::None => None::<RequiresPythonV>,
        Option::Some(c) => Some(c@),
    };
    let ghost filter_g = origin@ is DefaultRequest;
    let filter: bool = matches!(origin, RequestOrigin::DefaultRequest);
    let mut i: usize = 0;
    proof {
        assert(entries_v.skip(0) =~= entries_v);
    }
    loop
        invariant
            i <= entries@.len(),
            entries.deep_view() == entries_v,
            entries_v == spec_enumerate(pool@, *flags),
            filter == filter_g,
            filter_g == (origin@ is DefaultRequest),
            cv == (match constraint {
                Option::None => None::<RequiresPythonV>,
                Option::Some(c) => Some(c@),
            }),
            !(request@ is Path),
            spec_scan(entries_v, request@, cv, filter_g) == spec_scan(
                entries_v.skip(i as int),
                request@,
                cv,
                filter_g,
            ),
        decreases entries@.len() - i,
    {
        if i >= entries.len() {
            proof {
                assert(entries_v.skip(i as int).len() == 0);
            }
            return Result::Err(
                SelectionError::NotFound {
                    request: request.duplicate(),
                    sources: sources_phrase(flags),
                },
            );
        }
        proof {
            assert(entries_v.skip(i as int)[0] == entries_v[i as int]);
            assert(entries_v[i as int] == entries@[i as int]@);
            assert(entries_v.skip(i as int).skip(1) =~= entries_v.skip(i + 1 as int));
        }
        let e: &SourcedCandidate = &entries[i];
        let is_fatal: bool = matches!(e.source, InterpreterSource::ActiveEnvironment) && matches!(
            e.probe,
            Probe::MissingExecutable,
        );
        if is_fatal {
            let cause: String = probe_cause(&e.path, &e.probe);
            return Result::Err(
                SelectionError::FatalProbe {
                    source: e.source,
                    path: e.path.clone(),
                    cause,
                },
            );
        }
        match &e.probe {
            Probe::Usable(info) => {
                let matched: bool = request_match_exec(request, &e.name, info);
                let constraint_ok: bool = if filter {
                    match constraint {
                        Option::Some(rp) => rp.satisfied_by(&info.version),
                        Option::None => true,
                    }
                } else {
                    true
                };
                if matched && constraint_ok {
                    let mut warnings: Vec<String> = Vec::new();
                    match constraint {
                        Option::Some(rp) => {
                            if !rp.satisfied_by(&info.version) {
                                let vt: String = render_version(&info.version);
                                match incompat_warning(origin, &vt, rp) {
                                    Option::Some(w) => {
                                        warnings.push(w);
                                    },
                                    Option::None => {},
                                }
                            }
                        },
                        Option::None => {},
                    }
                    proof {
                        assert(warnings.deep_view() =~~= spec_selection_warnings(
                            origin@,
                            cv,
                            info@,
                        ));
                    }
                    return Result::Ok(
                        Resolution {
                            path: e.path.clone(),
                            source: e.source,
                            info: info.duplicate(),
                            warnings,
                        },
                    );
                }
            },
            _ => {},
        }
        i = i + 1;
    }
}

/// What stands at an explicitly provided path, as the caller inspected it.
#[derive(Clone, Debug)]
pub enum ProvidedTarget {
    /// Nothing exists at the path.
    Missing,
    /// A directory; the candidate is its conventionally named interpreter,
    /// when one exists.
    Dir(Option<Candidate>),
    /// A file, probed.
    FileAt(Candidate),
}

/// The mathematical shape of a [`ProvidedTarget`].
pub enum ProvidedTargetV {
    Missing,
    Dir(Option<CandidateV>),
    FileAt(CandidateV),
}

impl View for ProvidedTarget {
    type V = ProvidedTargetV;

    open spec fn view(&self) -> ProvidedTargetV {
        match self {
            ProvidedTarget::Missing => ProvidedTargetV::Missing,
            ProvidedTarget::Dir(c) => ProvidedTargetV::Dir(
                match c {
                    Option::None => None,
                    Option::Some(cand) => Some(cand@),
                },
            ),
            ProvidedTarget::FileAt(c) => ProvidedTargetV::FileAt(c@),
        }
    }
}

/// Resolve an explicitly provided path, bypassing every other source: a
/// missing target and an interpreter-less directory are their own failures,
/// distinct from the general not-found; a target that cannot be inspected is
/// fatal; a usable target wins with no warnings.
pub fn find_at_path(given: &str, target: &ProvidedTarget) -> (r: Result<Resolution, SelectionError>)
    ensures
        (target@ is Missing ==> (r matches Err(e)
            && (e matches SelectionError::NoInterpreterAtPath { path } && path@ == given@))),
        (target@ matches ProvidedTargetV::Dir(c) ==> (c is None ==> (r matches Err(e)
            && (e matches SelectionError::NoInterpreterInDirectory { path } && path@
            == given@)))),
        (forall|c: CandidateV|
            (target@ == ProvidedTargetV::FileAt(c) || target@ == ProvidedTargetV::Dir(Some(c)))
                ==> match c.probe {
                ProbeV::Usable(info) => r matches Ok(res) && res@.path == c.path && res@.source
                    == InterpreterSource::ProvidedPath && res@.info == info && res@.warnings
                    == Seq::<Seq<char>>::empty(),
                _ => r matches Err(e) && e matches SelectionError::FatalProbe {
                    source,
                    path,
                    cause,
                } && source == InterpreterSource::ProvidedPath && path@ == given@ && cause@
                    == spec_probe_cause(c.path, c.probe),
            }),
{
    match target {
        ProvidedTarget::Missing => Result::Err(
            SelectionError::NoInterpreterAtPath { path: String::from_str(given) },
        ),
        ProvidedTarget::Dir(Option::None) => Result::Err(
            SelectionError::NoInterpreterInDirectory { path: String::from_str(given) },
        ),
        ProvidedTarget::Dir(Option::Some(c)) => resolve_provided(given, c),
        ProvidedTarget::FileAt(c) => resolve_provided(given, c),
    }
}

/// Resolve one provided candidate.
fn resolve_provided(given: &str, c: &Candidate) -> (r: Result<Resolution, SelectionError>)
    ensures
        (match c@.probe {
            ProbeV::Usable(info) => r matches Ok(res) && res@.path == c@.path && res@.source
                == InterpreterSource::ProvidedPath && res@.info == info && res@.warnings
                == Seq::<Seq<char>>::empty(),
            _ => r matches Err(e) && e matches SelectionError::FatalProbe { source, path, cause }
                && source == InterpreterSource::ProvidedPath && path@ == given@ && cause@
                == spec_probe_cause(c@.path, c@.probe),
        }),
{
    match &c.probe {
        Probe::Usable(info) => {
            let warnings: Vec<String> = Vec::new();
            proof {
                assert(warnings.deep_view() =~~= Seq::<Seq<char>>::empty());
            }
            Result::Ok(
                Resolution {
                    path: c.path.clone(),
                    source: InterpreterSource::ProvidedPath,
                    info: info.duplicate(),
                    warnings,
                },
            )
        },
        _ => {
            let cause: String = probe_cause(&c.path, &c.probe);
            Result::Err(
                SelectionError::FatalProbe {
                    source: InterpreterSource::ProvidedPath,
                    path: String::from_str(given),
                    cause,
                },
            )
        },
    }
}

/// The line announcing the interpreter a resolution settled on.
pub open spec fn spec_using_message(info: InterpreterInfoV, path: Seq<char>) -> Seq<char> {
    "Using "@ + spec_impl_display(info.implementation) + " "@ + spec_render_version(info.version)
        + " interpreter at: "@ + path
}

impl Resolution {
    /// Build the line announcing this interpreter.
    pub fn using_message(&self) -> (s: String)
        ensures
            s@ == spec_using_message(self@.info, self@.path),
    {
        proof {
            reveal_strlit(" ");
        }
        let mut s: String = String::from_str("Using ");
        let impl_text: String = impl_display(self.info.implementation);
        s.append(impl_text.as_str());
        s.append(" ");
        let version_text: String = render_version(&self.info.version);
        s.append(version_text.as_str());
        s.append(" interpreter at: ");
        s.append(self.path.as_str());
        s
    }
}

// ---------------------------------------------------------------------------
// Choosing the effective request
// ---------------------------------------------------------------------------
/// The warning for a pin whose value is an arbitrary name.
pub open spec fn spec_ignored_pin_warning(text: Seq<char>, origin: Seq<char>) -> Seq<char> {
    "Ignoring unsupported Python request `"@ + text + "` in version file: "@ + origin
}

/// The effective request of one invocation: the explicit request wins over
/// the pin, and the pin over nothing. A pin holding an arbitrary executable
/// name is ignored with a warning, not an error; a pin below the supported
/// floor is the same eager error an explicit request would be.
pub fn choose_request(cli: Option<PythonRequest>, pin: Option<&VersionFilePin>) -> (r: Result<
    (PythonRequest, RequestOrigin, Vec<String>),
    String,
>)
    ensures
        (cli matches Some(req) ==> r matches Ok(t) && t.0@ == req@ && t.1@ is UserRequest
            && t.2.deep_view() == Seq::<Seq<char>>::empty()),
        ((cli is None && pin is None) ==> (r matches Ok(t) && t.0@ is Any
            && t.1@ is DefaultRequest && t.2.deep_view() == Seq::<Seq<char>>::empty())),
        (cli is None ==> (pin matches Some(p) ==> {
            let parsed = spec_parse_request(p@.text);
            match crate::request::request_floor_error(parsed) {
                Option::Some(m) => r matches Err(e) && e@ == m,
                Option::None => if parsed is ExecutableName {
                    r matches Ok(t) && t.0@ is Any && t.1@ is DefaultRequest && t.2.deep_view()
                        =~~= seq![spec_ignored_pin_warning(p@.text, p@.origin)]
                } else {
                    r matches Ok(t) && t.0@ == parsed && (t.1@ matches RequestOriginV::PinFile(f)
                        && f == p@.origin) && t.2.deep_view() == Seq::<Seq<char>>::empty()
                },
            }
        })),
{
    match cli {
        Option::Some(req) => {
            let warnings: Vec<String> = Vec::new();
            proof {
                assert(warnings.deep_view() =~~= Seq::<Seq<char>>::empty());
            }
            Result::Ok((req, RequestOrigin::UserRequest, warnings))
        },
        Option::None => {
            match pin {
                Option::None => {
                    let warnings: Vec<String> = Vec::new();
                    proof {
                        assert(warnings.deep_view() =~~= Seq::<Seq<char>>::empty());
                    }
                    Result::Ok((PythonRequest::Any, RequestOrigin::DefaultRequest, warnings))
                },
                Option::Some(p) => {
                    match PythonRequest::parse(p.text.as_str()) {
                        Result::Err(e) => Result::Err(e),
                        Result::Ok(req) => {
                            if matches!(req, PythonRequest::ExecutableName(_)) {
                                let mut w: String = String::from_str(
                                    "Ignoring unsupported Python request `",
                                );
                                w.append(p.text.as_str());
                                w.append("` in version file: ");
                                w.append(p.origin.as_str());
                                let mut warnings: Vec<String> = Vec::new();
                                warnings.push(w);
                                proof {
                                    assert(warnings.deep_view() =~~= seq![
                                        spec_ignored_pin_warning(p@.text, p@.origin),
                                    ]);
                                }
                                Result::Ok(
                                    (PythonRequest::Any, RequestOrigin::DefaultRequest, warnings),
                                )
                            } else {
                                let warnings: Vec<String> = Vec::new();
                                proof {
                                    assert(warnings.deep_view() =~~= Seq::<Seq<char>>::empty());
                                }
                                Result::Ok(
                                    (req, RequestOrigin::PinFile(p.origin.clone()), warnings),
                                )
                            }
                        },
                    }
                },
            }
        },
    }
}

// ---------------------------------------------------------------------------
// Source precedence laws
// ---------------------------------------------------------------------------
/// With no flags set, a usable active environment always wins over anything
/// on the search path: the scan returns its interpreter, whatever the search
/// path holds and in whatever order.
pub proof fn lemma_active_env_precedes_search_path(
    pool: InterpreterPoolV,
    c: CandidateV,
    info: InterpreterInfoV,
    req: PythonRequestV,
    constraint: Option<RequiresPythonV>,
)
    requires
        pool.script_env is None,
        pool.active_env matches Some(e) && e.has_cfg && e.interpreter == Some(c),
        c.probe == ProbeV::Usable(info),
        req is Any,
    ensures
        spec_scan(
            spec_enumerate(pool, (DiscoveryFlags { system: false, managed: None })),
            req,
            constraint,
            false,
        ) == ScanOutcome::Win(
            (SourcedCandidateV {
                source: InterpreterSource::ActiveEnvironment,
                path: c.path,
                name: c.name,
                probe: c.probe,
            }),
        ),
{
    let flags = DiscoveryFlags { system: false, managed: None };
    let entries = spec_enumerate(pool, flags);
    assert(entries[0] == SourcedCandidateV {
        source: InterpreterSource::ActiveEnvironment,
        path: c.path,
        name: c.name,
        probe: c.probe,
    });
    assert(request_matches(req, entries[0]));
}

/// With the system flag set, environment sources vanish from the enumeration
/// altogether: resolution sees exactly the managed registry and the search
/// path, whatever environments exist.
pub proof fn lemma_system_flag_skips_environments(pool: InterpreterPoolV)
    ensures
        spec_enumerate(pool, (DiscoveryFlags { system: true, managed: None })) == tagged(
            InterpreterSource::ManagedRegistry,
            pool.managed,
        ) + tagged(InterpreterSource::SearchPath, pool.search_path),
{
    let flags = DiscoveryFlags { system: true, managed: None };
    assert(spec_enumerate(pool, flags) =~= seq![] + tagged(
        InterpreterSource::ManagedRegistry,
        pool.managed,
    ) + tagged(InterpreterSource::SearchPath, pool.search_path));
}

/// With the system flag set and no managed installations, the first usable
/// interpreter on the search path wins — whatever environments exist.
pub proof fn lemma_system_flag_prefers_search_path(
    pool: InterpreterPoolV,
    c: CandidateV,
    info: InterpreterInfoV,
    req: PythonRequestV,
    constraint: Option<RequiresPythonV>,
)
    requires
        pool.managed.len() == 0,
        pool.search_path.len() >= 1,
        pool.search_path[0] == c,
        c.probe == ProbeV::Usable(info),
        req is Any,
    ensures
        spec_scan(
            spec_enumerate(pool, (DiscoveryFlags { system: true, managed: None })),
            req,
            constraint,
            false,
        ) == ScanOutcome::Win(
            (SourcedCandidateV {
                source: InterpreterSource::SearchPath,
                path: c.path,
                name: c.name,
                probe: c.probe,
            }),
        ),
{
    lemma_system_flag_skips_environments(pool);
    let entries = spec_enumerate(pool, (DiscoveryFlags { system: true, managed: None }));
    assert(entries[0] == SourcedCandidateV {
        source: InterpreterSource::SearchPath,
        path: c.path,
        name: c.name,
        probe: c.probe,
    });
}

/// A winning scan picks the first qualifying candidate: the winner stands at
/// an index whose every predecessor is neither viable nor fatal.
pub proof fn lemma_scan_win_is_first(
    entries: Seq<SourcedCandidateV>,
    req: PythonRequestV,
    constraint: Option<RequiresPythonV>,
    filter_by_constraint: bool,
    c: SourcedCandidateV,
)
    requires
        spec_scan(entries, req, constraint, filter_by_constraint) == ScanOutcome::Win(c),
    ensures
        exists|i: int|
            0 <= i < entries.len() && entries[i] == c && candidate_viable(
                req,
                constraint,
                filter_by_constraint,
                c,
            ) && (forall|j: int|
                0 <= j < i ==> !candidate_viable(
                    req,
                    constraint,
                    filter_by_constraint,
                    #[trigger] entries[j],
                ) && !candidate_fatal(entries[j])),
    decreases entries.len(),
{
    if entries.len() == 0 {
    } else if candidate_fatal(entries[0]) {
    } else if candidate_viable(req, constraint, filter_by_constraint, entries[0]) {
        let i: int = 0;
        assert(0 <= i < entries.len() && entries[i] == c && candidate_viable(
            req,
            constraint,
            filter_by_constraint,
            c,
        ) && (forall|j: int|
            0 <= j < i ==> !candidate_viable(
                req,
                constraint,
                filter_by_constraint,
                #[trigger] entries[j],
            ) && !candidate_fatal(entries[j])));
    } else {
        lemma_scan_win_is_first(entries.skip(1), req, constraint, filter_by_constraint, c);
        let k: int = choose|k: int|
            0 <= k < entries.skip(1).len() && entries.skip(1)[k] == c && candidate_viable(
                req,
                constraint,
                filter_by_constraint,
                c,
            ) && (forall|j: int|
                0 <= j < k ==> !candidate_viable(
                    req,
                    constraint,
                    filter_by_constraint,
                    #[trigger] entries.skip(1)[j],
                ) && !candidate_fatal(entries.skip(1)[j]));
        let i: int = k + 1;
        assert(entries[i] == entries.skip(1)[k]);
        assert forall|j: int|
            0 <= j < i implies !candidate_viable(
            req,
            constraint,
            filter_by_constraint,
            #[trigger] entries[j],
        ) && !candidate_fatal(entries[j]) by {
            if j > 0 {
                assert(entries[j] == entries.skip(1)[j - 1]);
            }
        }
        assert(0 <= i < entries.len() && entries[i] == c);
    }
}

/// Enumerate the pool under the flags, in precedence order.
pub fn enumerate(pool: &InterpreterPool, flags: &DiscoveryFlags) -> (out: Vec<SourcedCandidate>)
    ensures
        out.deep_view() == spec_enumerate(pool@, *flags),
{
    let mut out: Vec<SourcedCandidate> = Vec::new();
    if !flags.system {
        push_env(&mut out, InterpreterSource::ScriptEnvironment, &pool.script_env);
        push_env(&mut out, InterpreterSource::ActiveEnvironment, &pool.active_env);
        push_env(&mut out, InterpreterSource::DiscoveredEnvironment, &pool.discovered_env);
    }
    let managed_off: bool = match flags.managed {
        Option::Some(b) => !b,
        Option::None => false,
    };
    let managed_only: bool = match flags.managed {
        Option::Some(b) => b,
        Option::None => false,
    };
    if !managed_off {
        push_tagged(&mut out, InterpreterSource::ManagedRegistry, &pool.managed);
    }
    if !managed_only {
        push_tagged(&mut out, InterpreterSource::SearchPath, &pool.search_path);
    }
    proof {
        assert(out.deep_view() =~~= spec_enumerate(pool@, *flags));
    }
    out
}

} // verus!
