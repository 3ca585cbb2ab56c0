//! A validated Python version: full version text plus decoded components,
//! with the marker projections a resolver derives from it.

use vstd::prelude::*;
use vstd::string::StringExecFns;

use crate::strutil::{render_u64, spec_digits, str_eq};
use crate::version::{
    pep440_parse, pep440_parse_spec, render_version, spec_release_version, spec_render_version,
    VersionParts, VersionPartsV,
};

verus! {

/// A version value together with the exact text it was written as.
#[derive(Clone, Debug)]
pub struct StringVer {
    pub text: String,
    pub parts: VersionParts,
}

/// A marker environment: the interpreter facts that requirement markers are
/// evaluated against. Platform fields are carried through untouched; the
/// Python version fields are the ones this engine overrides.
#[derive(Clone, Debug)]
pub struct MarkerEnv {
    pub implementation_name: String,
    pub implementation_version: StringVer,
    pub python_full_version: StringVer,
    pub python_version: StringVer,
    pub os_name: String,
    pub platform_machine: String,
    pub platform_system: String,
    pub sys_platform: String,
}

/// The mathematical shape of a [`StringVer`].
pub struct StringVerV {
    pub text: Seq<char>,
    pub parts: VersionPartsV,
}

impl View for StringVer {
    type V = StringVerV;

    open spec fn view(&self) -> StringVerV {
        StringVerV { text: self.text@, parts: self.parts@ }
    }
}

impl StringVer {
    /// An equal copy.
    pub fn duplicate(&self) -> (r: StringVer)
        ensures
            r@ == self@,
    {
        StringVer { text: self.text.clone(), parts: self.parts.duplicate() }
    }
}

/// The mathematical shape of a [`MarkerEnv`].
pub struct MarkerEnvV {
    pub implementation_name: Seq<char>,
    pub implementation_version: StringVerV,
    pub python_full_version: StringVerV,
    pub python_version: StringVerV,
    pub os_name: Seq<char>,
    pub platform_machine: Seq<char>,
    pub platform_system: Seq<char>,
    pub sys_platform: Seq<char>,
}

impl View for MarkerEnv {
    type V = MarkerEnvV;

    open spec fn view(&self) -> MarkerEnvV {
        MarkerEnvV {
            implementation_name: self.implementation_name@,
            implementation_version: self.implementation_version@,
            python_full_version: self.python_full_version@,
            python_version: self.python_version@,
            os_name: self.os_name@,
            platform_machine: self.platform_machine@,
            platform_system: self.platform_system@,
            sys_platform: self.sys_platform@,
        }
    }
}

/// A validated Python version: the verbatim text and its components.
#[derive(Clone, Debug)]
pub struct PythonVersion {
    text: String,
    parts: VersionParts,
}

/// The mathematical shape of a [`PythonVersion`].
pub struct PythonVersionV {
    pub text: Seq<char>,
    pub parts: VersionPartsV,
}

impl View for PythonVersion {
    type V = PythonVersionV;

    closed spec fn view(&self) -> PythonVersionV {
        PythonVersionV { text: self.text@, parts: self.parts@ }
    }
}

// ---------------------------------------------------------------------------
// Validation
// ---------------------------------------------------------------------------
/// The message for version text the PEP 440 parser rejects.
pub open spec fn msg_not_parsed(s: Seq<char>, e: Seq<char>) -> Seq<char> {
    "Python version `"@ + s + "` could not be parsed: "@ + e
}

/// The message for a development release.
pub open spec fn msg_dev(s: Seq<char>) -> Seq<char> {
    "Python version `"@ + s + "` is a development release"@
}

/// The message for a local version.
pub open spec fn msg_local(s: Seq<char>) -> Seq<char> {
    "Python version `"@ + s + "` is a local version"@
}

/// The message for a non-zero epoch.
pub open spec fn msg_epoch(s: Seq<char>) -> Seq<char> {
    "Python version `"@ + s + "` has a non-zero epoch"@
}

/// The message for an oversized major number.
pub open spec fn msg_major(s: Seq<char>, n: u64) -> Seq<char> {
    "Python version `"@ + s + "` has an invalid major version ("@ + spec_digits(n as int)
        + ")"@
}

/// The message for an oversized minor number.
pub open spec fn msg_minor(s: Seq<char>, n: u64) -> Seq<char> {
    "Python version `"@ + s + "` has an invalid minor version ("@ + spec_digits(n as int)
        + ")"@
}

/// The message for an oversized patch number.
pub open spec fn msg_patch(s: Seq<char>, n: u64) -> Seq<char> {
    "Python version `"@ + s + "` has an invalid patch version ("@ + spec_digits(n as int)
        + ")"@
}

/// What reading a Python version from text produces: the parsed components
/// when they describe a usable environment-target version, else the exact
/// complaint. Development releases, local versions, non-zero epochs, and
/// major/minor/patch numbers beyond the marker range are rejected.
pub open spec fn spec_python_version_from_str(s: Seq<char>) -> Result<VersionPartsV, Seq<char>> {
    match pep440_parse_spec(s) {
        Result::Err(e) => Result::Err(msg_not_parsed(s, e)),
        Result::Ok(p) => if p.dev is Some {
            Result::Err(msg_dev(s))
        } else if p.local {
            Result::Err(msg_local(s))
        } else if p.epoch != 0 {
            Result::Err(msg_epoch(s))
        } else if p.release.len() >= 1 && p.release[0] > 255 {
            Result::Err(msg_major(s, p.release[0]))
        } else if p.release.len() >= 2 && p.release[1] > 255 {
            Result::Err(msg_minor(s, p.release[1]))
        } else if p.release.len() >= 3 && p.release[2] > 255 {
            Result::Err(msg_patch(s, p.release[2]))
        } else {
            Result::Ok(p)
        },
    }
}

/// A well-formed Python version: what validation lets through.
pub open spec fn python_version_wf(v: PythonVersionV) -> bool {
    &&& v.parts.dev is None
    &&& !v.parts.local
    &&& v.parts.epoch == 0
    &&& (v.parts.release.len() >= 1 ==> crate::fits_marker(v.parts.release[0]))
    &&& (v.parts.release.len() >= 2 ==> crate::fits_marker(v.parts.release[1]))
    &&& (v.parts.release.len() >= 3 ==> crate::fits_marker(v.parts.release[2]))
}

/// Prefix, value text, and closing for the invalid-component messages.
fn component_message(s: &str, middle: &str, n: u64) -> (r: String)
    ensures
        r@ == "Python version `"@ + s@ + middle@ + spec_digits(n as int) + ")"@,
{
    proof {
        reveal_strlit(")");
    }
    let mut m: String = String::from_str("Python version `");
    m.append(s);
    m.append(middle);
    let num: String = render_u64(n);
    m.append(num.as_str());
    m.append(")");
    m
}

impl PythonVersion {
    /// Read a Python version from text, validating that it can serve as an
    /// environment target.
    pub fn from_str(s: &str) -> (r: Result<PythonVersion, String>)
        ensures
            (r is Ok) == (spec_python_version_from_str(s@) is Ok),
            (r matches Ok(v) ==> spec_python_version_from_str(s@) matches Ok(p) && v@.parts == p
                && v@.text == s@ && python_version_wf(v@)),
            (r matches Err(e) ==> spec_python_version_from_str(s@) matches Err(m) && e@ == m),
    {
        let parsed: Result<VersionParts, String> = pep440_parse(s);
        match parsed {
            Result::Err(e) => {
                let mut m: String = String::from_str("Python version `");
                m.append(s);
                m.append("` could not be parsed: ");
                m.append(e.as_str());
                Result::Err(m)
            },
            Result::Ok(p) => {
                if p.dev.is_some() {
                    let mut m: String = String::from_str("Python version `");
                    m.append(s);
                    m.append("` is a development release");
                    return Result::Err(m);
                }
                if p.local {
                    let mut m: String = String::from_str("Python version `");
                    m.append(s);
                    m.append("` is a local version");
                    return Result::Err(m);
                }
                if p.epoch != 0 {
                    let mut m: String = String::from_str("Python version `");
                    m.append(s);
                    m.append("` has a non-zero epoch");
                    return Result::Err(m);
                }
                if p.release.len() >= 1 && p.release[0] > 255 {
                    return Result::Err(
                        component_message(s, "` has an invalid major version (", p.release[0]),
                    );
                }
                if p.release.len() >= 2 && p.release[1] > 255 {
                    return Result::Err(
                        component_message(s, "` has an invalid minor version (", p.release[1]),
                    );
                }
                if p.release.len() >= 3 && p.release[2] > 255 {
                    return Result::Err(
                        component_message(s, "` has an invalid patch version (", p.release[2]),
                    );
                }
                Result::Ok(PythonVersion { text: String::from_str(s), parts: p })
            },
        }
    }

    /// The verbatim text this version was written as.
    pub fn text(&self) -> (r: &String)
        ensures
            r@ == self@.text,
    {
        &self.text
    }

    /// The full parsed version.
    pub fn version(&self) -> (r: &VersionParts)
        ensures
            r@ == self@.parts,
    {
        &self.parts
    }

    /// The full parsed version, by value.
    pub fn into_version(self) -> (r: VersionParts)
        ensures
            r@ == self@.parts,
    {
        self.parts
    }

    /// The major number.
    pub fn major(&self) -> (r: u8)
        requires
            python_version_wf(self@),
        ensures
            r as u64 == self@.parts.major(),
    {
        if self.parts.release.len() >= 1 {
            self.parts.release[0] as u8
        } else {
            0
        }
    }

    /// The minor number.
    pub fn minor(&self) -> (r: u8)
        requires
            python_version_wf(self@),
        ensures
            r as u64 == self@.parts.minor(),
    {
        if self.parts.release.len() >= 2 {
            self.parts.release[1] as u8
        } else {
            0
        }
    }

    /// The patch number, when the text carried one.
    pub fn patch(&self) -> (r: Option<u8>)
        requires
            python_version_wf(self@),
        ensures
            (r matches Some(p) ==> self@.parts.patch() matches Some(q) && p as u64 == q),
            (r is None) == (self@.parts.patch() is None),
    {
        if self.parts.release.len() >= 3 {
            Some(self.parts.release[2] as u8)
        } else {
            None
        }
    }

    /// The `python_version` marker value: exactly major and minor.
    pub fn python_version(&self) -> (r: VersionParts)
        ensures
            r@ == spec_release_version(seq![self@.parts.major(), self@.parts.minor()]),
    {
        let major: u64 = if self.parts.release.len() >= 1 {
            self.parts.release[0]
        } else {
            0
        };
        let minor: u64 = if self.parts.release.len() >= 2 {
            self.parts.release[1]
        } else {
            0
        };
        let mut release: Vec<u64> = Vec::new();
        release.push(major);
        release.push(minor);
        proof {
            assert(release@ =~= seq![self@.parts.major(), self@.parts.minor()]);
        }
        VersionParts::from_release(release)
    }

    /// The `python_full_version` marker value: exactly major, minor and patch
    /// (zero when absent), keeping pre- and post-release markers.
    pub fn python_full_version(&self) -> (r: VersionParts)
        ensures
            r@ == (VersionPartsV {
                epoch: 0,
                release: seq![
                    self@.parts.major(),
                    self@.parts.minor(),
                    self@.parts.part(2),
                ],
                pre: self@.parts.pre,
                post: self@.parts.post,
                dev: None,
                local: false,
            }),
    {
        let major: u64 = if self.parts.release.len() >= 1 {
            self.parts.release[0]
        } else {
            0
        };
        let minor: u64 = if self.parts.release.len() >= 2 {
            self.parts.release[1]
        } else {
            0
        };
        let patch: u64 = if self.parts.release.len() >= 3 {
            self.parts.release[2]
        } else {
            0
        };
        let mut release: Vec<u64> = Vec::new();
        release.push(major);
        release.push(minor);
        release.push(patch);
        proof {
            assert(release@ =~= seq![
                self@.parts.major(),
                self@.parts.minor(),
                self@.parts.part(2),
            ]);
        }
        VersionParts {
            epoch: 0,
            release,
            pre: self.parts.pre,
            post: self.parts.post,
            dev: None,
            local: false,
        }
    }

    /// A copy of this version without its patch number.
    pub fn without_patch(&self) -> (r: PythonVersion)
        requires
            python_version_wf(self@),
        ensures
            r@.parts == spec_release_version(seq![self@.parts.major(), self@.parts.minor()]),
            r@.text == spec_render_version(spec_release_version(
                seq![self@.parts.major(), self@.parts.minor()],
            )),
            python_version_wf(r@),
    {
        let parts: VersionParts = self.python_version();
        let text: String = render_version(&parts);
        PythonVersion { text, parts }
    }

    /// A marker environment for this version: the base environment with its
    /// Python version markers overridden. The implementation version is
    /// overridden only for the CPython implementation; the verbatim text is
    /// retained for the full-version markers.
    pub fn markers(&self, base: &MarkerEnv) -> (r: MarkerEnv)
        ensures
            r@.os_name == base@.os_name,
            r@.platform_machine == base@.platform_machine,
            r@.platform_system == base@.platform_system,
            r@.sys_platform == base@.sys_platform,
            r@.implementation_name == base@.implementation_name,
            (base@.implementation_name == "cpython"@ ==> r@.implementation_version.text
                == self@.text && r@.implementation_version.parts == (VersionPartsV {
                epoch: 0,
                release: seq![
                    self@.parts.major(),
                    self@.parts.minor(),
                    self@.parts.part(2),
                ],
                pre: self@.parts.pre,
                post: self@.parts.post,
                dev: None,
                local: false,
            })),
            (base@.implementation_name != "cpython"@ ==> r@.implementation_version
                == base@.implementation_version),
            r@.python_full_version.text == self@.text,
            r@.python_full_version.parts == (VersionPartsV {
                epoch: 0,
                release: seq![
                    self@.parts.major(),
                    self@.parts.minor(),
                    self@.parts.part(2),
                ],
                pre: self@.parts.pre,
                post: self@.parts.post,
                dev: None,
                local: false,
            }),
            r@.python_version.parts == spec_release_version(
                seq![self@.parts.major(), self@.parts.minor()],
            ),
            r@.python_version.text == spec_render_version(spec_release_version(
                seq![self@.parts.major(), self@.parts.minor()],
            )),
    {
        let mut out: MarkerEnv = MarkerEnv {
            implementation_name: base.implementation_name.clone(),
            implementation_version: base.implementation_version.duplicate(),
            python_full_version: base.python_full_version.duplicate(),
            python_version: base.python_version.duplicate(),
            os_name: base.os_name.clone(),
            platform_machine: base.platform_machine.clone(),
            platform_system: base.platform_system.clone(),
            sys_platform: base.sys_platform.clone(),
        };
        if str_eq(base.implementation_name.as_str(), "cpython") {
            out.implementation_version = StringVer {
                text: self.text.clone(),
                parts: self.python_full_version(),
            };
        }
        out.python_full_version = StringVer {
            text: self.text.clone(),
            parts: self.python_full_version(),
        };
        let short: VersionParts = self.python_version();
        let short_text: String = render_version(&short);
        out.python_version = StringVer { text: short_text, parts: short };
        out
    }
}

} // verus!
