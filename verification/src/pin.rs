//! Version-file pins: `.python-versions` (ordered, first line wins) and
//! `.python-version` (single value), resolved by walking from the query
//! directory upward. The walk stops at the first directory that yields any
//! non-empty file — whether or not its content is usable — and never crosses
//! a project-root boundary. With configuration disabled it never runs.

use vstd::prelude::*;
use vstd::string::StringExecFns;

verus! {

/// One directory on the walk upward, innermost first: its path, the lines of
/// its `.python-versions` file (when the file exists), the content of its
/// `.python-version` file (when it exists), and whether the directory is a
/// project root.
#[derive(Clone, Debug)]
pub struct AncestorDir {
    pub path: String,
    pub versions_file: Option<Vec<String>>,
    pub version_file: Option<String>,
    pub is_project_root: bool,
}

/// The mathematical shape of an [`AncestorDir`].
pub struct AncestorDirV {
    pub path: Seq<char>,
    pub versions_file: Option<Seq<Seq<char>>>,
    pub version_file: Option<Seq<char>>,
    pub is_project_root: bool,
}

impl View for AncestorDir {
    type V = AncestorDirV;

    open spec fn view(&self) -> AncestorDirV {
        AncestorDirV {
            path: self.path@,
            versions_file: match &self.versions_file {
                Option::None => None,
                Option::Some(lines) => Some(lines.deep_view()),
            },
            version_file: match &self.version_file {
                Option::None => None,
                Option::Some(c) => Some(c@),
            },
            is_project_root: self.is_project_root,
        }
    }
}

impl DeepView for AncestorDir {
    type V = AncestorDirV;

    open spec fn deep_view(&self) -> AncestorDirV {
        self.view()
    }
}

/// A resolved pin: the raw pinned text, the file it came from, and the
/// directory whose walk produced it.
#[derive(Clone, Debug)]
pub struct VersionFilePin {
    pub text: String,
    pub origin: String,
    pub directory: String,
}

/// The mathematical shape of a [`VersionFilePin`].
pub struct VersionFilePinV {
    pub text: Seq<char>,
    pub origin: Seq<char>,
    pub directory: Seq<char>,
}

impl View for VersionFilePin {
    type V = VersionFilePinV;

    open spec fn view(&self) -> VersionFilePinV {
        VersionFilePinV { text: self.text@, origin: self.origin@, directory: self.directory@ }
    }
}

/// The pin one directory yields, with the path of the file it came from:
/// the first line of a non-empty `.python-versions` wins over
/// `.python-version`; empty files are absent.
pub open spec fn dir_pin(d: AncestorDirV) -> Option<(Seq<char>, Seq<char>)> {
    match d.versions_file {
        Option::Some(lines) => if lines.len() > 0 && lines[0].len() > 0 {
            Some((lines[0], d.path + "/.python-versions"@))
        } else {
            dir_pin_single(d)
        },
        Option::None => dir_pin_single(d),
    }
}

/// The pin of the single-value file alone.
pub open spec fn dir_pin_single(d: AncestorDirV) -> Option<(Seq<char>, Seq<char>)> {
    match d.version_file {
        Option::Some(c) => if c.len() > 0 {
            Some((c, d.path + "/.python-version"@))
        } else {
            None
        },
        Option::None => None,
    }
}

/// The resolved pin of a walk: the innermost directory that yields a file
/// wins; a project root ends the walk after being examined itself; with
/// configuration disabled there is no pin.
pub open spec fn spec_resolve_pin(chain: Seq<AncestorDirV>, allow_config: bool) -> Option<
    VersionFilePinV,
>
    decreases chain.len(),
{
    if !allow_config || chain.len() == 0 {
        None
    } else {
        match dir_pin(chain[0]) {
            Option::Some((text, origin)) => Some(
                VersionFilePinV { text, origin, directory: chain[0].path },
            ),
            Option::None => if chain[0].is_project_root {
                None
            } else {
                spec_resolve_pin(chain.skip(1), allow_config)
            },
        }
    }
}

/// The pin of one directory.
fn dir_pin_exec(d: &AncestorDir) -> (r: Option<VersionFilePin>)
    ensures
        (r is Some) == (dir_pin(d@) is Some),
        (r matches Some(p) ==> dir_pin(d@) matches Some((text, origin)) && p@.text == text
            && p@.origin == origin && p@.directory == d@.path),
{
    match &d.versions_file {
        Option::Some(lines) => {
            if lines.len() > 0 && lines[0].as_str().unicode_len() > 0 {
                let mut origin: String = d.path.clone();
                origin.append("/.python-versions");
                proof {
                    assert(lines.deep_view()[0] == lines@[0]@);
                }
                return Some(
                    VersionFilePin {
                        text: lines[0].clone(),
                        origin,
                        directory: d.path.clone(),
                    },
                );
            }
            dir_pin_single_exec(d)
        },
        Option::None => dir_pin_single_exec(d),
    }
}

/// The pin of the single-value file of one directory.
fn dir_pin_single_exec(d: &AncestorDir) -> (r: Option<VersionFilePin>)
    requires
        (d@.versions_file matches Some(lines) ==> !(lines.len() > 0 && lines[0].len() > 0))
            || d@.versions_file is None,
    ensures
        (r is Some) == (dir_pin_single(d@) is Some),
        (r matches Some(p) ==> dir_pin_single(d@) matches Some((text, origin)) && p@.text
            == text && p@.origin == origin && p@.directory == d@.path),
{
    match &d.version_file {
        Option::Some(c) => {
            if c.as_str().unicode_len() > 0 {
                let mut origin: String = d.path.clone();
                origin.append("/.python-version");
                Some(VersionFilePin { text: c.clone(), origin, directory: d.path.clone() })
            } else {
                None
            }
        },
        Option::None => None,
    }
}

/// Resolve the pin governing a directory, given the walk from it upward.
pub fn resolve_pin(chain: &Vec<AncestorDir>, allow_config: bool) -> (r: Option<VersionFilePin>)
    ensures
        (r is Some) == (spec_resolve_pin(chain.deep_view(), allow_config) is Some),
        (r matches Some(p) ==> spec_resolve_pin(chain.deep_view(), allow_config) matches Some(q)
            && p@ == q),
{
    if !allow_config {
        return None;
    }
    let mut i: usize = 0;
    proof {
        assert(chain.deep_view().skip(0) =~= chain.deep_view());
    }
    loop
        invariant
            allow_config,
            i <= chain@.len(),
            spec_resolve_pin(chain.deep_view(), allow_config) == spec_resolve_pin(
                chain.deep_view().skip(i as int),
                allow_config,
            ),
        decreases chain@.len() - i,
    {
        if i >= chain.len() {
            proof {
                assert(chain.deep_view().skip(i as int).len() == 0);
            }
            return None;
        }
        proof {
            assert(chain.deep_view().skip(i as int)[0] == chain.deep_view()[i as int]);
            assert(chain.deep_view()[i as int] == chain@[i as int]@);
            assert(chain.deep_view().skip(i as int).skip(1) =~= chain.deep_view().skip(
                i + 1 as int,
            ));
        }
        match dir_pin_exec(&chain[i]) {
            Option::Some(p) => {
                return Some(p);
            },
            Option::None => {
                if chain[i].is_project_root {
                    return None;
                }
            },
        }
        i = i + 1;
    }
}

// ---------------------------------------------------------------------------
// Pin precedence laws
// ---------------------------------------------------------------------------
/// A pin in the queried directory masks every pin above it: whatever the
/// ancestors hold, the innermost directory's own file wins.
pub proof fn lemma_child_pin_masks_parent(chain: Seq<AncestorDirV>, allow_config: bool)
    requires
        allow_config,
        chain.len() >= 1,
        dir_pin(chain[0]) is Some,
    ensures
        spec_resolve_pin(chain, allow_config) matches Some(p) && p.text == dir_pin(
            chain[0],
        )->Some_0.0 && p.origin == dir_pin(chain[0])->Some_0.1 && p.directory == chain[0].path,
{
}

/// Removing the queried directory's pin reveals the parent's: a directory
/// that yields no file and is no project root defers to the walk above it.
pub proof fn lemma_deleting_child_reveals_parent(chain: Seq<AncestorDirV>, allow_config: bool)
    requires
        chain.len() >= 1,
        dir_pin(chain[0]) is None,
        !chain[0].is_project_root,
    ensures
        spec_resolve_pin(chain, allow_config) == spec_resolve_pin(chain.skip(1), allow_config),
{
    if !allow_config {
    }
}

/// With configuration disabled, no pin is ever consulted.
pub proof fn lemma_no_config_ignores_pins(chain: Seq<AncestorDirV>)
    ensures
        spec_resolve_pin(chain, false) is None,
{
}

// ---------------------------------------------------------------------------
// Pin writing
// ---------------------------------------------------------------------------
/// The complaint for pinning an arbitrary executable name.
pub open spec fn msg_arbitrary_pin(name: Seq<char>) -> Seq<char> {
    "Requests for arbitrary names (e.g., `"@ + name + "`) are not supported in version files"@
}

/// Validate a request for writing into a version file: an arbitrary
/// executable name is refused, anything else is accepted.
pub fn validate_pin_request(req: &crate::request::PythonRequest) -> (r: Result<(), String>)
    ensures
        (r is Ok) == !(req@ is ExecutableName),
        (r matches Err(e) ==> req@ matches crate::request::PythonRequestV::ExecutableName(n)
            && e@ == msg_arbitrary_pin(n)),
{
    match req {
        crate::request::PythonRequest::ExecutableName(n) => {
            let mut m: String = String::from_str("Requests for arbitrary names (e.g., `");
            m.append(n.as_str());
            m.append("`) are not supported in version files");
            Result::Err(m)
        },
        _ => Result::Ok(()),
    }
}

/// The message for writing a pin: a fresh pin names the value, an update
/// names both the old and the new value.
pub open spec fn spec_pin_write_message(previous: Option<Seq<char>>, value: Seq<char>) -> Seq<
    char,
> {
    match previous {
        Option::None => "Pinned `.python-version` to `"@ + value + "`"@,
        Option::Some(old_value) => if old_value == value {
            "Pinned `.python-version` to `"@ + value + "`"@
        } else {
            "Updated `.python-version` from `"@ + old_value + "` -> `"@ + value + "`"@
        },
    }
}

/// Build the message for writing a pin.
pub fn pin_write_message(previous: Option<&String>, value: &str) -> (r: String)
    ensures
        r@ == spec_pin_write_message(
            match previous {
                Option::None => None,
                Option::Some(p) => Some(p@),
            },
            value@,
        ),
{
    match previous {
        Option::None => {
            let mut m: String = String::from_str("Pinned `.python-version` to `");
            m.append(value);
            m.append("`");
            m
        },
        Option::Some(p) => {
            if crate::strutil::str_eq(p.as_str(), value) {
                let mut m: String = String::from_str("Pinned `.python-version` to `");
                m.append(value);
                m.append("`");
                m
            } else {
                let mut m: String = String::from_str("Updated `.python-version` from `");
                m.append(p.as_str());
                m.append("` -> `");
                m.append(value);
                m.append("`");
                m
            }
        },
    }
}

} // verus!
