//! Materialization of a virtual environment as a pure transition over the
//! target directory's observed state.
//!
//! The caller inspects the target path — its symlink chain and what lies at
//! the end of it — and applies the returned outcome to disk: the resulting
//! directory entries, the configuration file, and the activation scripts.
//! The state machine: a missing target or an empty directory is a fresh
//! create; a regular file is a conflict; a non-empty directory proceeds with
//! a warning unless clearing or overwriting was asked for; clearing rebuilds
//! only the directory the chain refers to, so every symlink in the chain
//! survives untouched.

use vstd::prelude::*;
use vstd::string::StringExecFns;

use crate::discovery::{spec_impl_display, InterpreterInfo, InterpreterInfoV};
use crate::version::{render_version, spec_render_version};

verus! {

/// What lies at the end of the target path's symlink chain.
#[derive(Clone, Debug)]
pub enum TargetKind {
    Missing,
    RegularFile,
    Directory { entries: Vec<String> },
}

/// The mathematical shape of a [`TargetKind`].
pub enum TargetKindV {
    Missing,
    RegularFile,
    Directory { entries: Seq<Seq<char>> },
}

impl View for TargetKind {
    type V = TargetKindV;

    open spec fn view(&self) -> TargetKindV {
        match self {
            TargetKind::Missing => TargetKindV::Missing,
            TargetKind::RegularFile => TargetKindV::RegularFile,
            TargetKind::Directory { entries } => TargetKindV::Directory {
                entries: entries.deep_view(),
            },
        }
    }
}

/// The observed state of the target path: the symlink chain leading to it
/// (each element one link's referent, outermost first; empty when the path
/// is no symlink) and what lies at the end.
#[derive(Clone, Debug)]
pub struct TargetState {
    pub links: Vec<String>,
    pub kind: TargetKind,
}

/// The mathematical shape of a [`TargetState`].
pub struct TargetStateV {
    pub links: Seq<Seq<char>>,
    pub kind: TargetKindV,
}

impl View for TargetState {
    type V = TargetStateV;

    open spec fn view(&self) -> TargetStateV {
        TargetStateV { links: self.links.deep_view(), kind: self.kind@ }
    }
}

/// How to treat an occupied target. Seeding — pre-installing a minimal
/// bootstrap package set — is delegated to the external installer and never
/// alters the directory transition itself.
#[derive(Clone, Copy, Debug, PartialEq, Eq, Structural)]
pub struct VenvOptions {
    pub clear: bool,
    pub allow_existing: bool,
    pub relocatable: bool,
    pub seed: bool,
}

/// A failed build.
#[derive(Clone, Debug)]
pub enum BuildError {
    /// The target path is occupied by something that is not a directory.
    PathConflict { path: String },
}

/// The message of a failed build.
pub open spec fn spec_build_error_message(e: BuildError) -> Seq<char> {
    match e {
        BuildError::PathConflict { path } => "Failed to create virtual environment\n  Caused by: File exists at `"@
            + path@ + "`"@,
    }
}

impl BuildError {
    /// Build the failure's message.
    pub fn message(&self) -> (s: String)
        ensures
            s@ == spec_build_error_message(*self),
    {
        match self {
            BuildError::PathConflict { path } => {
                let mut s: String = String::from_str(
                    "Failed to create virtual environment\n  Caused by: File exists at `",
                );
                s.append(path.as_str());
                s.append("`");
                s
            },
        }
    }
}

/// The files a build writes.
#[derive(Clone, Debug)]
pub struct VenvFiles {
    pub cfg: String,
    pub activate: String,
    pub activate_bat: String,
    pub activate_fish: String,
}

/// The mathematical shape of a [`VenvFiles`].
pub struct VenvFilesV {
    pub cfg: Seq<char>,
    pub activate: Seq<char>,
    pub activate_bat: Seq<char>,
    pub activate_fish: Seq<char>,
}

impl View for VenvFiles {
    type V = VenvFilesV;

    open spec fn view(&self) -> VenvFilesV {
        VenvFilesV {
            cfg: self.cfg@,
            activate: self.activate@,
            activate_bat: self.activate_bat@,
            activate_fish: self.activate_fish@,
        }
    }
}

/// A successful build: the resulting target state, the files to write, and
/// the warnings to surface.
#[derive(Clone, Debug)]
pub struct BuildOutcome {
    pub state: TargetState,
    pub files: VenvFiles,
    pub warnings: Vec<String>,
}

/// The mathematical shape of a [`BuildOutcome`].
pub struct BuildOutcomeV {
    pub state: TargetStateV,
    pub files: VenvFilesV,
    pub warnings: Seq<Seq<char>>,
}

impl View for BuildOutcome {
    type V = BuildOutcomeV;

    open spec fn view(&self) -> BuildOutcomeV {
        BuildOutcomeV {
            state: self.state@,
            files: self.files@,
            warnings: self.warnings.deep_view(),
        }
    }
}

// ---------------------------------------------------------------------------
// File contents
// ---------------------------------------------------------------------------
/// This tool's version, as the configuration file records it.
pub open spec fn spec_tool_version() -> Seq<char> {
    "0.1.0"@
}

/// The configuration file: the interpreter installation's `home`, the
/// implementation, the creating tool's version, the interpreter version, and
/// the relocation marker when asked for.
pub open spec fn spec_cfg(info: InterpreterInfoV, relocatable: bool) -> Seq<char> {
    "home = "@ + info.home + "\nimplementation = "@ + spec_impl_display(info.implementation)
        + "\nuv = "@ + spec_tool_version() + "\nversion_info = "@ + spec_render_version(
        info.version,
    ) + "\ninclude-system-site-packages = false\n"@ + (if relocatable {
        "relocatable = true\n"@
    } else {
        Seq::<char>::empty()
    })
}

/// The `home` line of a configuration file for an interpreter.
pub open spec fn spec_cfg_home_line(info: InterpreterInfoV) -> Seq<char> {
    "home = "@ + info.home
}

/// The shell activation script: a relocatable build computes the environment
/// root from the script's own location, a plain build bakes the root in.
pub open spec fn spec_activate(root: Seq<char>, relocatable: bool) -> Seq<char> {
    "# Activate with \"source <venv>/bin/activate\"\n"@ + (if relocatable {
        "SCRIPT_PATH=\"${BASH_SOURCE[0]:-$0}\"\nVIRTUAL_ENV=''\"$(dirname -- \"$(dirname -- \"$(realpath -- \"$SCRIPT_PATH\")\")\")\"''\n"@
    } else {
        "VIRTUAL_ENV='"@ + root + "'\n"@
    }) + "export VIRTUAL_ENV\nexport PATH=\"$VIRTUAL_ENV/bin:$PATH\"\n"@
}

/// The batch activation script.
pub open spec fn spec_activate_bat(root: Seq<char>, relocatable: bool) -> Seq<char> {
    "@echo off\n"@ + (if relocatable {
        "@for %%i in (\"%~dp0..\") do @set \"VIRTUAL_ENV=%%~fi\"\n"@
    } else {
        "@set \"VIRTUAL_ENV="@ + root + "\"\n"@
    }) + "@set \"PATH=%VIRTUAL_ENV%\\Scripts;%PATH%\"\n"@
}

/// The fish activation script.
pub open spec fn spec_activate_fish(root: Seq<char>, relocatable: bool) -> Seq<char> {
    (if relocatable {
        "set -gx VIRTUAL_ENV ''\"$(dirname -- \"$(cd \"$(dirname -- \"$(status -f)\")\"; and pwd)\")\"''\n"@
    } else {
        "set -gx VIRTUAL_ENV '"@ + root + "'\n"@
    }) + "set -gx PATH \"$VIRTUAL_ENV/bin\" $PATH\n"@
}

/// Build the configuration file.
pub fn render_cfg(info: &InterpreterInfo, relocatable: bool) -> (s: String)
    ensures
        s@ == spec_cfg(info@, relocatable),
{
    let mut s: String = String::from_str("home = ");
    s.append(info.home.as_str());
    s.append("\nimplementation = ");
    let impl_text: String = crate::discovery::impl_display(info.implementation);
    s.append(impl_text.as_str());
    s.append("\nuv = ");
    s.append("0.1.0");
    s.append("\nversion_info = ");
    let version_text: String = render_version(&info.version);
    s.append(version_text.as_str());
    s.append("\ninclude-system-site-packages = false\n");
    if relocatable {
        s.append("relocatable = true\n");
    }
    proof {
        assert("0.1.0"@ =~= spec_tool_version());
        assert(s@ =~= spec_cfg(info@, relocatable));
    }
    s
}

/// Build the shell activation script.
pub fn render_activate(root: &str, relocatable: bool) -> (s: String)
    ensures
        s@ == spec_activate(root@, relocatable),
{
    let mut s: String = String::from_str("# Activate with \"source <venv>/bin/activate\"\n");
    if relocatable {
        s.append(
            "SCRIPT_PATH=\"${BASH_SOURCE[0]:-$0}\"\nVIRTUAL_ENV=''\"$(dirname -- \"$(dirname -- \"$(realpath -- \"$SCRIPT_PATH\")\")\")\"''\n",
        );
    } else {
        s.append("VIRTUAL_ENV='");
        s.append(root);
        s.append("'\n");
    }
    s.append("export VIRTUAL_ENV\nexport PATH=\"$VIRTUAL_ENV/bin:$PATH\"\n");
    proof {
        assert(s@ =~= spec_activate(root@, relocatable));
    }
    s
}

/// Build the batch activation script.
pub fn render_activate_bat(root: &str, relocatable: bool) -> (s: String)
    ensures
        s@ == spec_activate_bat(root@, relocatable),
{
    let mut s: String = String::from_str("@echo off\n");
    if relocatable {
        s.append("@for %%i in (\"%~dp0..\") do @set \"VIRTUAL_ENV=%%~fi\"\n");
    } else {
        s.append("@set \"VIRTUAL_ENV=");
        s.append(root);
        s.append("\"\n");
    }
    s.append("@set \"PATH=%VIRTUAL_ENV%\\Scripts;%PATH%\"\n");
    proof {
        assert(s@ =~= spec_activate_bat(root@, relocatable));
    }
    s
}

/// Build the fish activation script.
pub fn render_activate_fish(root: &str, relocatable: bool) -> (s: String)
    ensures
        s@ == spec_activate_fish(root@, relocatable),
{
    let mut s: String = String::new();
    if relocatable {
        s.append(
            "set -gx VIRTUAL_ENV ''\"$(dirname -- \"$(cd \"$(dirname -- \"$(status -f)\")\"; and pwd)\")\"''\n",
        );
    } else {
        s.append("set -gx VIRTUAL_ENV '");
        s.append(root);
        s.append("'\n");
    }
    s.append("set -gx PATH \"$VIRTUAL_ENV/bin\" $PATH\n");
    proof {
        assert(s@ =~= spec_activate_fish(root@, relocatable));
    }
    s
}

/// The line announcing where the environment is built.
pub open spec fn spec_creating_message(target: Seq<char>) -> Seq<char> {
    "Creating virtual environment at: "@ + target
}

/// Build the line announcing where the environment is built.
pub fn creating_message(target: &str) -> (s: String)
    ensures
        s@ == spec_creating_message(target@),
{
    let mut s: String = String::from_str("Creating virtual environment at: ");
    s.append(target);
    s
}

/// The hint naming the activation script.
pub open spec fn spec_activate_hint(target: Seq<char>) -> Seq<char> {
    "Activate with: source "@ + target + "/bin/activate"@
}

/// Build the hint naming the activation script.
pub fn activate_hint(target: &str) -> (s: String)
    ensures
        s@ == spec_activate_hint(target@),
{
    let mut s: String = String::from_str("Activate with: source ");
    s.append(target);
    s.append("/bin/activate");
    s
}

// ---------------------------------------------------------------------------
// The directory state machine
// ---------------------------------------------------------------------------
/// The entries a build itself owns inside the environment directory.
pub open spec fn owned_entries() -> Seq<Seq<char>> {
    seq!["bin"@, "pyvenv.cfg"@]
}

/// Whether a name occurs among entries.
pub open spec fn contains_name(entries: Seq<Seq<char>>, n: Seq<char>) -> bool {
    exists|i: int| 0 <= i < entries.len() && entries[i] == n
}

/// Existing entries with the owned ones added where absent.
pub open spec fn merged_entries(entries: Seq<Seq<char>>) -> Seq<Seq<char>> {
    entries + (if contains_name(entries, "bin"@) {
        Seq::<Seq<char>>::empty()
    } else {
        seq!["bin"@]
    }) + (if contains_name(entries, "pyvenv.cfg"@) {
        Seq::<Seq<char>>::empty()
    } else {
        seq!["pyvenv.cfg"@]
    })
}

/// The warning an occupied directory earns when neither clearing nor
/// overwriting was asked for: an environment is named as such, any other
/// directory plainly.
pub open spec fn spec_existing_warning(target: Seq<char>, entries: Seq<Seq<char>>) -> Seq<char> {
    if contains_name(entries, "pyvenv.cfg"@) {
        "A virtual environment already exists at `"@ + target
            + "`. In the future, uv will require `--clear` to replace it"@
    } else {
        "A directory already exists at `"@ + target
            + "`. In the future, uv will require `--clear` to replace it"@
    }
}

/// What a build does to the target, as a function of its observed state: a
/// regular file is a conflict; a missing target, an empty directory, or a
/// cleared directory is built fresh holding exactly the owned entries; an
/// occupied directory keeps its entries and gains the owned ones, with a
/// warning unless overwriting was asked for. The symlink chain is never
/// touched.
pub open spec fn spec_build(
    info: InterpreterInfoV,
    target: Seq<char>,
    state: TargetStateV,
    opts: VenvOptions,
) -> Result<BuildOutcomeV, Seq<char>> {
    let files = VenvFilesV {
        cfg: spec_cfg(info, opts.relocatable),
        activate: spec_activate(target, opts.relocatable),
        activate_bat: spec_activate_bat(target, opts.relocatable),
        activate_fish: spec_activate_fish(target, opts.relocatable),
    };
    match state.kind {
        TargetKindV::RegularFile => Err(target),
        TargetKindV::Missing => Ok(
            BuildOutcomeV {
                state: TargetStateV {
                    links: state.links,
                    kind: TargetKindV::Directory { entries: owned_entries() },
                },
                files,
                warnings: seq![],
            },
        ),
        TargetKindV::Directory { entries } => if entries.len() == 0 || opts.clear {
            Ok(
                BuildOutcomeV {
                    state: TargetStateV {
                        links: state.links,
                        kind: TargetKindV::Directory { entries: owned_entries() },
                    },
                    files,
                    warnings: seq![],
                },
            )
        } else {
            Ok(
                BuildOutcomeV {
                    state: TargetStateV {
                        links: state.links,
                        kind: TargetKindV::Directory { entries: merged_entries(entries) },
                    },
                    files,
                    warnings: if opts.allow_existing {
                        seq![]
                    } else {
                        seq![spec_existing_warning(target, entries)]
                    },
                },
            )
        },
    }
}

/// Whether a name occurs among entries.
fn contains_entry(entries: &Vec<String>, n: &str) -> (r: bool)
    ensures
        r == contains_name(entries.deep_view(), n@),
{
    let mut i: usize = 0;
    while i < entries.len()
        invariant
            i <= entries@.len(),
            forall|j: int| 0 <= j < i ==> entries.deep_view()[j] != n@,
        decreases entries@.len() - i,
    {
        if crate::strutil::str_eq(entries[i].as_str(), n) {
            proof {
                assert(entries.deep_view()[i as int] == entries@[i as int]@);
            }
            return true;
        }
        proof {
            assert(entries.deep_view()[i as int] == entries@[i as int]@);
        }
        i = i + 1;
    }
    false
}

/// Copy a list of names.
fn copy_entries(entries: &Vec<String>) -> (r: Vec<String>)
    ensures
        r.deep_view() == entries.deep_view(),
{
    let mut r: Vec<String> = Vec::new();
    let mut i: usize = 0;
    while i < entries.len()
        invariant
            i <= entries@.len(),
            r@.len() == i,
            forall|j: int| 0 <= j < i ==> (#[trigger] r@[j])@ == entries@[j]@,
        decreases entries@.len() - i,
    {
        r.push(entries[i].clone());
        i = i + 1;
    }
    proof {
        assert(r.deep_view() =~~= entries.deep_view());
    }
    r
}

/// The fresh owned entries.
fn fresh_entries() -> (r: Vec<String>)
    ensures
        r.deep_view() == owned_entries(),
{
    let mut r: Vec<String> = Vec::new();
    r.push(String::from_str("bin"));
    r.push(String::from_str("pyvenv.cfg"));
    proof {
        assert(r.deep_view() =~~= owned_entries());
    }
    r
}

/// Materialize an environment for a resolved interpreter at a target path in
/// an observed state. The outcome is exactly [`spec_build`]: in particular,
/// every link of the target's symlink chain survives, and the configuration
/// records the interpreter installation's own `home`, never the path being
/// built.
pub fn build_environment(
    info: &InterpreterInfo,
    target: &str,
    state: &TargetState,
    opts: &VenvOptions,
) -> (r: Result<BuildOutcome, BuildError>)
    ensures
        (r matches Ok(o) ==> spec_build(info@, target@, state@, *opts) matches Ok(ov) && o@
            == ov),
        (r matches Err(e) ==> (spec_build(info@, target@, state@, *opts) is Err
            && (e matches BuildError::PathConflict { path } && path@ == target@))),
        (r is Ok) == (spec_build(info@, target@, state@, *opts) is Ok),
{
    let files: VenvFiles = VenvFiles {
        cfg: render_cfg(info, opts.relocatable),
        activate: render_activate(target, opts.relocatable),
        activate_bat: render_activate_bat(target, opts.relocatable),
        activate_fish: render_activate_fish(target, opts.relocatable),
    };
    let links: Vec<String> = copy_entries(&state.links);
    match &state.kind {
        TargetKind::RegularFile => Result::Err(
            BuildError::PathConflict { path: String::from_str(target) },
        ),
        TargetKind::Missing => {
            let warnings: Vec<String> = Vec::new();
            proof {
                assert(warnings.deep_view() =~~= Seq::<Seq<char>>::empty());
            }
            Result::Ok(
                BuildOutcome {
                    state: TargetState {
                        links,
                        kind: TargetKind::Directory { entries: fresh_entries() },
                    },
                    files,
                    warnings,
                },
            )
        },
        TargetKind::Directory { entries } => {
            if entries.len() == 0 || opts.clear {
                let warnings: Vec<String> = Vec::new();
                proof {
                    assert(warnings.deep_view() =~~= Seq::<Seq<char>>::empty());
                }
                Result::Ok(
                    BuildOutcome {
                        state: TargetState {
                            links,
                            kind: TargetKind::Directory { entries: fresh_entries() },
                        },
                        files,
                        warnings,
                    },
                )
            } else {
                let mut merged: Vec<String> = copy_entries(entries);
                let has_bin: bool = contains_entry(entries, "bin");
                let is_env: bool = contains_entry(entries, "pyvenv.cfg");
                if !has_bin {
                    merged.push(String::from_str("bin"));
                }
                if !is_env {
                    merged.push(String::from_str("pyvenv.cfg"));
                }
                proof {
                    assert(merged.deep_view() =~~= merged_entries(entries.deep_view()));
                }
                let mut warnings: Vec<String> = Vec::new();
                if !opts.allow_existing {
                    let mut w: String = if is_env {
                        String::from_str("A virtual environment already exists at `")
                    } else {
                        String::from_str("A directory already exists at `")
                    };
                    w.append(target);
                    w.append("`. In the future, uv will require `--clear` to replace it");
                    warnings.push(w);
                    proof {
                        assert(warnings.deep_view() =~~= seq![
                            spec_existing_warning(target@, entries.deep_view()),
                        ]);
                    }
                } else {
                    proof {
                        assert(warnings.deep_view() =~~= Seq::<Seq<char>>::empty());
                    }
                }
                Result::Ok(
                    BuildOutcome {
                        state: TargetState {
                            links,
                            kind: TargetKind::Directory { entries: merged },
                        },
                        files,
                        warnings,
                    },
                )
            }
        },
    }
}

// ---------------------------------------------------------------------------
// Laws
// ---------------------------------------------------------------------------
/// Rebuilding is idempotent: a successful build leaves the target a
/// directory, a second build against that state with overwriting allowed
/// succeeds without warnings, and both builds write the same configuration —
/// in particular the same `home`.
pub proof fn lemma_rebuild_idempotent(
    info: InterpreterInfoV,
    target: Seq<char>,
    state: TargetStateV,
    opts: VenvOptions,
    again: VenvOptions,
)
    requires
        spec_build(info, target, state, opts) is Ok,
        again.allow_existing,
        again.relocatable == opts.relocatable,
    ensures
        ({
            let o1 = spec_build(info, target, state, opts)->Ok_0;
            let second = spec_build(info, target, o1.state, again);
            second matches Ok(o2) && o2.files.cfg == o1.files.cfg && o2.warnings
                == Seq::<Seq<char>>::empty()
        }),
{
}

/// Every symlink of the target's chain survives a build, cleared or not: the
/// chain of the resulting state is exactly the chain that was observed.
pub proof fn lemma_symlink_chain_preserved(
    info: InterpreterInfoV,
    target: Seq<char>,
    state: TargetStateV,
    opts: VenvOptions,
)
    requires
        spec_build(info, target, state, opts) is Ok,
    ensures
        spec_build(info, target, state, opts)->Ok_0.state.links == state.links,
{
}

/// An environment built while another environment is active inherits the
/// active environment's recorded `home` — what its interpreter reports —
/// never the active environment's own root.
pub proof fn lemma_nested_env_inherits_home(
    info: InterpreterInfoV,
    active_home: Seq<char>,
    target: Seq<char>,
    state: TargetStateV,
    opts: VenvOptions,
)
    requires
        info.home == active_home,
        spec_build(info, target, state, opts) is Ok,
    ensures
        spec_build(info, target, state, opts)->Ok_0.files.cfg == spec_cfg_home_line(info)
            + spec_cfg(info, opts.relocatable).skip(spec_cfg_home_line(info).len() as int),
        spec_cfg_home_line(info) == "home = "@ + active_home,
{
    assert(spec_build(info, target, state, opts)->Ok_0.files.cfg =~= spec_cfg_home_line(info)
        + spec_cfg(info, opts.relocatable).skip(spec_cfg_home_line(info).len() as int));
}

} // verus!
