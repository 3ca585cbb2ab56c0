use uv_python::constraints::{combine_requires, RequiresPython};
use uv_python::discovery::{
    find_interpreter, Candidate, DiscoveryFlags, InterpreterInfo, InterpreterPool, Probe,
    RequestOrigin,
};
use uv_python::pin::{resolve_pin, AncestorDir};
use uv_python::request::{ImplementationName, PythonRequest};
use uv_python::venv::{
    build_environment, BuildError, BuildOutcome, TargetKind, TargetState, VenvOptions,
};
use uv_python::version::VersionParts;

fn info(release: &[u64]) -> InterpreterInfo {
    InterpreterInfo {
        implementation: ImplementationName::CPython,
        version: VersionParts::from_release(release.to_vec()),
        os: "linux".to_string(),
        arch: "x86_64".to_string(),
        free_threaded: false,
        home: "/usr/lib/python3.12".to_string(),
    }
}

fn cpython(path: &str, release: &[u64]) -> Candidate {
    Candidate {
        path: path.to_string(),
        name: "python".to_string(),
        probe: Probe::Usable(info(release)),
    }
}

fn search_pool(candidates: Vec<Candidate>) -> InterpreterPool {
    InterpreterPool {
        active_env: None,
        discovered_env: None,
        script_env: None,
        managed: vec![],
        search_path: candidates,
    }
}

fn default_flags() -> DiscoveryFlags {
    DiscoveryFlags { system: false, managed: None }
}

fn plain_options() -> VenvOptions {
    VenvOptions { clear: false, allow_existing: false, relocatable: false, seed: false }
}

fn missing() -> TargetState {
    TargetState { links: vec![], kind: TargetKind::Missing }
}

fn build_at(state: &TargetState, opts: &VenvOptions) -> Result<BuildOutcome, BuildError> {
    build_environment(&info(&[3, 12, 9]), ".venv", state, opts)
}

fn cfg_home_line(outcome: &BuildOutcome) -> String {
    outcome
        .files
        .cfg
        .lines()
        .find(|line| line.starts_with("home"))
        .expect("home line not found")
        .to_string()
}

#[test]
fn create_venv() {
    // a fresh create at a missing target
    let outcome = build_at(&missing(), &plain_options()).unwrap();
    assert!(outcome.warnings.is_empty());
    assert!(matches!(outcome.state.kind, TargetKind::Directory { .. }));

    // creating again without clearing warns
    let outcome2 = build_at(&outcome.state, &plain_options()).unwrap();
    assert_eq!(
        outcome2.warnings,
        vec![
            "A virtual environment already exists at `.venv`. In the future, uv will require `--clear` to replace it".to_string()
        ]
    );

    // clearing replaces it silently
    let clear = VenvOptions { clear: true, ..plain_options() };
    let outcome3 = build_at(&outcome2.state, &clear).unwrap();
    assert!(outcome3.warnings.is_empty());
    match &outcome3.state.kind {
        TargetKind::Directory { entries } => {
            assert_eq!(entries, &vec!["bin".to_string(), "pyvenv.cfg".to_string()]);
        },
        _ => panic!("expected a directory"),
    }
}

#[test]
fn create_venv_313() {
    let outcome = build_environment(&info(&[3, 13, 0]), ".venv", &missing(), &plain_options())
        .unwrap();
    assert!(outcome.files.cfg.contains("version_info = 3.13.0"));
    assert!(matches!(outcome.state.kind, TargetKind::Directory { .. }));
}

#[test]
fn create_venv_reads_request_from_python_version_file() {
    let pool = search_pool(vec![
        cpython("/bin/python3.11", &[3, 11, 9]),
        cpython("/bin/python3.12", &[3, 12, 9]),
    ]);

    // without the file, the first on the path is used
    let (req, origin, _) =
        uv_python::discovery::choose_request(None, None).expect("supported request");
    let found = find_interpreter(&req, &origin, None, &pool, &default_flags()).unwrap();
    assert_eq!(found.path, "/bin/python3.11");

    // with a version file, its version is preferred
    let chain = vec![AncestorDir {
        path: "/work".to_string(),
        versions_file: None,
        version_file: Some("3.12".to_string()),
        is_project_root: false,
    }];
    let pin = resolve_pin(&chain, true);
    let (req, origin, _) =
        uv_python::discovery::choose_request(None, pin.as_ref()).expect("supported pin");
    let found = find_interpreter(&req, &origin, None, &pool, &default_flags()).unwrap();
    assert_eq!(found.path, "/bin/python3.12");
}

#[test]
fn create_venv_reads_request_from_python_versions_file() {
    let pool = search_pool(vec![
        cpython("/bin/python3.11", &[3, 11, 9]),
        cpython("/bin/python3.12", &[3, 12, 9]),
    ]);
    // the first listed version is preferred
    let chain = vec![AncestorDir {
        path: "/work".to_string(),
        versions_file: Some(vec!["3.12".to_string(), "3.11".to_string()]),
        version_file: None,
        is_project_root: false,
    }];
    let pin = resolve_pin(&chain, true);
    let (req, origin, _) =
        uv_python::discovery::choose_request(None, pin.as_ref()).expect("supported pin");
    let found = find_interpreter(&req, &origin, None, &pool, &default_flags()).unwrap();
    assert_eq!(found.path, "/bin/python3.12");
}

#[test]
fn create_venv_explicit_request_takes_priority_over_python_version_file() {
    let pool = search_pool(vec![
        cpython("/bin/python3.11", &[3, 11, 9]),
        cpython("/bin/python3.12", &[3, 12, 9]),
    ]);
    let chain = vec![AncestorDir {
        path: "/work".to_string(),
        versions_file: None,
        version_file: Some("3.12".to_string()),
        is_project_root: false,
    }];
    let pin = resolve_pin(&chain, true);
    let cli = PythonRequest::parse("3.11").unwrap();
    let (req, origin, _) =
        uv_python::discovery::choose_request(Some(cli), pin.as_ref()).expect("supported request");
    let found = find_interpreter(&req, &origin, None, &pool, &default_flags()).unwrap();
    assert_eq!(found.path, "/bin/python3.11");
}

#[test]
fn create_venv_respects_pyproject_requires_python() {
    let pool = search_pool(vec![
        cpython("/bin/python3.11", &[3, 11, 9]),
        cpython("/bin/python3.9", &[3, 9, 9]),
        cpython("/bin/python3.10", &[3, 10, 9]),
        cpython("/bin/python3.12", &[3, 12, 9]),
    ]);
    let find_with = |text: &str| {
        let constraint = RequiresPython::parse(text, "foo", "project").unwrap();
        find_interpreter(
            &PythonRequest::Any,
            &RequestOrigin::DefaultRequest,
            Some(&constraint),
            &pool,
            &default_flags(),
        )
        .unwrap()
    };

    // without a requirement, the first on the path
    let found = find_interpreter(
        &PythonRequest::Any,
        &RequestOrigin::DefaultRequest,
        None,
        &pool,
        &default_flags(),
    )
    .unwrap();
    assert_eq!(found.path, "/bin/python3.11");

    assert_eq!(find_with("<3.11").path, "/bin/python3.9");
    assert_eq!(find_with("==3.11.*").path, "/bin/python3.11");
    assert_eq!(find_with(">=3.11,<3.12").path, "/bin/python3.11");
    assert_eq!(find_with(">=3.11").path, "/bin/python3.11");
    assert_eq!(find_with(">3.11").path, "/bin/python3.11");
    assert_eq!(find_with(">=3.12").path, "/bin/python3.12");

    // an explicit incompatible request warns
    let constraint = RequiresPython::parse(">=3.12", "foo", "project").unwrap();
    let req = PythonRequest::parse("3.11").unwrap();
    let found = find_interpreter(
        &req,
        &RequestOrigin::UserRequest,
        Some(&constraint),
        &pool,
        &default_flags(),
    )
    .unwrap();
    assert_eq!(found.path, "/bin/python3.11");
    assert_eq!(
        found.warnings,
        vec![
            "The requested interpreter resolved to Python 3.11.9, which is incompatible with the project's Python requirement: `>=3.12` (from `project.requires-python`)".to_string()
        ]
    );
}

#[test]
fn create_venv_respects_group_requires_python() {
    let pool = search_pool(vec![
        cpython("/bin/python3.9", &[3, 9, 9]),
        cpython("/bin/python3.10", &[3, 10, 9]),
        cpython("/bin/python3.11", &[3, 11, 9]),
        cpython("/bin/python3.12", &[3, 12, 9]),
    ]);
    let find_combined = |combined: Option<&RequiresPython>| {
        find_interpreter(
            &PythonRequest::Any,
            &RequestOrigin::DefaultRequest,
            combined,
            &pool,
            &default_flags(),
        )
        .unwrap()
    };

    // the default group's requirement alone picks 3.10
    let dev = RequiresPython::parse(
        ">=3.10",
        "foo:dev",
        "tool.uv.dependency-groups.dev",
    )
    .unwrap();
    let combined = combine_requires(None, Some(&dev)).unwrap();
    assert_eq!(find_combined(combined.as_ref()).path, "/bin/python3.10");

    // the stricter of project and default group wins (the project here)
    let project = RequiresPython::parse(">=3.11", "foo", "project").unwrap();
    let combined = combine_requires(Some(&project), Some(&dev)).unwrap();
    assert_eq!(find_combined(combined.as_ref()).path, "/bin/python3.11");

    // and the group here
    let project = RequiresPython::parse(">=3.10", "foo", "project").unwrap();
    let dev = RequiresPython::parse(
        ">=3.11",
        "foo:dev",
        "tool.uv.dependency-groups.dev",
    )
    .unwrap();
    let combined = combine_requires(Some(&project), Some(&dev)).unwrap();
    assert_eq!(find_combined(combined.as_ref()).path, "/bin/python3.11");

    // an incompatible explicit request warns, naming the group
    let dev = RequiresPython::parse(
        ">=3.12",
        "foo:dev",
        "tool.uv.dependency-groups.dev",
    )
    .unwrap();
    let combined = combine_requires(None, Some(&dev)).unwrap();
    let req = PythonRequest::parse("3.11").unwrap();
    let found = find_interpreter(
        &req,
        &RequestOrigin::UserRequest,
        combined.as_ref(),
        &pool,
        &default_flags(),
    )
    .unwrap();
    assert_eq!(
        found.warnings,
        vec![
            "The requested interpreter resolved to Python 3.11.9, which is incompatible with the project's Python requirement: `>=3.12` (from `tool.uv.dependency-groups.dev.requires-python`)".to_string()
        ]
    );

    // irreconcilable scopes are a conflict naming both
    let project = RequiresPython::parse("<3.12", "foo", "project").unwrap();
    let dev = RequiresPython::parse(
        ">=3.12",
        "foo:dev",
        "tool.uv.dependency-groups.dev",
    )
    .unwrap();
    let conflict = combine_requires(Some(&project), Some(&dev)).unwrap_err();
    assert_eq!(
        conflict.message(),
        "Found conflicting Python requirements:\n- foo: <3.12\n- foo:dev: >=3.12"
    );

    // a non-default group's requirement is simply never passed in, so it
    // cannot conflict
    let combined = combine_requires(Some(&project), None).unwrap();
    assert_eq!(find_combined(combined.as_ref()).path, "/bin/python3.9");
}

#[test]
fn create_venv_unknown_python_minor() {
    let pool = search_pool(vec![cpython("/bin/python3.12", &[3, 12, 9])]);
    let req = PythonRequest::parse("3.100").unwrap();
    let err = find_interpreter(
        &req,
        &RequestOrigin::UserRequest,
        None,
        &pool,
        &default_flags(),
    )
    .unwrap_err();
    assert_eq!(
        err.message(),
        "No interpreter found for Python 3.100 in virtual environments, managed installations, or search path"
    );
}

#[test]
fn create_venv_unknown_python_patch() {
    let pool = search_pool(vec![cpython("/bin/python3.12", &[3, 12, 9])]);
    let req = PythonRequest::parse("3.12.100").unwrap();
    let err = find_interpreter(
        &req,
        &RequestOrigin::UserRequest,
        None,
        &pool,
        &default_flags(),
    )
    .unwrap_err();
    assert_eq!(
        err.message(),
        "No interpreter found for Python 3.12.100 in virtual environments, managed installations, or search path"
    );
}

#[test]
fn create_venv_python_patch() {
    let pool = search_pool(vec![cpython("/bin/python3.12", &[3, 12, 9])]);
    let req = PythonRequest::parse("3.12.9").unwrap();
    let found = find_interpreter(
        &req,
        &RequestOrigin::UserRequest,
        None,
        &pool,
        &default_flags(),
    )
    .unwrap();
    assert_eq!(found.path, "/bin/python3.12");
    assert_eq!(found.using_message(), "Using CPython 3.12.9 interpreter at: /bin/python3.12");
}

#[test]
fn create_venv_ignores_virtual_env_variable() {
    // environment creation resolves with the system flag, so an active
    // environment pointing anywhere is never consulted
    let mut pool = search_pool(vec![cpython("/bin/python3.12", &[3, 12, 9])]);
    pool.active_env = Some(uv_python::discovery::EnvDir {
        root: "does-not-exist".to_string(),
        has_cfg: false,
        interpreter: None,
    });
    let flags = DiscoveryFlags { system: true, managed: None };
    let found = find_interpreter(
        &PythonRequest::Any,
        &RequestOrigin::DefaultRequest,
        None,
        &pool,
        &flags,
    )
    .unwrap();
    assert_eq!(found.path, "/bin/python3.12");
}

#[test]
fn file_exists() {
    let state = TargetState { links: vec![], kind: TargetKind::RegularFile };
    let err = build_at(&state, &plain_options()).unwrap_err();
    assert_eq!(
        err.message(),
        "Failed to create virtual environment\n  Caused by: File exists at `.venv`"
    );
}

#[test]
fn empty_dir_exists() {
    let state = TargetState { links: vec![], kind: TargetKind::Directory { entries: vec![] } };
    let outcome = build_at(&state, &plain_options()).unwrap();
    assert!(outcome.warnings.is_empty());
    assert!(matches!(outcome.state.kind, TargetKind::Directory { .. }));
}

#[test]
fn non_empty_dir_exists() {
    let state = TargetState {
        links: vec![],
        kind: TargetKind::Directory { entries: vec!["file".to_string()] },
    };
    let outcome = build_at(&state, &plain_options()).unwrap();
    assert_eq!(
        outcome.warnings,
        vec![
            "A directory already exists at `.venv`. In the future, uv will require `--clear` to replace it".to_string()
        ]
    );
}

#[test]
fn non_empty_dir_exists_allow_existing() {
    let state = TargetState {
        links: vec![],
        kind: TargetKind::Directory { entries: vec!["file".to_string()] },
    };
    // without the flag, the build warns
    let outcome = build_at(&state, &plain_options()).unwrap();
    assert_eq!(outcome.warnings.len(), 1);

    // with it, the build proceeds silently and keeps unrelated files
    let allow = VenvOptions { allow_existing: true, ..plain_options() };
    let outcome = build_at(&state, &allow).unwrap();
    assert!(outcome.warnings.is_empty());
    match &outcome.state.kind {
        TargetKind::Directory { entries } => {
            assert!(entries.contains(&"file".to_string()));
            assert!(entries.contains(&"bin".to_string()));
            assert!(entries.contains(&"pyvenv.cfg".to_string()));
        },
        _ => panic!("expected a directory"),
    }

    // running again still succeeds silently
    let outcome = build_at(&outcome.state, &allow).unwrap();
    assert!(outcome.warnings.is_empty());
}

#[test]
fn create_venv_then_allow_existing() {
    let first = build_at(&missing(), &plain_options()).unwrap();
    let allow = VenvOptions { allow_existing: true, ..plain_options() };
    let second = build_at(&first.state, &allow).unwrap();
    assert!(second.warnings.is_empty());
    // idempotence: the configuration, and so its `home`, is unchanged
    assert_eq!(first.files.cfg, second.files.cfg);
    assert_eq!(cfg_home_line(&first), cfg_home_line(&second));
}

#[test]
fn verify_pyvenv_cfg() {
    let outcome = build_at(&missing(), &plain_options()).unwrap();
    assert!(outcome.files.cfg.contains("uv = 0.1.0"));
    assert!(outcome.files.cfg.contains("home = /usr/lib/python3.12"));
    assert!(!outcome.files.cfg.contains("relocatable"));
}

#[test]
fn verify_pyvenv_cfg_relocatable() {
    let opts = VenvOptions { relocatable: true, clear: true, ..plain_options() };
    let outcome = build_at(&missing(), &opts).unwrap();
    assert!(outcome.files.cfg.contains("relocatable = true"));
    assert!(outcome.files.activate.contains(
        r#"VIRTUAL_ENV=''"$(dirname -- "$(dirname -- "$(realpath -- "$SCRIPT_PATH")")")"''"#
    ));
    assert!(outcome.files.activate_bat.contains(
        r#"@for %%i in ("%~dp0..") do @set "VIRTUAL_ENV=%%~fi""#
    ));
    assert!(outcome.files.activate_fish.contains(
        r#"set -gx VIRTUAL_ENV ''"$(dirname -- "$(cd "$(dirname -- "$(status -f)")"; and pwd)")"''"#
    ));

    // a plain build bakes the absolute root in instead
    let outcome = build_at(&missing(), &plain_options()).unwrap();
    assert!(outcome.files.activate.contains("VIRTUAL_ENV='.venv'"));
}

#[test]
fn verify_nested_pyvenv_cfg() {
    // the first environment is built from the base interpreter
    let parent = build_at(&missing(), &plain_options()).unwrap();
    let parent_home = cfg_home_line(&parent);

    // building from within it, the interpreter reports the parent's recorded
    // home, not the parent's own root
    let nested_info = InterpreterInfo {
        home: "/usr/lib/python3.12".to_string(),
        ..info(&[3, 12, 9])
    };
    let sub = build_environment(&nested_info, ".subvenv", &missing(), &plain_options()).unwrap();
    let sub_home = cfg_home_line(&sub);
    assert_eq!(sub_home, parent_home);
    assert_eq!(sub_home, "home = /usr/lib/python3.12");
}

#[test]
fn venv_python_preference() {
    let mut pool = search_pool(vec![cpython("/bin/python3.11", &[3, 11, 9])]);
    pool.managed = vec![cpython("/managed/3.12/python", &[3, 12, 9])];

    // managed installations come before the search path
    let found = find_interpreter(
        &PythonRequest::Any,
        &RequestOrigin::DefaultRequest,
        None,
        &pool,
        &default_flags(),
    )
    .unwrap();
    assert_eq!(found.path, "/managed/3.12/python");

    // unless managed installations are disabled
    let flags = DiscoveryFlags { system: false, managed: Some(false) };
    let found = find_interpreter(
        &PythonRequest::Any,
        &RequestOrigin::DefaultRequest,
        None,
        &pool,
        &flags,
    )
    .unwrap();
    assert_eq!(found.path, "/bin/python3.11");

    // or required
    let flags = DiscoveryFlags { system: false, managed: Some(true) };
    let found = find_interpreter(
        &PythonRequest::Any,
        &RequestOrigin::DefaultRequest,
        None,
        &pool,
        &flags,
    )
    .unwrap();
    assert_eq!(found.path, "/managed/3.12/python");
}

#[test]
fn create_venv_symlink_clear_preservation() {
    // the target path is a symlink to a real directory
    let state = TargetState {
        links: vec!["target".to_string()],
        kind: TargetKind::Missing,
    };
    let outcome = build_at(&state, &plain_options()).unwrap();
    assert_eq!(outcome.state.links, vec!["target".to_string()]);

    // clearing rebuilds the referent, never the link
    let clear = VenvOptions { clear: true, ..plain_options() };
    let outcome = build_at(&outcome.state, &clear).unwrap();
    assert_eq!(outcome.state.links, vec!["target".to_string()]);
}

#[test]
fn create_venv_symlink_recreate_preservation() {
    let state = TargetState {
        links: vec!["target".to_string()],
        kind: TargetKind::Missing,
    };
    let outcome = build_at(&state, &plain_options()).unwrap();
    assert_eq!(outcome.state.links, vec!["target".to_string()]);

    // recreating without clearing warns, but the link survives
    let outcome = build_at(&outcome.state, &plain_options()).unwrap();
    assert_eq!(outcome.warnings.len(), 1);
    assert_eq!(outcome.state.links, vec!["target".to_string()]);
}

#[test]
fn create_venv_nested_symlink_preservation() {
    // a two-level chain: the path links to an intermediate link, which links
    // to the real directory
    let state = TargetState {
        links: vec!["intermediate".to_string(), "target".to_string()],
        kind: TargetKind::Missing,
    };
    let outcome = build_at(&state, &plain_options()).unwrap();
    assert_eq!(
        outcome.state.links,
        vec!["intermediate".to_string(), "target".to_string()]
    );

    let outcome = build_at(&outcome.state, &plain_options()).unwrap();
    assert_eq!(
        outcome.state.links,
        vec!["intermediate".to_string(), "target".to_string()]
    );
}
