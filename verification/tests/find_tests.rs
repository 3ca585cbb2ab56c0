use uv_python::constraints::RequiresPython;
use uv_python::discovery::{
    choose_request, find_at_path, find_interpreter, Candidate, DiscoveryFlags, EnvDir,
    InterpreterInfo, InterpreterPool, InterpreterSource, Probe, ProvidedTarget, RequestOrigin,
    Resolution, SelectionError,
};
use uv_python::pin::{resolve_pin, validate_pin_request, AncestorDir};
use uv_python::request::{ImplementationName, PythonRequest};
use uv_python::version::VersionParts;

fn info(release: &[u64]) -> InterpreterInfo {
    InterpreterInfo {
        implementation: ImplementationName::CPython,
        version: VersionParts::from_release(release.to_vec()),
        os: "linux".to_string(),
        arch: "x86_64".to_string(),
        free_threaded: false,
        home: "/usr/lib".to_string(),
    }
}

fn cpython(path: &str, release: &[u64]) -> Candidate {
    Candidate {
        path: path.to_string(),
        name: "python".to_string(),
        probe: Probe::Usable(info(release)),
    }
}

fn search_pool(candidates: Vec<Candidate>) -> InterpreterPool {
    InterpreterPool {
        active_env: None,
        discovered_env: None,
        script_env: None,
        managed: vec![],
        search_path: candidates,
    }
}

fn default_flags() -> DiscoveryFlags {
    DiscoveryFlags { system: false, managed: None }
}

fn two_on_path() -> InterpreterPool {
    search_pool(vec![
        cpython("/bin/python3.11", &[3, 11, 9]),
        cpython("/bin/python3.12", &[3, 12, 9]),
    ])
}

fn find(request: &str, pool: &InterpreterPool) -> Result<Resolution, SelectionError> {
    let req = PythonRequest::parse(request).expect("supported request");
    let origin = if request.is_empty() {
        RequestOrigin::DefaultRequest
    } else {
        RequestOrigin::UserRequest
    };
    find_interpreter(&req, &origin, None, pool, &default_flags())
}

fn selected_path(r: Result<Resolution, SelectionError>) -> String {
    r.expect("an interpreter").path
}

#[test]
fn python_find() {
    // no interpreters at all
    let err = find("", &search_pool(vec![])).unwrap_err();
    assert_eq!(
        err.message(),
        "No interpreter found in virtual environments, managed installations, or search path"
    );

    let pool = two_on_path();
    // the first interpreter on the path wins
    assert_eq!(selected_path(find("", &pool)), "/bin/python3.11");
    assert_eq!(selected_path(find("3.12", &pool)), "/bin/python3.12");
    assert_eq!(selected_path(find("3.11", &pool)), "/bin/python3.11");
    assert_eq!(selected_path(find("cpython", &pool)), "/bin/python3.11");
    assert_eq!(selected_path(find("cpython@3.12", &pool)), "/bin/python3.12");
    assert_eq!(selected_path(find("cpython-3.12", &pool)), "/bin/python3.12");
    assert_eq!(selected_path(find("any-3.12-any", &pool)), "/bin/python3.12");
    // a full key with the current platform
    assert_eq!(
        selected_path(find("cpython-3.12-linux-x86_64", &pool)),
        "/bin/python3.12"
    );
    // PyPy is missing
    let err = find("pypy", &pool).unwrap_err();
    assert_eq!(
        err.message(),
        "No interpreter found for PyPy in virtual environments, managed installations, or search path"
    );

    // swapping the order swaps the default winner, not the requested one
    let reversed = search_pool(vec![
        cpython("/bin/python3.12", &[3, 12, 9]),
        cpython("/bin/python3.11", &[3, 11, 9]),
    ]);
    assert_eq!(selected_path(find("", &reversed)), "/bin/python3.12");
    assert_eq!(selected_path(find("3.11", &reversed)), "/bin/python3.11");
}

fn dir(path: &str, version_file: Option<&str>) -> AncestorDir {
    AncestorDir {
        path: path.to_string(),
        versions_file: None,
        version_file: version_file.map(|s| s.to_string()),
        is_project_root: false,
    }
}

fn find_with_pin(
    chain: &Vec<AncestorDir>,
    allow_config: bool,
    pool: &InterpreterPool,
) -> (Result<Resolution, SelectionError>, Vec<String>) {
    let pin = resolve_pin(chain, allow_config);
    let (req, origin, warnings) = choose_request(None, pin.as_ref()).expect("supported pin");
    (
        find_interpreter(&req, &origin, None, pool, &default_flags()),
        warnings,
    )
}

#[test]
fn python_find_pin() {
    let pool = two_on_path();

    // pin the parent directory to 3.12
    let chain = vec![dir("/work", Some("3.12"))];
    let (found, warnings) = find_with_pin(&chain, true, &pool);
    assert!(warnings.is_empty());
    assert_eq!(selected_path(found), "/bin/python3.12");

    // an explicit request overrides the pin
    let pin = resolve_pin(&chain, true);
    let cli = PythonRequest::parse("3.11").unwrap();
    let (req, origin, _) = choose_request(Some(cli), pin.as_ref()).unwrap();
    let found = find_interpreter(&req, &origin, None, &pool, &default_flags());
    assert_eq!(selected_path(found), "/bin/python3.11");

    // so does disabling configuration
    let (found, _) = find_with_pin(&chain, false, &pool);
    assert_eq!(selected_path(found), "/bin/python3.11");

    // a child directory inherits the parent's pin
    let child_chain = vec![dir("/work/child", None), dir("/work", Some("3.12"))];
    let (found, _) = find_with_pin(&child_chain, true, &pool);
    assert_eq!(selected_path(found), "/bin/python3.12");

    // unless the child has a pin of its own
    let child_chain = vec![
        dir("/work/child", Some("3.11")),
        dir("/work", Some("3.12")),
    ];
    let (found, _) = find_with_pin(&child_chain, true, &pool);
    assert_eq!(selected_path(found), "/bin/python3.11");
}

#[test]
fn python_find_pin_arbitrary_name() {
    let pool = two_on_path();

    // an arbitrary name cannot be pinned through the tool
    let req = PythonRequest::parse("foo").unwrap();
    let err = validate_pin_request(&req).unwrap_err();
    assert_eq!(
        err,
        "Requests for arbitrary names (e.g., `foo`) are not supported in version files"
    );

    // a hand-written arbitrary pin is ignored with a warning
    let chain = vec![dir("/work", Some("foo"))];
    let (found, warnings) = find_with_pin(&chain, true, &pool);
    assert_eq!(selected_path(found), "/bin/python3.11");
    assert_eq!(
        warnings,
        vec![
            "Ignoring unsupported Python request `foo` in version file: /work/.python-version"
                .to_string()
        ]
    );

    // the pin is still updatable in place; an unusable previous value is
    // simply overwritten
    let message = uv_python::pin::pin_write_message(None, "3.11");
    assert_eq!(message, "Pinned `.python-version` to `3.11`");
    let message = uv_python::pin::pin_write_message(Some(&"3.11".to_string()), "3.12");
    assert_eq!(message, "Updated `.python-version` from `3.11` -> `3.12`");

    // an arbitrary pin in a subdirectory masks the parent's usable pin:
    // the walk stops at the first directory that yields a file
    let chain = vec![
        dir("/work/foo", Some("foo")),
        dir("/work", Some("3.12")),
    ];
    let (found, warnings) = find_with_pin(&chain, true, &pool);
    assert_eq!(selected_path(found), "/bin/python3.11");
    assert_eq!(
        warnings,
        vec![
            "Ignoring unsupported Python request `foo` in version file: /work/foo/.python-version"
                .to_string()
        ]
    );
}

#[test]
fn python_find_pin_versions_file_first_line_wins() {
    let pool = two_on_path();
    let chain = vec![AncestorDir {
        path: "/work".to_string(),
        versions_file: Some(vec!["3.12".to_string(), "3.11".to_string()]),
        version_file: Some("3.11".to_string()),
        is_project_root: false,
    }];
    let (found, _) = find_with_pin(&chain, true, &pool);
    assert_eq!(selected_path(found), "/bin/python3.12");
}

#[test]
fn python_find_project() {
    let pool = search_pool(vec![
        cpython("/bin/python3.10", &[3, 10, 9]),
        cpython("/bin/python3.11", &[3, 11, 9]),
        cpython("/bin/python3.12", &[3, 12, 9]),
    ]);
    let constraint = RequiresPython::parse(">=3.11", "project", "project").unwrap();

    // the project's requirement filters the default choice
    let req = PythonRequest::Any;
    let found = find_interpreter(
        &req,
        &RequestOrigin::DefaultRequest,
        Some(&constraint),
        &pool,
        &default_flags(),
    )
    .unwrap();
    assert_eq!(found.path, "/bin/python3.11");
    assert!(found.warnings.is_empty());

    // an explicit request wins, with a warning
    let req = PythonRequest::parse("3.10").unwrap();
    let found = find_interpreter(
        &req,
        &RequestOrigin::UserRequest,
        Some(&constraint),
        &pool,
        &default_flags(),
    )
    .unwrap();
    assert_eq!(found.path, "/bin/python3.10");
    assert_eq!(
        found.warnings,
        vec![
            "The requested interpreter resolved to Python 3.10.9, which is incompatible with the project's Python requirement: `>=3.11` (from `project.requires-python`)".to_string()
        ]
    );

    // without the project, the first on the path wins
    let found = find_interpreter(
        &PythonRequest::Any,
        &RequestOrigin::DefaultRequest,
        None,
        &pool,
        &default_flags(),
    )
    .unwrap();
    assert_eq!(found.path, "/bin/python3.10");

    // a pinned incompatible version wins with a warning naming the file
    let req = PythonRequest::parse("3.10").unwrap();
    let found = find_interpreter(
        &req,
        &RequestOrigin::PinFile(".python-version".to_string()),
        Some(&constraint),
        &pool,
        &default_flags(),
    )
    .unwrap();
    assert_eq!(found.path, "/bin/python3.10");
    assert_eq!(
        found.warnings,
        vec![
            "The Python request from `.python-version` resolved to Python 3.10.9, which is incompatible with the project's Python requirement: `>=3.11` (from `project.requires-python`)\nUse `uv python pin` to update the `.python-version` file to a compatible version".to_string()
        ]
    );

    // a pin above a nested project root is never consulted
    let chain = vec![
        AncestorDir {
            path: "/work/child".to_string(),
            versions_file: None,
            version_file: None,
            is_project_root: true,
        },
        dir("/work", Some("3.10")),
    ];
    assert!(resolve_pin(&chain, true).is_none());
}

#[test]
fn python_find_venv() {
    let venv_python = Candidate {
        path: "/work/.venv/bin/python".to_string(),
        name: "python".to_string(),
        probe: Probe::Usable(info(&[3, 12, 9])),
    };
    let active = EnvDir {
        root: "/work/.venv".to_string(),
        has_cfg: true,
        interpreter: Some(venv_python.clone()),
    };
    let mut pool = search_pool(vec![cpython("/bin/python3.11", &[3, 11, 9])]);
    pool.active_env = Some(active);

    // the active environment wins over the search path
    let found = find("", &pool);
    assert_eq!(selected_path(found), "/work/.venv/bin/python");

    // unless the system flag is passed
    let req = PythonRequest::Any;
    let flags = DiscoveryFlags { system: true, managed: None };
    let found = find_interpreter(&req, &RequestOrigin::DefaultRequest, None, &pool, &flags)
        .unwrap();
    assert_eq!(found.path, "/bin/python3.11");

    // a discovered environment in a child directory also precedes the path
    let mut pool = search_pool(vec![cpython("/bin/python3.11", &[3, 11, 9])]);
    pool.discovered_env = Some(EnvDir {
        root: "/work/child/.venv".to_string(),
        has_cfg: true,
        interpreter: Some(Candidate {
            path: "/work/child/.venv/bin/python".to_string(),
            name: "python".to_string(),
            probe: Probe::Usable(info(&[3, 11, 9])),
        }),
    });
    let found = find("", &pool);
    assert_eq!(selected_path(found), "/work/child/.venv/bin/python");

    // an environment requested by path resolves directly
    let found = find_at_path(
        "child/.venv",
        &ProvidedTarget::Dir(Some(Candidate {
            path: "/work/child/.venv/bin/python".to_string(),
            name: "python".to_string(),
            probe: Probe::Usable(info(&[3, 11, 9])),
        })),
    )
    .unwrap();
    assert_eq!(found.path, "/work/child/.venv/bin/python");
    assert!(matches!(found.source, InterpreterSource::ProvidedPath));
}

#[test]
fn python_find_venv_invalid() {
    // missing binaries in the activated environment are fatal
    let mut pool = search_pool(vec![cpython("/bin/python3.12", &[3, 12, 9])]);
    pool.active_env = Some(EnvDir {
        root: ".venv".to_string(),
        has_cfg: true,
        interpreter: None,
    });
    let err = find("", &pool).unwrap_err();
    assert_eq!(
        err.message(),
        "Failed to inspect Python interpreter from active virtual environment at `.venv/bin/python`\n  Caused by: Python interpreter not found at `.venv/bin/python`"
    );

    // unless the environment is not active
    let pool = search_pool(vec![cpython("/bin/python3.12", &[3, 12, 9])]);
    let found = find("", &pool);
    assert_eq!(selected_path(found), "/bin/python3.12");

    // a directory without the marker file is silently ignored
    let mut pool = search_pool(vec![cpython("/bin/python3.12", &[3, 12, 9])]);
    pool.active_env = Some(EnvDir {
        root: ".venv".to_string(),
        has_cfg: false,
        interpreter: None,
    });
    let found = find("", &pool);
    assert_eq!(selected_path(found), "/bin/python3.12");
}

#[test]
fn python_find_unsupported_version() {
    let pool = search_pool(vec![cpython("/bin/python3.12", &[3, 12, 9])]);

    let err = PythonRequest::parse("3.6").unwrap_err();
    assert_eq!(
        err,
        "Invalid version request: Python <3.7 is not supported but 3.6 was requested."
    );
    let err = PythonRequest::parse("3.6.9").unwrap_err();
    assert_eq!(
        err,
        "Invalid version request: Python <3.7 is not supported but 3.6.9 was requested."
    );
    let err = PythonRequest::parse("2.6").unwrap_err();
    assert_eq!(
        err,
        "Invalid version request: Python <3.7 is not supported but 2.6 was requested."
    );
    let err = PythonRequest::parse("2.6.8").unwrap_err();
    assert_eq!(
        err,
        "Invalid version request: Python <3.7 is not supported but 2.6.8 was requested."
    );

    // a future version is a plain not-found, not an invalid request
    let err = find("4.2", &pool).unwrap_err();
    assert_eq!(
        err.message(),
        "No interpreter found for Python 4.2 in virtual environments, managed installations, or search path"
    );

    // a low range is a plain not-found too
    let err = find("<3.0", &pool).unwrap_err();
    assert_eq!(
        err.message(),
        "No interpreter found for Python <3.0 in virtual environments, managed installations, or search path"
    );

    let err = PythonRequest::parse("3.12t").unwrap_err();
    assert_eq!(
        err,
        "Invalid version request: Python <3.13 does not support free-threading but 3.12t was requested."
    );
}

#[test]
fn python_find_managed() {
    let mut pool = two_on_path();
    pool.managed = vec![cpython("/managed/3.12/python", &[3, 12, 9])];

    // only managed installations
    let flags = DiscoveryFlags { system: false, managed: Some(true) };
    let req = PythonRequest::Any;
    let found = find_interpreter(&req, &RequestOrigin::DefaultRequest, None, &pool, &flags)
        .unwrap();
    assert_eq!(found.path, "/managed/3.12/python");

    let req = PythonRequest::parse("3.11").unwrap();
    let err = find_interpreter(&req, &RequestOrigin::UserRequest, None, &pool, &flags)
        .unwrap_err();
    assert_eq!(
        err.message(),
        "No interpreter found for Python 3.11 in virtual environments or managed installations"
    );

    // never managed installations
    let mut pool = two_on_path();
    pool.managed = vec![cpython("/managed/3.11/python", &[3, 11, 9])];
    pool.search_path = vec![cpython("/bin/python3.12", &[3, 12, 9])];
    let flags = DiscoveryFlags { system: false, managed: Some(false) };
    let found = find_interpreter(
        &PythonRequest::Any,
        &RequestOrigin::DefaultRequest,
        None,
        &pool,
        &flags,
    )
    .unwrap();
    assert_eq!(found.path, "/bin/python3.12");

    let req = PythonRequest::parse("3.11").unwrap();
    let err = find_interpreter(&req, &RequestOrigin::UserRequest, None, &pool, &flags)
        .unwrap_err();
    assert_eq!(
        err.message(),
        "No interpreter found for Python 3.11 in virtual environments or search path"
    );
}

#[test]
fn python_required_python_major_minor() {
    let pool = search_pool(vec![Candidate {
        path: "/work/child/python3.11".to_string(),
        name: "python3.11".to_string(),
        probe: Probe::Usable(info(&[3, 11, 9])),
    }]);

    let found = find(">=3.11.4, <3.12", &pool);
    assert_eq!(selected_path(found), "/work/child/python3.11");

    let found = find(">3.11.4, <3.12", &pool);
    assert_eq!(selected_path(found), "/work/child/python3.11");

    let err = find(">3.11.255, <3.12", &pool).unwrap_err();
    assert_eq!(
        err.message(),
        "No interpreter found for Python >3.11.255, <3.12 in virtual environments, managed installations, or search path"
    );
}

#[test]
fn python_find_script() {
    let script_env = EnvDir {
        root: "/cache/environments-v2/foo-5a2b9c".to_string(),
        has_cfg: true,
        interpreter: Some(Candidate {
            path: "/cache/environments-v2/foo-5a2b9c/bin/python".to_string(),
            name: "python".to_string(),
            probe: Probe::Usable(info(&[3, 13, 0])),
        }),
    };
    let mut pool = search_pool(vec![cpython("/bin/python3.13", &[3, 13, 0])]);
    pool.script_env = Some(script_env);

    // a previously materialized script environment wins
    let found = find("", &pool).unwrap();
    assert_eq!(found.path, "/cache/environments-v2/foo-5a2b9c/bin/python");
    assert!(matches!(found.source, InterpreterSource::ScriptEnvironment));
}

#[test]
fn python_find_script_no_environment() {
    // with no materialized script environment, discovery falls through
    let pool = search_pool(vec![cpython("/work/.venv/bin/python", &[3, 13, 0])]);
    let found = find("", &pool);
    assert_eq!(selected_path(found), "/work/.venv/bin/python");
}

#[test]
fn python_find_script_no_such_version() {
    // the script's own requirement constrains discovery
    let pool = search_pool(vec![cpython("/bin/python3.13", &[3, 13, 0])]);
    let constraint = RequiresPython::parse(">=3.14", "script", "script").unwrap();
    let err = find_interpreter(
        &PythonRequest::Any,
        &RequestOrigin::DefaultRequest,
        Some(&constraint),
        &pool,
        &default_flags(),
    )
    .unwrap_err();
    assert_eq!(
        err.message(),
        "No interpreter found in virtual environments, managed installations, or search path"
    );
}

#[test]
fn python_find_show_version() {
    let pool = two_on_path();
    let found = find("", &pool).unwrap();
    assert_eq!(
        uv_python::version::render_version(&found.info.version),
        "3.11.9"
    );
    let found = find("3.12", &pool).unwrap();
    assert_eq!(
        uv_python::version::render_version(&found.info.version),
        "3.12.9"
    );
}

#[test]
fn python_find_path() {
    // an empty directory holds no interpreter
    let err = find_at_path("foo", &ProvidedTarget::Dir(None)).unwrap_err();
    assert_eq!(err.message(), "No interpreter found in directory `foo`");

    // a file that cannot be queried is a fatal inspection failure
    let err = find_at_path(
        "bar",
        &ProvidedTarget::FileAt(Candidate {
            path: "/work/bar".to_string(),
            name: "bar".to_string(),
            probe: Probe::PermissionDenied("Permission denied (os error 13)".to_string()),
        }),
    )
    .unwrap_err();
    assert_eq!(
        err.message(),
        "Failed to inspect Python interpreter from provided path at `bar`\n  Caused by: Failed to query Python interpreter at `/work/bar`\n  Caused by: Permission denied (os error 13)"
    );

    // nothing at all at the path
    let err = find_at_path("foobar", &ProvidedTarget::Missing).unwrap_err();
    assert_eq!(err.message(), "No interpreter found at path `foobar`");
}

#[test]
fn request_round_trip() {
    // rendering a parsed version request gives back the normalized text
    let req = PythonRequest::parse("3.12").unwrap();
    assert_eq!(uv_python::discovery::render_request(&req), "Python 3.12");
    let req = PythonRequest::parse("3.12.4").unwrap();
    assert_eq!(uv_python::discovery::render_request(&req), "Python 3.12.4");
    let req = PythonRequest::parse("3.13t").unwrap();
    assert_eq!(uv_python::discovery::render_request(&req), "Python 3.13t");
    // leading zeros normalize away
    let req = PythonRequest::parse("03.012").unwrap();
    assert_eq!(uv_python::discovery::render_request(&req), "Python 3.12");
}

#[test]
fn request_component_bounds() {
    // the largest component the marker range admits still parses as a version
    let req = PythonRequest::parse("3.255").unwrap();
    assert!(matches!(req, PythonRequest::Version(_)));
    // one past it is no version shape at all, so it falls back to a name
    let req = PythonRequest::parse("3.256").unwrap();
    assert!(matches!(req, PythonRequest::ExecutableName(_)));
}

#[test]
fn empty_pin_file_is_absent() {
    // an empty version file is equivalent to no file: the walk continues
    let chain = vec![
        dir("/work/child", Some("")),
        dir("/work", Some("3.12")),
    ];
    let pin = resolve_pin(&chain, true).expect("the parent pin");
    assert_eq!(pin.text, "3.12");
    assert_eq!(pin.origin, "/work/.python-version");
}

#[test]
fn failing_probe_skips_candidate() {
    // a candidate whose probe failed is skipped, never fatal, on the path
    let pool = search_pool(vec![
        Candidate {
            path: "/bin/broken".to_string(),
            name: "python".to_string(),
            probe: Probe::QueryError("boom".to_string()),
        },
        cpython("/bin/python3.12", &[3, 12, 9]),
    ]);
    assert_eq!(selected_path(find("", &pool)), "/bin/python3.12");
}

#[test]
fn free_threaded_request_needs_free_threading() {
    let mut with_ft = info(&[3, 13, 0]);
    with_ft.free_threaded = true;
    let pool = search_pool(vec![
        cpython("/bin/python3.13", &[3, 13, 0]),
        Candidate {
            path: "/bin/python3.13t".to_string(),
            name: "python".to_string(),
            probe: Probe::Usable(with_ft),
        },
    ]);
    assert_eq!(selected_path(find("3.13t", &pool)), "/bin/python3.13t");
    assert_eq!(selected_path(find("3.13", &pool)), "/bin/python3.13");
}
