use uv_python::python_version::{MarkerEnv, PythonVersion, StringVer};
use uv_python::version::{render_version, version_parts_lt, PreKind, Prerelease, VersionParts};

fn release(parts: &[u64]) -> VersionParts {
    VersionParts::from_release(parts.to_vec())
}

#[test]
fn python_markers() {
    let version = PythonVersion::from_str("3.11.0").expect("valid python version");
    assert_eq!(version.python_version().release, vec![3, 11]);
    assert_eq!(render_version(&version.python_version()), "3.11");
    assert_eq!(version.python_full_version().release, vec![3, 11, 0]);
    assert_eq!(version.python_full_version().pre, None);
    assert_eq!(render_version(&version.python_full_version()), "3.11.0");

    let version = PythonVersion::from_str("3.11").expect("valid python version");
    assert_eq!(version.python_version().release, vec![3, 11]);
    assert_eq!(render_version(&version.python_version()), "3.11");
    assert_eq!(version.python_full_version().release, vec![3, 11, 0]);
    assert_eq!(render_version(&version.python_full_version()), "3.11.0");

    let version = PythonVersion::from_str("3.11.8a1").expect("valid python version");
    assert_eq!(version.python_version().release, vec![3, 11]);
    assert_eq!(render_version(&version.python_version()), "3.11");
    assert_eq!(version.python_full_version().release, vec![3, 11, 8]);
    assert_eq!(
        version.python_full_version().pre,
        Some(Prerelease { kind: PreKind::Alpha, number: 1 })
    );
    assert_eq!(render_version(&version.python_full_version()), "3.11.8a1");
}

#[test]
fn python_version_accessors() {
    let version = PythonVersion::from_str("3.12.4").expect("valid python version");
    assert_eq!(version.major(), 3);
    assert_eq!(version.minor(), 12);
    assert_eq!(version.patch(), Some(4));
    assert_eq!(version.text().as_str(), "3.12.4");
    assert_eq!(version.version().release, vec![3, 12, 4]);

    let short = version.without_patch();
    assert_eq!(short.text().as_str(), "3.12");
    assert_eq!(short.patch(), None);
    assert_eq!(short.major(), 3);
    assert_eq!(short.minor(), 12);

    let version = PythonVersion::from_str("3.12.4").expect("valid python version");
    assert_eq!(version.into_version().release, vec![3, 12, 4]);
}

#[test]
fn python_version_rejects_dev() {
    let err = PythonVersion::from_str("3.11.dev0").unwrap_err();
    assert_eq!(err, "Python version `3.11.dev0` is a development release");
}

#[test]
fn python_version_rejects_local() {
    let err = PythonVersion::from_str("3.11+abc").unwrap_err();
    assert_eq!(err, "Python version `3.11+abc` is a local version");
}

#[test]
fn python_version_rejects_epoch() {
    let err = PythonVersion::from_str("1!3.11").unwrap_err();
    assert_eq!(err, "Python version `1!3.11` has a non-zero epoch");
}

#[test]
fn python_version_rejects_wide_components() {
    let err = PythonVersion::from_str("300.1").unwrap_err();
    assert_eq!(err, "Python version `300.1` has an invalid major version (300)");
    let err = PythonVersion::from_str("3.999").unwrap_err();
    assert_eq!(err, "Python version `3.999` has an invalid minor version (999)");
    let err = PythonVersion::from_str("3.11.256").unwrap_err();
    assert_eq!(err, "Python version `3.11.256` has an invalid patch version (256)");
}

#[test]
fn python_version_rejects_garbage() {
    let err = PythonVersion::from_str("not a version").unwrap_err();
    assert!(err.starts_with("Python version `not a version` could not be parsed: "));
}

#[test]
fn version_ordering() {
    // zero padding: 3.11 == 3.11.0 < 3.11.1
    assert!(!version_parts_lt(&release(&[3, 11]), &release(&[3, 11, 0])));
    assert!(!version_parts_lt(&release(&[3, 11, 0]), &release(&[3, 11])));
    assert!(version_parts_lt(&release(&[3, 11]), &release(&[3, 11, 1])));
    assert!(version_parts_lt(&release(&[3, 9]), &release(&[3, 11])));
    // a pre-release sorts below its final release
    let rc = PythonVersion::from_str("3.13.0rc1")
        .expect("valid python version")
        .into_version();
    assert!(version_parts_lt(&rc, &release(&[3, 13, 0])));
    // a post-release sorts above
    let post = PythonVersion::from_str("3.13.0.post1")
        .expect("valid python version")
        .into_version();
    assert!(version_parts_lt(&release(&[3, 13, 0]), &post));
}

#[test]
fn markers_override_base_environment() {
    let base = MarkerEnv {
        implementation_name: "cpython".to_string(),
        implementation_version: StringVer { text: "3.7.0".to_string(), parts: release(&[3, 7, 0]) },
        python_full_version: StringVer { text: "3.7.0".to_string(), parts: release(&[3, 7, 0]) },
        python_version: StringVer { text: "3.7".to_string(), parts: release(&[3, 7]) },
        os_name: "posix".to_string(),
        platform_machine: "x86_64".to_string(),
        platform_system: "Linux".to_string(),
        sys_platform: "linux".to_string(),
    };
    let version = PythonVersion::from_str("3.12.1").expect("valid python version");
    let markers = version.markers(&base);
    assert_eq!(markers.python_full_version.text, "3.12.1");
    assert_eq!(markers.python_full_version.parts.release, vec![3, 12, 1]);
    assert_eq!(markers.python_version.text, "3.12");
    assert_eq!(markers.implementation_version.text, "3.12.1");
    assert_eq!(markers.os_name, "posix");
    assert_eq!(markers.platform_system, "Linux");

    let mut other = base.clone();
    other.implementation_name = "pypy".to_string();
    let markers = version.markers(&other);
    // a non-CPython implementation keeps its own implementation version
    assert_eq!(markers.implementation_version.text, "3.7.0");
    assert_eq!(markers.python_full_version.text, "3.12.1");
}
