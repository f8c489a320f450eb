use tofupilot_run::bootstrap::{ensure_venv, plan_venv, DepsSource, VenvDecision};
use tofupilot_run::engine::run::{deployment_layout, DeploymentLayout, ManifestParts};
use tofupilot_run::framework::{
    bad_manifest, choose_interpreter, has_yaml_extension, prepare_run, resolve_entry_file,
    with_python, EntrySurface, Framework, Interpreter, ProjectFiles,
};
use tofupilot_run::paths::PathParts;
use tofupilot_run::python::deployment_python;

fn files() -> ProjectFiles {
    ProjectFiles {
        has_yaml: false,
        has_yml: false,
        manifest: None,
        dependency_files: vec![None, None, None, None],
        pytest: false,
        names: Vec::new(),
        main_py: false,
    }
}

fn pkg() -> PathParts {
    PathParts::new("/pkg")
}

fn some(s: &str) -> Option<String> {
    Some(s.to_string())
}

#[test]
fn detect_honors_yaml_entry_point_with_custom_name() {
    let fw = Framework::detect(&pkg(), &some("my-test.yaml"), &files(), false);
    match fw {
        Framework::Yaml(p) => assert_eq!(p, pkg().join("my-test.yaml")),
        other => panic!("expected Yaml, got {other:?}"),
    }
}

#[test]
fn detect_ignores_non_yaml_entry_point() {
    let found = ProjectFiles { main_py: true, names: vec!["main.py".to_string()], ..files() };
    let fw = Framework::detect(&pkg(), &some("main.py"), &found, false);
    assert!(!matches!(fw, Framework::Yaml(_)), "main.py entry must not be YAML, got {fw:?}");
}

#[test]
fn detect_falls_back_to_procedure_yaml_when_no_entry() {
    let fw = Framework::detect(&pkg(), &None, &ProjectFiles { has_yaml: true, ..files() }, false);
    match fw {
        Framework::Yaml(p) => assert_eq!(p, pkg().join("procedure.yaml")),
        other => panic!("expected Yaml, got {other:?}"),
    }
}

#[test]
fn detection_order() {
    let openhtf = || vec![some("openhtf\nrobotframework\n"), None, None, None];
    let all = ProjectFiles {
        dependency_files: openhtf(),
        pytest: true,
        names: vec!["a.robot".to_string()],
        ..files()
    };
    assert_eq!(Framework::detect(&pkg(), &None, &all, false), Framework::Openhtf);
    let pytest = ProjectFiles { pytest: true, names: vec!["a.robot".to_string()], ..files() };
    assert_eq!(Framework::detect(&pkg(), &None, &pytest, false), Framework::Pytest);
    let robot = ProjectFiles { names: vec!["a.robot".to_string()], ..files() };
    assert_eq!(Framework::detect(&pkg(), &None, &robot, false), Framework::Robot);
    assert_eq!(Framework::detect(&pkg(), &None, &files(), false), Framework::Plain);
    let yaml = ProjectFiles { has_yml: true, ..all };
    assert_eq!(
        Framework::detect(&pkg(), &None, &yaml, false),
        Framework::Yaml(pkg().join("procedure.yml"))
    );
}

#[test]
fn yaml_extensions_in_any_case() {
    for yes in ["a.yaml", "a.YML", "dir/b.Yaml", "a.yaml/", "x.yaml/.", "a.b.yml"] {
        assert!(has_yaml_extension(yes, false), "{yes} is YAML");
    }
    for no in ["", ".", "..", ".yaml", "yaml", "a.yaml.txt", "a.yaml/..", "dir.yaml/b"] {
        assert!(!has_yaml_extension(no, false), "{no} is not YAML");
    }
    assert!(!has_yaml_extension(r"dir\.yaml", true));
    assert!(has_yaml_extension(r"dir\a.yaml", true));
}

#[test]
fn surfaces_of_the_frameworks() {
    assert_eq!(Framework::Plain.entry_surface(), EntrySurface::MainPy);
    assert_eq!(Framework::Openhtf.entry_surface(), EntrySurface::MainPy);
    assert_eq!(Framework::Pytest.entry_surface(), EntrySurface::PackageDir);
    assert_eq!(Framework::Robot.entry_surface(), EntrySurface::PackageDir);
}

#[test]
fn entry_files() {
    let entry = |manifest: Option<&str>, fw: &Framework, main_py: bool| {
        resolve_entry_file(&manifest.map(|s| s.to_string()), fw, &pkg(), main_py, "/pkg")
    };
    assert_eq!(entry(Some("."), &Framework::Plain, false), Ok(pkg()));
    assert_eq!(entry(Some("t/a.py"), &Framework::Plain, false), Ok(pkg().join("t/a.py")));
    assert_eq!(entry(None, &Framework::Plain, true), Ok(pkg().join("main.py")));
    assert_eq!(entry(None, &Framework::Pytest, true), Ok(pkg()));
    let fail = entry(None, &Framework::Openhtf, false).unwrap_err();
    assert_eq!(fail.kind, "load_error");
    assert_eq!(
        fail.message,
        "No procedure found in /pkg. Expected a procedure.yaml or a Python entry point (main.py)."
    );
}

fn layout(root_directory: Option<&str>) -> DeploymentLayout {
    let parts = ManifestParts {
        root_directory: root_directory.map(|s| s.to_string()),
        entry_point: None,
    };
    deployment_layout("/d", Some(Ok(parts))).unwrap()
}

#[test]
fn prepare_run_resolves_venv_under_root_directory_for_monorepo() {
    let found = ProjectFiles { has_yaml: true, ..files() };
    let entry = prepare_run(
        layout(Some("procedures/ft_device_a")),
        &None,
        &found,
        false,
        "/d/procedures/ft_device_a",
    )
    .expect("prepare_run should succeed");
    let package = PathParts::new("/d").join("procedures/ft_device_a");
    assert_eq!(entry.package_dir, package);
    let python = deployment_python(&entry.package_dir, false, true, "");
    let prepared = with_python(entry, python).expect("prepare_run should succeed");
    assert_eq!(prepared.python_path, package.join("venv").join("bin").join("python"));
}

#[test]
fn prepare_run_resolves_venv_at_deployment_root_for_single_package() {
    let found = ProjectFiles { has_yaml: true, ..files() };
    let entry = prepare_run(layout(None), &None, &found, false, "/d").unwrap();
    let deployment = PathParts::new("/d");
    assert_eq!(entry.package_dir, deployment);
    let python = deployment_python(&entry.package_dir, false, true, "");
    let prepared = with_python(entry, python).unwrap();
    assert_eq!(prepared.python_path, deployment.join("venv").join("bin").join("python"));
}

#[test]
fn prepare_run_errors_when_manifest_present_but_venv_missing() {
    let found = ProjectFiles { main_py: true, ..files() };
    let entry = prepare_run(layout(None), &None, &found, false, "/d").unwrap();
    assert!(entry.manifest_present);
    assert_eq!(choose_interpreter(entry.manifest_present), Interpreter::Deployment);
    let python = deployment_python(&entry.package_dir, false, false, "/d/venv/bin/python");
    let err = with_python(entry, python).expect_err("should fail without venv");
    assert_eq!(err.kind, "env_error");
}

#[test]
fn prepare_run_errors_local_path_when_bootstrap_disabled_and_no_venv() {
    let found = ProjectFiles { main_py: true, ..files() };
    let local = deployment_layout("/p", None).unwrap();
    let entry = prepare_run(local, &None, &found, false, "/p").unwrap();
    assert!(!entry.manifest_present);
    assert_eq!(choose_interpreter(entry.manifest_present), Interpreter::Project);
    let plan = plan_venv("/p", DepsSource::Nowhere, &None, &None, false);
    let python = match ensure_venv(&plan, false, &None, false, "/p/venv/bin/python") {
        VenvDecision::Refuse(message) => Err(message),
        other => panic!("expected a refusal, got {other:?}"),
    };
    let err = with_python(entry, python).expect_err("should fail without venv");
    assert_eq!(err.kind, "env_error");
    assert!(err.message.contains("--no-bootstrap"), "got: {}", err.message);
}

#[test]
fn prepare_run_uses_existing_venv_for_local_path() {
    let found = ProjectFiles { has_yaml: true, ..files() };
    let local = deployment_layout("/p", None).unwrap();
    let entry = prepare_run(local, &None, &found, false, "/p").unwrap();
    let plan = plan_venv("/p", DepsSource::Nowhere, &None, &None, false);
    assert_eq!(
        ensure_venv(&plan, true, &None, true, ""),
        VenvDecision::Ready { write_stamp: true }
    );
    let prepared = with_python(entry, Ok(plan.python)).unwrap();
    let python = PathParts::new("/p").join("venv").join("bin").join("python");
    assert_eq!(prepared.python_path, python);
}

#[test]
fn a_named_procedure_file_decides() {
    let found = ProjectFiles { pytest: true, ..files() };
    let local = || deployment_layout("/p", None).unwrap();
    let entry = prepare_run(local(), &some("/p/my.yml"), &found, false, "/p").unwrap();
    assert_eq!(entry.framework, Framework::Yaml(PathParts::new("/p/my.yml")));
    let entry = prepare_run(local(), &some("/p/test_a.py"), &found, false, "/p").unwrap();
    assert_eq!(entry.framework, Framework::Pytest);
}

#[test]
fn manifest_faults_are_load_errors() {
    let fail = bad_manifest("no version");
    assert_eq!(fail.kind, "load_error");
    assert_eq!(fail.message, "Bad deployment manifest: no version");
}
