use tofupilot_run::bootstrap::{
    after_confirmation, compute_stamp, confirm_bootstrap, ensure_venv, ensured,
    manual_bootstrap_hint, plan_venv, provision, resolve_runtime_version, stamp_path, uv_failure,
    Confirmation, DepsSource, ProbedDir, ProvisionStep, UvArg, VenvDecision, VenvPlan,
};
use tofupilot_run::paths::PathParts;

fn dirs(list: &[(&str, bool)]) -> Vec<ProbedDir> {
    list.iter()
        .map(|(dir, has_pyproject)| ProbedDir {
            dir: dir.to_string(),
            has_pyproject: *has_pyproject,
        })
        .collect()
}

fn pyproject_at(dir: &str) -> DepsSource {
    DepsSource::Pyproject {
        pyproject: PathParts::new(dir).join("pyproject.toml"),
        root: dir.to_string(),
    }
}

fn bytes(s: &str) -> Option<Vec<u8>> {
    Some(s.as_bytes().to_vec())
}

fn runtime(content: &str) -> String {
    resolve_runtime_version(&pyproject_at("/p"), &Some(content.to_string())).0
}

#[test]
fn stamp_changes_when_deps_change() {
    let s1 = compute_stamp("3.11", &bytes("[project]\nname='a'\ndeps=[]\n"));
    let s2 = compute_stamp("3.11", &bytes("[project]\nname='a'\ndeps=['x']\n"));
    assert_ne!(s1, s2);
}

#[test]
fn stamp_changes_when_runtime_changes() {
    let req = bytes("openhtf\n");
    assert_ne!(compute_stamp("3.11", &req), compute_stamp("3.12", &req));
}

#[test]
fn stamp_is_the_digest_of_version_and_contents() {
    // SHA-256 of "3.11", a zero byte and "openhtf\n".
    let stamp = compute_stamp("3.11", &bytes("openhtf\n"));
    assert_eq!(stamp, "5c20dd4ab2d18039096ea8ff46625bd3a9e78fc904fafbdf61051fad795f3825");
    assert_eq!(compute_stamp("3.11", &None), compute_stamp("3.11", &bytes("")));
}

#[test]
fn deps_detect_prefers_pyproject_over_requirements() {
    match DepsSource::detect("/tmp/p", &dirs(&[("/tmp/p", true), ("/tmp", false)]), true) {
        DepsSource::Pyproject { root, .. } => assert_eq!(root, "/tmp/p"),
        _ => panic!("expected pyproject to win"),
    }
}

#[test]
fn deps_detect_picks_nearest_ancestor_pyproject() {
    let seen = dirs(&[("/o/nested/inner", true), ("/o/nested", false), ("/o", true)]);
    match DepsSource::detect("/o/nested/inner", &seen, false) {
        DepsSource::Pyproject { root, .. } => assert_eq!(root, "/o/nested/inner"),
        _ => panic!("expected nearest ancestor (inner) to win"),
    }
}

#[test]
fn deps_detect_walks_up_to_workspace_root() {
    let seen = dirs(&[("/r/procedures/ft_smoke", false), ("/r/procedures", false), ("/r", true)]);
    match DepsSource::detect("/r/procedures/ft_smoke", &seen, false) {
        DepsSource::Pyproject { root, pyproject } => {
            assert_eq!(root, "/r");
            assert_eq!(pyproject, PathParts::new("/r").join("pyproject.toml"));
        }
        _ => panic!("expected pyproject discovered at workspace root"),
    }
}

#[test]
fn deps_detect_stops_after_eight_directories() {
    let mut seen: Vec<(&str, bool)> = vec![("/a", false); 8];
    seen.push(("/", true));
    assert!(matches!(DepsSource::detect("/a", &dirs(&seen), false), DepsSource::Nowhere));
    seen.remove(0);
    assert!(matches!(DepsSource::detect("/a", &dirs(&seen), false), DepsSource::Pyproject { .. }));
}

#[test]
fn deps_detect_falls_back_to_requirements() {
    match DepsSource::detect("/p", &dirs(&[("/p", false), ("/", false)]), true) {
        DepsSource::Requirements(_) => {}
        _ => panic!("expected requirements.txt fallback"),
    }
}

#[test]
fn deps_detect_none_when_nothing_present() {
    match DepsSource::detect("/p", &dirs(&[("/p", false), ("/", false)]), false) {
        DepsSource::Nowhere => {}
        _ => panic!("expected none"),
    }
}

#[test]
fn deps_path_is_the_file() {
    let req = DepsSource::detect("/p", &dirs(&[("/p", false)]), true);
    assert_eq!(req.path(), Some(&PathParts::new("/p").join("requirements.txt")));
    assert_eq!(pyproject_at("/p").path(), Some(&PathParts::new("/p").join("pyproject.toml")));
    assert_eq!(DepsSource::Nowhere.path(), None);
}

#[test]
fn runtime_version_reads_pyproject_requires_python() {
    assert_eq!(runtime("[project]\nname='a'\nrequires-python='>=3.12'\n"), "3.12");
}

#[test]
fn runtime_version_handles_multi_spec_requires_python() {
    assert_eq!(runtime("[project]\nname='a'\nrequires-python='>=3.12,<3.14'\n"), "3.12");
}

#[test]
fn runtime_version_falls_back_where_nothing_is_left() {
    assert_eq!(runtime("[project]\nrequires-python='>='\n"), "3.11");
    assert_eq!(runtime("[project]\nname='a'\n"), "3.11");
    let (version, unreadable) =
        resolve_runtime_version(&pyproject_at("/p"), &Some("not [ toml".to_string()));
    assert_eq!(version, "3.11");
    assert!(unreadable);
}

#[test]
fn manual_bootstrap_hint_switches_on_deps_source() {
    let pyp_hint = manual_bootstrap_hint("3.12", &pyproject_at("/tmp/x"));
    assert!(pyp_hint.contains("uv sync"), "got: {pyp_hint}");
    assert!(pyp_hint.contains("UV_PROJECT_ENVIRONMENT=venv"), "got: {pyp_hint}");
    assert!(
        pyp_hint.contains("cd /tmp/x"),
        "hint should cd to workspace root, got: {pyp_hint}"
    );

    let req = DepsSource::Requirements(PathParts::new("/tmp/x").join("requirements.txt"));
    let req_hint = manual_bootstrap_hint("3.12", &req);
    assert!(req_hint.contains("uv pip install -r requirements.txt"), "got: {req_hint}");

    let none_hint = manual_bootstrap_hint("3.12", &DepsSource::Nowhere);
    assert!(!none_hint.contains("uv pip install"), "got: {none_hint}");
    assert!(none_hint.contains("uv venv"), "got: {none_hint}");
}

#[test]
fn runtime_version_defaults_when_no_pyproject() {
    assert_eq!(resolve_runtime_version(&DepsSource::Nowhere, &None).0, "3.11");
}

fn bare_plan() -> VenvPlan {
    plan_venv("/p", DepsSource::Nowhere, &None, &None, false)
}

#[test]
fn ensure_venv_errors_with_no_bootstrap_and_no_venv() {
    match ensure_venv(&bare_plan(), false, &None, false, "/p/venv/bin/python") {
        VenvDecision::Refuse(err) => {
            assert!(err.contains("--no-bootstrap"), "got: {err}");
            assert!(err.contains("uv venv venv --python 3.11"), "got: {err}");
        }
        other => panic!("expected a refusal, got {other:?}"),
    }
}

#[test]
fn ensure_venv_returns_stale_interpreter_when_bootstrap_disabled() {
    let plan = bare_plan();
    let stale = Some("stale-hash-from-an-old-run".to_string());
    // The stamp is left as it is.
    assert_eq!(
        ensure_venv(&plan, true, &stale, false, ""),
        VenvDecision::Ready { write_stamp: false }
    );
    let python = PathParts::new("/p").join("venv").join("bin").join("python");
    assert_eq!(ensured(plan).python, python);
}

#[test]
fn ensure_venv_stamps_existing_unstamped_venv() {
    assert_eq!(
        ensure_venv(&bare_plan(), true, &None, true, ""),
        VenvDecision::Ready { write_stamp: true }
    );
    let venv = PathParts::new("/p").join("venv");
    assert_eq!(stamp_path(&venv), venv.join(".tofupilot-stamp"));
}

#[test]
fn stamps_decide_whether_to_rebuild() {
    let plan = bare_plan();
    let same = Some(plan.stamp.clone());
    assert_eq!(
        ensure_venv(&plan, true, &same, true, ""),
        VenvDecision::Ready { write_stamp: false }
    );
    assert_eq!(
        ensure_venv(&plan, true, &Some("old".to_string()), true, ""),
        VenvDecision::Build { rebuilding: true }
    );
    assert_eq!(ensure_venv(&plan, false, &None, true, ""), VenvDecision::Confirm);
    assert_eq!(after_confirmation(true, "/p/venv"), VenvDecision::Build { rebuilding: false });
    match after_confirmation(false, "/p/venv") {
        VenvDecision::Refuse(err) => assert!(err.contains("Operator declined"), "got: {err}"),
        other => panic!("expected a refusal, got {other:?}"),
    }
}

#[test]
fn operators_are_asked_only_at_a_terminal() {
    match confirm_bootstrap("/p", "3.12", true) {
        Confirmation::Ask { prompt } => assert_eq!(
            prompt,
            "No Python venv at /p. Bootstrap one (uv venv --python 3.12)?"
        ),
        other => panic!("expected a prompt, got {other:?}"),
    }
    assert!(matches!(confirm_bootstrap("/p", "3.12", false), Confirmation::Automatic { .. }));
}

#[test]
fn workspaces_are_synced_and_requirements_installed() {
    let plan = plan_venv("/r/proc", pyproject_at("/r"), &None, &None, false);
    assert_eq!(plan.venv, PathParts::new("/r").join("venv"));
    let steps = provision(&plan.venv_dir, "3.12", &plan.deps, false);
    assert!(matches!(&steps[0], ProvisionStep::Remove { .. }));
    match &steps[1] {
        ProvisionStep::Uv { args, project_environment, label, .. } => {
            assert_eq!(args[0], UvArg::Word("sync".to_string()));
            assert_eq!(args[2], UvArg::Word("3.12".to_string()));
            assert_eq!(project_environment.as_ref(), Some(&plan.venv));
            assert_eq!(label, "uv sync (pyproject)");
        }
        other => panic!("expected uv, got {other:?}"),
    }
    let req = DepsSource::detect("/p", &dirs(&[("/p", false)]), true);
    let steps = provision(&PathParts::new("/p"), "3.12", &req, true);
    assert!(matches!(&steps[0], ProvisionStep::Create { .. }));
    match &steps[1] {
        ProvisionStep::Uv { args, .. } => {
            assert_eq!(args.len(), 6);
            let python = PathParts::new("/p").join("venv").join("Scripts").join("python.exe");
            assert_eq!(args[3], UvArg::At(python));
        }
        other => panic!("expected uv, got {other:?}"),
    }
    let steps = provision(&PathParts::new("/p"), "3.12", &DepsSource::Nowhere, false);
    assert!(matches!(&steps[1], ProvisionStep::Warn(_)));
}

#[test]
fn tool_failures_name_their_status() {
    assert_eq!(uv_failure("uv sync", true, Some(0)), None);
    assert_eq!(
        uv_failure("uv sync", false, Some(2)),
        Some("uv sync exited with status 2".to_string())
    );
    assert_eq!(
        uv_failure("uv sync", false, None),
        Some("uv sync exited with status -1".to_string())
    );
}
