use tofupilot_run::json::Json;
use tofupilot_run::paths::PathParts;
use tofupilot_run::source::{
    classify_local_path, is_valid_id, label_procedure, needs_link, resolve_deployment,
    resolve_local, resolve_procedure_dir, resolve_procedure_id, DeploymentEntry, Link, LocalPlace,
    PathKind, ProcedureDirError, RunSource, Selection,
};

fn some(s: &str) -> Option<String> {
    Some(s.to_string())
}

fn place() -> LocalPlace {
    LocalPlace { dir: "/work/proc".to_string(), yaml_hint: None }
}

fn link(name: Option<&str>) -> Option<Link> {
    Some(Link { procedure_id: "p9".to_string(), procedure_name: name.map(|s| s.to_string()) })
}

#[test]
fn local_paths_are_directories_or_files() {
    let dir = classify_local_path("proc", Ok("/w/proc".to_string()), PathKind::Directory).unwrap();
    assert_eq!(dir, LocalPlace { dir: "/w/proc".to_string(), yaml_hint: None });
    let file = classify_local_path(
        "a.yml",
        Ok("/w/a.yml".to_string()),
        PathKind::File { parent: some("/w") },
    )
    .unwrap();
    assert_eq!(file, LocalPlace { dir: "/w".to_string(), yaml_hint: some("/w/a.yml") });
    let err = classify_local_path("x", Ok("/x".to_string()), PathKind::Missing).unwrap_err();
    assert_eq!(err, "Path does not exist: x");
    let err = classify_local_path("x", Err("gone".to_string()), PathKind::Missing).unwrap_err();
    assert_eq!(err, "Cannot resolve x: gone");
    let err = classify_local_path("/", Ok("/".to_string()), PathKind::File { parent: None });
    assert_eq!(err.unwrap_err(), "Cannot determine parent dir of /");
}

#[test]
fn uploads_need_a_linked_procedure() {
    let err = resolve_local(place(), some("proc"), true, None, None).unwrap_err();
    assert!(err.starts_with("Not linked to a procedure."), "got: {err}");
    let err = resolve_local(place(), some("proc"), true, some(""), None).unwrap_err();
    assert!(err.starts_with("Not linked to a procedure."), "got: {err}");
    let linked = resolve_local(place(), some("proc"), true, None, link(None)).unwrap();
    assert_eq!(linked.id, "p9");
    assert!(linked.upload);
    // The environment wins over the link, which is then not read.
    let env = resolve_local(place(), some("proc"), true, some("env"), link(None)).unwrap();
    assert_eq!(env.id, "env");
    assert!(!needs_link(true, &some("env")));
    assert!(needs_link(true, &some("")));
    assert!(needs_link(false, &some("env")));
}

#[test]
fn local_runs_stay_local_and_hint_at_the_link() {
    let run = resolve_local(place(), some("proc"), false, some("env"), link(Some("Name"))).unwrap();
    assert!(!run.upload);
    assert_eq!(run.id, "proc");
    assert_eq!(run.dir, PathParts::new("/work/proc"));
    assert_eq!(run.link_hint, some("Name (p9)"));
    let run = resolve_local(place(), None, false, None, link(None)).unwrap();
    assert_eq!(run.id, "local");
    assert_eq!(run.link_hint, some("p9"));
}

#[test]
fn deployments_lie_under_their_id() {
    let base: Result<String, String> = Ok("/d".to_string());
    assert_eq!(resolve_procedure_dir("p1", &base, true), Ok(PathParts::new("/d").join("p1")));
    for bad in ["", ".", "..", "a/b", r"a\b"] {
        assert!(!is_valid_id(bad));
        assert_eq!(resolve_procedure_dir(bad, &base, true), Err(ProcedureDirError::InvalidId));
    }
    assert_eq!(resolve_procedure_dir("p1", &base, false), Err(ProcedureDirError::NotFound));
    assert_eq!(
        resolve_procedure_dir("p1", &Err("no home".to_string()), true),
        Err(ProcedureDirError::NoDirectory("no home".to_string()))
    );
    let source = resolve_deployment("p1".to_string(), PathParts::new("/d").join("p1"));
    assert!(source.upload);
}

fn entries(names: &[&str]) -> Vec<DeploymentEntry> {
    names.iter().map(|n| DeploymentEntry { name: some(n), is_dir: true }).collect()
}

#[test]
fn the_only_deployment_is_chosen() {
    let mut found = entries(&["p1", "p2.tmp", "p3.old", "p4.staging"]);
    found.push(DeploymentEntry { name: some("file"), is_dir: false });
    found.push(DeploymentEntry { name: None, is_dir: true });
    assert_eq!(resolve_procedure_id(&None, &found, false), Selection::Chosen("p1".to_string()));
}

#[test]
fn several_deployments_are_offered_in_order() {
    let found = entries(&["b", "a"]);
    assert_eq!(
        resolve_procedure_id(&None, &found, false),
        Selection::Pick(vec!["a".to_string(), "b".to_string()])
    );
    match resolve_procedure_id(&None, &found, true) {
        Selection::Fail { message, lines } => {
            assert_eq!(message, "Multiple deployments found. Use --procedure to select one.");
            assert_eq!(lines.len(), 2);
            let first = Json::parse(&lines[0]).unwrap();
            assert_eq!(first.get_text("procedure_id"), Some(&"a".to_string()));
        }
        other => panic!("expected a failure, got {other:?}"),
    }
    assert_eq!(
        resolve_procedure_id(&some("z"), &found, true),
        Selection::Chosen("z".to_string())
    );
    assert!(matches!(
        resolve_procedure_id(&None, &Vec::new(), false),
        Selection::Fail { message, .. }
            if message == "No deployments found. Run `tofupilot pull` first."
    ));
}

#[test]
fn picker_shows_the_commit() {
    assert_eq!(label_procedure("p1", &some("0123456789")), "p1 (0123456)");
    assert_eq!(label_procedure("p1", &some("012")), "p1 (012)");
    assert_eq!(label_procedure("p1", &None), "p1");
}

#[test]
fn sources_are_told_apart() {
    let local = RunSource::LocalPath { path: "x".to_string(), upload: false };
    assert_ne!(local, RunSource::Deployment(some("x")));
}
