use tofupilot_run::event_router::Emission;
use tofupilot_run::json::Json;
use tofupilot_run::paths::PathParts;
use tofupilot_run::protocol::StationEvent;
use tofupilot_run::python::{
    build_command, deployment_python, execute, find_entry_point, graceful_shutdown, keep_tail,
    spawn_error_message, stdout_line, venv_python_path, PlainEvent, PlainRunContext, Shutdown,
    ShutdownWait,
};
use tofupilot_run::time::Instant;

fn pkg() -> PathParts {
    PathParts::new("/pkg")
}

#[test]
fn deployment_python_finds_venv_in_package_dir() {
    let expected = venv_python_path(&pkg(), "venv", false);
    let got = deployment_python(&pkg(), false, true, "/pkg/venv/bin/python").unwrap();
    assert_eq!(got, expected);
}

#[test]
fn deployment_python_errors_when_venv_missing() {
    let err = deployment_python(&pkg(), false, false, "/pkg/venv/bin/python").unwrap_err();
    assert!(err.contains("No Python venv found"), "got: {err}");
    assert!(err.contains("venv"), "expected venv path in error: {err}");
}

#[test]
fn interpreters_by_platform() {
    assert_eq!(
        venv_python_path(&pkg(), "venv", true),
        pkg().join("venv").join("Scripts").join("python.exe")
    );
    assert_eq!(
        venv_python_path(&pkg(), "venv", false),
        pkg().join("venv").join("bin").join("python")
    );
    assert_eq!(find_entry_point(&pkg(), true), Some(pkg().join("main.py")));
    assert_eq!(find_entry_point(&pkg(), false), None);
}

#[test]
fn processes_get_no_credentials() {
    let plan = build_command(pkg(), vec![pkg().join("main.py")], pkg(), "q1");
    assert!(plan.removed.contains(&"TOFUPILOT_API_KEY".to_string()));
    assert!(plan.removed.contains(&"TOFUPILOT_URL".to_string()));
    let id = plan.set.iter().find(|v| v.name == "TOFUPILOT_QUEUE_ID").unwrap();
    assert_eq!(id.value, "q1");
    assert!(plan.set.iter().all(|v| !plan.removed.contains(&v.name)));
}

#[test]
fn spawn_failures_carry_the_diagnosis() {
    assert_eq!(spawn_error_message("os error 13", &None), "Failed to spawn Python: os error 13");
    assert_eq!(
        spawn_error_message("os error 13", &Some("not executable".to_string())),
        "Failed to spawn Python: os error 13 — not executable"
    );
}

#[test]
fn shutdown_escalates_when_the_process_stays() {
    let exited = graceful_shutdown(&ShutdownWait::Exited { code: Some(3) });
    assert_eq!(exited, Shutdown { kill: false, exit_code: 3 });
    let signalled = graceful_shutdown(&ShutdownWait::Exited { code: None });
    assert_eq!(signalled, Shutdown { kill: false, exit_code: 130 });
    assert_eq!(graceful_shutdown(&ShutdownWait::TimedOut), Shutdown { kill: true, exit_code: 130 });
    assert_eq!(graceful_shutdown(&ShutdownWait::Failed), Shutdown { kill: true, exit_code: 130 });
}

#[test]
fn tail_keeps_whole_characters() {
    let mut tail = String::new();
    keep_tail(&mut tail, "first");
    assert_eq!(tail, "first\n");
    for _ in 0..3000 {
        keep_tail(&mut tail, "é");
    }
    assert!(tail.len() <= 4096);
    assert!(tail.len() > 4090);
    assert!(tail.ends_with("é\n"));
    assert!(!tail.contains("first"));
}

#[test]
fn lines_are_passed_on() {
    assert_eq!(stdout_line("hello", false), "hello");
    let json = Json::parse(&stdout_line("a \"b\"", true)).unwrap();
    assert_eq!(json.get_text("type"), Some(&"stdout".to_string()));
    assert_eq!(json.get_text("line"), Some(&"a \"b\"".to_string()));
}

fn ctx() -> Option<PlainRunContext> {
    Some(PlainRunContext {
        procedure_id: "p".to_string(),
        procedure_name: "Proc".to_string(),
        execution_id: "e".to_string(),
    })
}

fn completes(out: &[Emission]) -> Vec<String> {
    out.iter()
        .filter_map(|e| match e {
            Emission::Station(StationEvent::RunComplete { outcome, .. }) => Some(outcome.clone()),
            _ => None,
        })
        .collect()
}

#[test]
fn plain_runs_begin_and_end() {
    let begin = execute(&ctx(), PlainEvent::Begun { at: Instant { secs: 0, nanos: 0 } });
    assert!(matches!(begin.emissions[0], Emission::Station(StationEvent::RunStarted { .. })));
    assert_eq!(begin.exit_code, None);
    let end = execute(&ctx(), PlainEvent::Exited { code: Some(0) });
    assert_eq!(completes(&end.emissions), vec!["PASS".to_string()]);
    assert_eq!(end.exit_code, Some(0));
    let end = execute(&ctx(), PlainEvent::Exited { code: None });
    assert_eq!(end.exit_code, Some(1));
    let end = execute(&ctx(), PlainEvent::Stopped { wait: Shutdown { kill: true, exit_code: 130 } });
    assert_eq!(completes(&end.emissions), vec!["ABORTED".to_string()]);
    assert_eq!(end.exit_code, Some(130));
}

#[test]
fn plain_runs_that_never_spawn_crash() {
    let step = execute(&ctx(), PlainEvent::SpawnFailed { message: "no".to_string() });
    assert!(matches!(
        &step.emissions[0],
        Emission::Station(StationEvent::RunCrashed { error, error_kind, .. })
            if error == "no" && error_kind == "spawn_failed"
    ));
    assert_eq!(completes(&step.emissions), vec!["ERROR".to_string()]);
    assert_eq!(step.exit_code, Some(1));
    let step = execute(&ctx(), PlainEvent::NoStdout);
    assert_eq!(step.complaint, Some("Failed to capture stdout".to_string()));
    let step = execute(&ctx(), PlainEvent::NoStderr);
    assert_eq!(step.complaint, Some("Failed to capture stderr".to_string()));
    let step = execute(&ctx(), PlainEvent::WaitFailed { error: "gone".to_string() });
    assert_eq!(step.complaint, Some("Process error: gone".to_string()));
    assert_eq!(step.exit_code, Some(1));
}

#[test]
fn nobody_hears_of_a_run_without_context() {
    let step = execute(&None, PlainEvent::Exited { code: Some(0) });
    assert!(step.emissions.is_empty());
    assert_eq!(step.exit_code, Some(0));
}
