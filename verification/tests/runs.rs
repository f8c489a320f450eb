use tofupilot_run::connector::pump::{
    canonical_phase_key, response_value, Answer, Identification, Pump, PumpAction,
};
use tofupilot_run::connector::request::{Connector, RunContext};
use tofupilot_run::connector::unit_config::UnitConfig;
use tofupilot_run::engine::model::{EngineUnit, KeyText, Outcome, SlotOutcome};
use tofupilot_run::engine::run::{
    shutdown_mode, ProcedureFacts, RefProblem, RunAction, RunEvent, ShutdownMode, SlotDecl, YamlRun,
};
use tofupilot_run::engine::sink::{CliEventSink, ExecutionEvent};
use tofupilot_run::event_router::Emission;
use tofupilot_run::json::Json;
use tofupilot_run::protocol::StationEvent;
use tofupilot_run::sdk::RunGetOutcome;
use tofupilot_run::time::Instant;

const NOW: Instant = Instant { secs: 1_767_225_600, nanos: 0 };

fn engine_unit(serial: &str) -> EngineUnit {
    EngineUnit {
        serial_number: Some(serial.to_string()),
        part_number: None,
        revision_number: None,
        batch_number: None,
        operated_by: None,
        sub_units: None,
        status: "complete".to_string(),
        metadata: None,
    }
}

fn pump(connector: Connector) -> Pump {
    Pump::new(
        connector,
        "p".to_string(),
        "Proc".to_string(),
        "e".to_string(),
        false,
        None,
        false,
        false,
        None,
        None,
    )
}

fn ctx() -> RunContext {
    RunContext {
        procedure_id: "p".to_string(),
        procedure_dir: "/p".to_string(),
        procedure_version: Some("1.0".to_string()),
        deployment_id: None,
        operated_by: None,
    }
}

fn feed(pump: &mut Pump, line: &str) -> PumpAction {
    pump.line(line, NOW).1.expect("an event").action
}

fn outcomes(out: &[Emission]) -> Vec<String> {
    out.iter()
        .filter_map(|e| match e {
            Emission::Station(StationEvent::RunComplete { outcome, .. }) => Some(outcome.clone()),
            _ => None,
        })
        .collect()
}

const START: &str =
    r#"{"type": "test_start", "test_name": "t", "phases": ["one", "two"], "unit_kwargs": {"serial_number": "S1"}}"#;
const END: &str = r#"{"type": "test_end", "outcome": "PASS", "dut_id": "S1", "start_time_millis": 0, "end_time_millis": 9}"#;

#[test]
fn a_connector_run_from_start_to_upload() {
    let mut pump = pump(Connector::OpenHtf);
    assert!(matches!(feed(&mut pump, START), PumpAction::Identify { .. }));
    let step = pump.identified(Identification::Resolved(engine_unit("S1")), NOW);
    assert!(step.reply.is_some());
    assert!(matches!(step.action, PumpAction::Next));
    assert!(matches!(
        feed(&mut pump, r#"{"type": "phase_begin", "name": "one"}"#),
        PumpAction::Next
    ));
    feed(
        &mut pump,
        r#"{"type": "phase_end", "name": "one", "outcome": "PASS", "start_time_millis": 0, "end_time_millis": 5}"#,
    );
    let ended = pump.line(END, NOW).1.expect("an event");
    assert_eq!(outcomes(&ended.emissions), vec!["PASS".to_string()]);
    let end = pump.conclude(&ctx(), false, 0, "", NOW);
    assert_eq!(end.exit_code, 0);
    let queued = end.queued.expect("a run to upload");
    assert_eq!(queued.request.outcome, RunGetOutcome::Pass);
    assert_eq!(queued.request.serial_number, "S1");
    assert_eq!(queued.request.phases.len(), 1);
    assert_eq!(queued.request.procedure_version.as_deref(), Some("1.0"));
}

#[test]
fn units_that_cannot_be_identified_end_the_run() {
    let mut pump = pump(Connector::Robot);
    feed(&mut pump, START);
    let step = pump.identified(Identification::Failed("nobody".to_string()), NOW);
    assert!(matches!(step.action, PumpAction::Stop));
    let end = pump.conclude(&ctx(), false, 0, "", NOW);
    assert_ne!(end.exit_code, 0);
    assert!(end.queued.is_none());
}

#[test]
fn stops_and_crashes_upload_nothing() {
    let mut stopped = pump(Connector::OpenHtf);
    feed(&mut stopped, START);
    let end = stopped.conclude(&ctx(), true, 130, "", NOW);
    assert_eq!(outcomes(&end.emissions), vec!["ABORTED".to_string()]);
    assert!(end.queued.is_none());

    let crashed = pump(Connector::OpenHtf);
    let end = crashed.conclude(&ctx(), false, 3, "Traceback", NOW);
    assert_ne!(end.exit_code, 0);
    assert!(end.queued.is_none());
    assert!(end.emissions.iter().any(|e| matches!(
        e,
        Emission::Station(StationEvent::RunCrashed { .. })
    )));
}

#[test]
fn prompts_are_asked_and_answered() {
    let mut pump = pump(Connector::OpenHtf);
    feed(&mut pump, START);
    pump.identified(Identification::Resolved(engine_unit("S1")), NOW);
    let ask = feed(&mut pump, r#"{"type": "prompt", "prompt_id": "q1", "message": "Ready?", "text_input": true}"#);
    assert!(matches!(ask, PumpAction::Ask { .. }));
    let values = vec![KeyText { key: "response".to_string(), text: "yes".to_string() }];
    assert_eq!(response_value(&values), "yes");
    let step = pump.answered(Answer::Values(values));
    let reply = Json::parse(&step.reply.expect("a reply")).expect("JSON");
    assert_eq!(reply.get_text("response"), Some(&"yes".to_string()));
}

#[test]
fn other_lines_are_no_events() {
    let mut pump = pump(Connector::OpenHtf);
    let (notice, step) = pump.line("just text", NOW);
    assert!(notice.is_none() && step.is_none());
    let (notice, step) = pump.line(r#"{"no": "type"}"#, NOW);
    assert_eq!(
        notice.as_deref(),
        Some(r#"[tofupilot] unparseable connector event: {"no": "type"}"#)
    );
    assert!(step.is_none());
    let (notice, step) = pump.line(r#"{"type": "warning", "message": "old API"}"#, NOW);
    assert_eq!(notice.as_deref(), Some("[tofupilot-connector] old API"));
    assert!(step.is_some());
    let (notice, step) = pump.line(r#"{"type": "bridge_ready"}"#, NOW);
    assert!(notice.is_none() && step.is_some());
    assert_eq!(canonical_phase_key(&Vec::new(), "one"), "one");
}

fn sink() -> CliEventSink {
    CliEventSink::new(
        false,
        false,
        "Proc".to_string(),
        "p".to_string(),
        "e".to_string(),
        None,
        None,
        vec!["default".to_string()],
        Vec::new(),
    )
}

#[test]
fn the_sink_keeps_what_the_upload_needs() {
    let mut sink = sink();
    sink.emit(ExecutionEvent::Stats { start_time: Some(NOW) }, NOW);
    let later = Instant { secs: NOW.secs + 5, nanos: 0 };
    sink.emit(ExecutionEvent::Stats { start_time: Some(later) }, later);
    assert_eq!(sink.data.start_time, Some(NOW));
    let out = sink.emit(
        ExecutionEvent::JobComplete {
            phase_key: "one".to_string(),
            phase_name: "One".to_string(),
            outcome: Outcome::Pass,
            measurements: Vec::new(),
            logs: Vec::new(),
            started_at: "2026-01-01T00:00:00Z".to_string(),
            completed_at: "2026-01-01T00:00:01Z".to_string(),
            retry_count: 0,
            error: None,
            slot_id: None,
            run_metadata: Vec::new(),
            unit_metadata: Vec::new(),
        },
        NOW,
    );
    assert_eq!(sink.data.phases.len(), 1);
    assert!(out.iter().any(|e| matches!(
        e,
        Emission::Station(StationEvent::PhaseComplete { duration_ms: Some(1000), .. })
    )));
    let out = sink.emit(
        ExecutionEvent::Complete {
            run_outcome: Some(Outcome::Fail),
            run_id: None,
            end_time: Some(later),
            slot_outcomes: vec![SlotOutcome {
                slot: "default".to_string(),
                outcome: Outcome::Fail,
            }],
        },
        later,
    );
    assert_eq!(outcomes(&out), vec!["FAIL".to_string()]);
    assert_eq!(sink.data.run_outcome, Some(Outcome::Fail));
    assert!(sink.progressed);
}

fn yaml_run() -> YamlRun {
    YamlRun::new(
        false,
        false,
        "Proc".to_string(),
        "p".to_string(),
        "e".to_string(),
        None,
        None,
        false,
        None,
        Vec::new(),
    )
}

fn facts(slots: &[&str]) -> ProcedureFacts {
    ProcedureFacts {
        workers: None,
        slots: slots
            .iter()
            .map(|s| SlotDecl { key: s.to_string(), name: s.to_string() })
            .collect(),
        unit: None,
        operated_by: None,
    }
}

fn checked(problems: Vec<RefProblem>) -> RunEvent {
    RunEvent::Checked { target_invalid: false, problems }
}

fn to_execution(run: &mut YamlRun) {
    assert_eq!(run.step(RunEvent::Loaded(facts(&[])), NOW).action, RunAction::CheckReferences);
    assert!(matches!(run.step(checked(Vec::new()), NOW).action, RunAction::Initialize { .. }));
    assert!(matches!(run.step(RunEvent::Initialized, NOW).action, RunAction::Identify { .. }));
    let step = run.step(RunEvent::UnitResolved(engine_unit("S1")), NOW);
    assert_eq!(step.action, RunAction::Submit);
    assert_eq!(run.step(RunEvent::Submitted, NOW).action, RunAction::Execute);
}

#[test]
fn a_procedure_runs_to_its_end() {
    let mut run = yaml_run();
    to_execution(&mut run);
    let step = run.step(RunEvent::Finished(Some(Outcome::Pass)), NOW);
    assert!(matches!(step.action, RunAction::ShutDown { .. }));
    assert_eq!(
        run.step(RunEvent::ShutDown, NOW).action,
        RunAction::Done { exit_code: 0, upload: true }
    );
}

#[test]
fn failures_exit_with_one() {
    let mut run = yaml_run();
    to_execution(&mut run);
    run.step(RunEvent::Finished(Some(Outcome::Fail)), NOW);
    assert!(matches!(
        run.step(RunEvent::ShutDown, NOW).action,
        RunAction::Done { exit_code: 1, .. }
    ));
}

#[test]
fn procedures_that_cannot_be_loaded_crash() {
    let mut run = yaml_run();
    let step = run.step(RunEvent::LoadFailed("bad yaml".to_string()), NOW);
    assert!(step.emissions.iter().any(|e| matches!(
        e,
        Emission::Station(StationEvent::RunCrashed { error, .. }) if error.contains("bad yaml")
    )));
    assert_eq!(step.action, RunAction::Quit);
}

#[test]
fn certain_problems_block_a_run() {
    let problem = |error: bool| RefProblem { error, message: "no such phase".to_string() };
    let mut run = yaml_run();
    run.step(RunEvent::Loaded(facts(&[])), NOW);
    assert!(matches!(
        run.step(checked(vec![problem(false)]), NOW).action,
        RunAction::Initialize { .. }
    ));
    let mut run = yaml_run();
    run.step(RunEvent::Loaded(facts(&[])), NOW);
    assert!(!matches!(
        run.step(checked(vec![problem(true)]), NOW).action,
        RunAction::Initialize { .. }
    ));
}

#[test]
fn stops_escalate() {
    let mut run = yaml_run();
    to_execution(&mut run);
    assert_eq!(run.step(RunEvent::Stop, NOW).action, RunAction::RequestShutdown);
    assert_eq!(run.step(RunEvent::Stop, NOW).action, RunAction::Wait);
    assert_eq!(run.step(RunEvent::Interrupt, NOW).action, RunAction::InterruptJobs);
    assert_eq!(run.step(RunEvent::Force, NOW).action, RunAction::ForceKill);
    assert_eq!(shutdown_mode(true), ShutdownMode::Hurried);
    assert_eq!(shutdown_mode(false), ShutdownMode::Normal);
}

#[test]
fn every_slot_is_identified() {
    let mut run = yaml_run();
    run.step(RunEvent::Loaded(facts(&["s1", "s2"])), NOW);
    match run.step(checked(Vec::new()), NOW).action {
        RunAction::Initialize { slots, unit, .. } => {
            assert_eq!(slots, vec!["s1".to_string(), "s2".to_string()]);
            let UnitConfig { serial_number, .. } = unit;
            assert!(serial_number.is_some());
        }
        other => panic!("expected the start of the engine, got {other:?}"),
    }
    let first = run.step(RunEvent::Initialized, NOW).action;
    assert!(matches!(first, RunAction::Identify { slot, .. } if slot == "s1"));
    let second = run.step(RunEvent::UnitResolved(engine_unit("A")), NOW).action;
    assert!(matches!(second, RunAction::Identify { slot, .. } if slot == "s2"));
    let last = run.step(RunEvent::UnitResolved(engine_unit("B")), NOW).action;
    assert_eq!(last, RunAction::Submit);
}

#[test]
fn the_last_name_of_a_slot_counts() {
    let decl = |key: &str, name: &str| SlotDecl { key: key.to_string(), name: name.to_string() };
    let mut run = yaml_run();
    let slots = vec![decl("a", "First"), decl("b", "Other"), decl("a", "Last")];
    run.step(RunEvent::Loaded(ProcedureFacts { slots, ..facts(&[]) }), NOW);
    match run.step(checked(Vec::new()), NOW).action {
        RunAction::Initialize { slots, slot_names, .. } => {
            assert_eq!(slots, vec!["a".to_string(), "b".to_string(), "a".to_string()]);
            let names: Vec<&str> = slot_names.iter().map(|n| n.text.as_str()).collect();
            assert_eq!(names, vec!["Last", "Other"]);
        }
        other => panic!("expected the start of the engine, got {other:?}"),
    }
    let first = run.step(RunEvent::Initialized, NOW).action;
    assert_eq!(first, RunAction::Identify { slot: "a".to_string(), name: Some("Last".to_string()) });
}
