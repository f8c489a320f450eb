use tofupilot_run::agent_proto::emitter::Emitter;
use tofupilot_run::agent_proto::events::{CliEvent, SubmittedValue};
use tofupilot_run::agent_proto::validate::coerce_value;
use tofupilot_run::connector::pump::{Pump, Step};
use tofupilot_run::connector::request::{build_phase, Connector};
use tofupilot_run::connector::unit_config::{UnitConfig, UnitFieldConfig};
use tofupilot_run::emit::run_crashed;
use tofupilot_run::engine::model::{EngineUnit, Outcome, RunData};
use tofupilot_run::engine::run::{ProcedureFacts, RunAction, RunEvent, SlotDecl, YamlRun};
use tofupilot_run::engine::sink::{CliEventSink, ExecutionEvent};
use tofupilot_run::engine::unit::apply_unit_info_to_run_data;
use tofupilot_run::event_router::Emission;
use tofupilot_run::json::Json;
use tofupilot_run::outcomes::from_execution_outcome;
use tofupilot_run::protocol::{KeyUnit, StationEvent, UnitInfo};
use tofupilot_run::queue::policy::{retry_one, QueueEntry};
use tofupilot_run::queue::upload::snapshot_events;
use tofupilot_run::queue::QueuedRun;
use tofupilot_run::sdk::{RunCreateRequest, RunGetOutcome};
use tofupilot_run::time::Instant;
use tofupilot_run::ui::{ComponentType, UiComponent, UiOption};

const NOW: Instant = Instant { secs: 1_767_225_600, nanos: 0 };

fn json(text: &str) -> Json {
    Json::parse(text).expect("valid JSON")
}

fn pump(connector: Connector, agent: bool) -> Pump {
    Pump::new(
        connector,
        "p".to_string(),
        "Proc".to_string(),
        "e".to_string(),
        agent,
        None,
        false,
        false,
        None,
        None,
    )
}

fn feed(pump: &mut Pump, line: &str) -> Step {
    pump.line(line, NOW).1.expect("an event")
}

fn starts(out: &[Emission]) -> Vec<u32> {
    out.iter()
        .filter_map(|e| match e {
            Emission::Station(StationEvent::PhaseStarted { attempt, .. }) => Some(*attempt),
            _ => None,
        })
        .collect()
}

const PHASE_BEGIN: &str = r#"{"type": "phase_begin", "name": "one"}"#;
const PHASE_END: &str =
    r#"{"type": "phase_end", "name": "one", "outcome": "PASS", "retry_count": 0}"#;

#[test]
fn a_phase_attempt_starts_once() {
    let mut pump = pump(Connector::OpenHtf, false);
    assert_eq!(starts(&feed(&mut pump, PHASE_BEGIN).emissions), vec![1]);
    assert_eq!(starts(&feed(&mut pump, PHASE_END).emissions), Vec::<u32>::new());
    assert_eq!(starts(&feed(&mut pump, PHASE_BEGIN).emissions), vec![2]);
    assert_eq!(pump.started.len(), 2);
}

#[test]
fn an_end_without_a_start_announces_both() {
    let mut pump = pump(Connector::Robot, false);
    let step = feed(&mut pump, PHASE_END);
    assert_eq!(starts(&step.emissions), vec![1]);
    assert!(matches!(
        step.emissions.last(),
        Some(Emission::Station(StationEvent::PhaseComplete { attempt: 1, .. }))
    ));
    assert_eq!(pump.phases, vec![json(PHASE_END)]);
}

#[test]
fn without_an_agent_none_is_told() {
    let log = r#"{"type": "phase_log", "level": "INFO", "message": "m", "timestamp": "t"}"#;
    let told = |step: Step| {
        step.emissions.iter().chain(step.later.iter()).any(|e| matches!(e, Emission::Agent(_)))
    };
    for line in [PHASE_BEGIN, PHASE_END, log] {
        assert!(!told(feed(&mut pump(Connector::OpenHtf, false), line)));
        assert!(told(feed(&mut pump(Connector::OpenHtf, true), line)));
    }
}

#[test]
fn only_named_phases_are_uploaded() {
    let named = build_phase(&json(PHASE_END), Connector::OpenHtf, NOW).expect("a phase");
    assert_eq!(named.name, "one");
    assert!(build_phase(&json(r#"{"outcome": "PASS"}"#), Connector::OpenHtf, NOW).is_none());
}

fn unit(serial: Option<&str>) -> EngineUnit {
    EngineUnit {
        serial_number: serial.map(|s| s.to_string()),
        part_number: None,
        revision_number: None,
        batch_number: None,
        operated_by: None,
        sub_units: None,
        status: String::new(),
        metadata: None,
    }
}

fn wire(serial: &str) -> UnitInfo {
    UnitInfo {
        serial_number: Some(serial.to_string()),
        part_number: None,
        revision_number: None,
        batch_number: None,
        sub_units: Vec::new(),
    }
}

fn yaml_run(only_phase: Option<&str>, reuse: Option<UnitInfo>, units: Vec<KeyUnit>) -> YamlRun {
    YamlRun::new(
        false,
        false,
        "Proc".to_string(),
        "p".to_string(),
        "e".to_string(),
        None,
        only_phase.map(|s| s.to_string()),
        false,
        reuse,
        units,
    )
}

fn facts(slots: &[&str], unit: Option<UnitConfig>) -> ProcedureFacts {
    ProcedureFacts {
        workers: Some(2),
        slots: slots
            .iter()
            .map(|s| SlotDecl { key: s.to_string(), name: s.to_string() })
            .collect(),
        unit,
        operated_by: Some(Json::Bool(true)),
    }
}

fn initialized(run: &mut YamlRun, slots: &[&str], unit: Option<UnitConfig>) -> RunAction {
    run.step(RunEvent::Loaded(facts(slots, unit)), NOW);
    let checked = RunEvent::Checked { target_invalid: false, problems: Vec::new() };
    run.step(checked, NOW).action
}

#[test]
fn serial_and_part_number_are_always_asked() {
    let scanned = || UnitFieldConfig {
        default_value: Some("S".to_string()),
        settings: Some(json(r#"{"pattern":"^S"}"#)),
    };
    let parts = || json(r#"[{"key":"board"}]"#);
    let declared = UnitConfig {
        auto_identify: true,
        serial_number: Some(scanned()),
        sub_units: Some(parts()),
        ..UnitConfig::undeclared()
    };
    match initialized(&mut yaml_run(None, None, Vec::new()), &[], Some(declared)) {
        RunAction::Initialize { workers, slots, unit, operated_by, .. } => {
            assert_eq!(workers, 2);
            assert_eq!(slots, vec!["default".to_string()]);
            assert!(unit.auto_identify);
            assert_eq!(unit.serial_number, Some(scanned()));
            assert_eq!(unit.part_number, Some(UnitFieldConfig::new(None)));
            assert_eq!(unit.revision_number, None);
            assert_eq!(unit.sub_units, Some(parts()));
            assert_eq!(operated_by, Some(Json::Bool(true)));
        }
        other => panic!("{:?}", other),
    }
}

#[test]
fn narrowed_runs_are_marked() {
    let mut run = yaml_run(Some("one"), None, Vec::new());
    initialized(&mut run, &[], None);
    let mark = &run.sink.data.run_metadata_sources[0];
    assert_eq!(mark.source, "studio_partial_run");
    assert_eq!(mark.entries[0].value, Json::Text("one".to_string()));
    let mut run = yaml_run(None, None, Vec::new());
    initialized(&mut run, &[], None);
    assert!(run.sink.data.run_metadata_sources.is_empty());
}

#[test]
fn units_that_are_tested_again_are_not_asked() {
    let own = vec![KeyUnit { slot: "b".to_string(), unit: wire("SB") }];
    let mut run = yaml_run(None, Some(wire("SA")), own);
    initialized(&mut run, &["a", "b"], None);
    assert_eq!(run.step(RunEvent::Initialized, NOW).action, RunAction::Submit);
    let serials: Vec<Option<String>> =
        run.units.iter().map(|u| u.unit.serial_number.clone()).collect();
    assert_eq!(serials, vec![Some("SA".to_string()), Some("SB".to_string())]);
}

fn executing() -> YamlRun {
    let mut run = yaml_run(None, Some(wire("S")), Vec::new());
    initialized(&mut run, &[], None);
    run.step(RunEvent::Initialized, NOW);
    assert_eq!(run.step(RunEvent::Submitted, NOW).action, RunAction::Execute);
    run
}

fn stall() -> RunEvent {
    RunEvent::Stalled { seconds: 60, log_path: Some("/log".to_string()) }
}

#[test]
fn stalls_are_terminated_and_fail() {
    let mut run = executing();
    assert_eq!(run.step(stall(), NOW).action, RunAction::ForceKill);
    assert_eq!(run.step(RunEvent::Force, NOW).action, RunAction::Wait);
    let step = run.step(RunEvent::Finished(Some(Outcome::Pass)), NOW);
    assert_eq!(step.action, RunAction::ShutDown { watch_force: true });
    assert!(step.emissions.iter().any(|e| matches!(
        e,
        Emission::Station(StationEvent::RunCrashed { error, .. })
            if error.starts_with("Execution failed: The engine did not start executing within 60s")
                && error.ends_with(" Full event log: /log")
    )));
    let done = run.step(RunEvent::ShutDown, NOW);
    assert_eq!(done.action, RunAction::Done { exit_code: 1, upload: false });
    let after = run.step(RunEvent::Finished(Some(Outcome::Pass)), NOW);
    assert_eq!(after.action, RunAction::Wait);
    assert!(after.emissions.is_empty());
}

#[test]
fn engines_that_progress_are_not_stalled() {
    let mut run = executing();
    run.sink.emit(ExecutionEvent::Stats { start_time: Some(NOW) }, NOW);
    assert_eq!(run.step(stall(), NOW).action, RunAction::Wait);
}

#[test]
fn stops_count_once() {
    let mut run = executing();
    assert_eq!(run.step(RunEvent::Interrupt, NOW).action, RunAction::InterruptJobs);
    assert!(run.graceful);
    for event in [RunEvent::Stop, RunEvent::Interrupt] {
        assert_eq!(run.step(event, NOW).action, RunAction::Wait);
    }
    assert_eq!(run.step(RunEvent::Force, NOW).action, RunAction::ForceKill);
    for event in [RunEvent::Force, RunEvent::Stop, RunEvent::Interrupt] {
        assert_eq!(run.step(event, NOW).action, RunAction::Wait);
    }
    let step = run.step(RunEvent::Failed("killed".to_string()), NOW);
    assert_eq!(step.action, RunAction::ShutDown { watch_force: false });
}

#[test]
fn plans_and_units_are_no_progress() {
    let mut sink = CliEventSink::new(
        false,
        true,
        "Proc".to_string(),
        "p".to_string(),
        "e".to_string(),
        None,
        None,
        vec!["a".to_string()],
        Vec::new(),
    );
    sink.emit(
        ExecutionEvent::Plan {
            phases: Vec::new(),
            plugs_all: Vec::new(),
            plugs_each: Vec::new(),
            slots: Vec::new(),
        },
        NOW,
    );
    sink.emit(
        ExecutionEvent::UnitIdentified { slot_id: None, unit_info: unit(Some("S")) },
        NOW,
    );
    assert!(!sink.progressed);
    let long = "é".repeat(800);
    let out = sink.emit(
        ExecutionEvent::MeasurementRecorded {
            phase_key: "one".to_string(),
            slot_id: None,
            name: long.clone(),
            value: json("1"),
            unit: None,
        },
        NOW,
    );
    assert!(sink.progressed);
    assert!(matches!(
        &out[0],
        Emission::Agent(CliEvent::InternalWarning { kind, .. }) if kind == "measurement_truncated"
    ));
    assert!(matches!(
        &out[1],
        Emission::Agent(CliEvent::MeasurementRecorded { name, .. }) if *name == "é".repeat(512)
    ));
    assert!(matches!(
        &out[2],
        Emission::Station(StationEvent::MeasurementUpdate { measurement, .. })
            if measurement.name == long
    ));
}

#[test]
fn updates_that_know_nothing_change_nothing() {
    let mut data = RunData::new();
    apply_unit_info_to_run_data(&mut data, "a", &unit(Some("S")));
    let serial = |d: &RunData| d.units[0].unit.serial.clone();
    assert_eq!(serial(&data), Some("S".to_string()));
    apply_unit_info_to_run_data(&mut data, "a", &unit(None));
    assert_eq!(serial(&data), Some("S".to_string()));
    assert_eq!(data.units.len(), 1);
}

#[test]
fn crashes_are_followed_by_one_end() {
    let out = run_crashed(false, "p", "e", "kind", "why", 3);
    let ends: Vec<&StationEvent> = out
        .iter()
        .filter_map(|e| match e {
            Emission::Station(s @ StationEvent::RunComplete { .. }) => Some(s),
            _ => None,
        })
        .collect();
    assert_eq!(ends.len(), 1);
    assert!(matches!(
        ends[0],
        StationEvent::RunComplete { outcome, .. } if outcome == "ERROR"
    ));
    assert!(matches!(&out[0], Emission::Station(StationEvent::RunCrashed { .. })));
}

#[test]
fn events_are_written_in_order() {
    let mut emitter = Emitter::new();
    for i in 0..3 {
        let taken = emitter.enqueue(CliEvent::RunFinished {
            outcome: "PASS".to_string(),
            exit_code: i,
        });
        assert!(taken);
    }
    for i in 0..3u64 {
        let next = emitter.next().expect("an event");
        assert_eq!(next.seq, i);
        assert!(matches!(
            next.event,
            CliEvent::RunFinished { exit_code, .. } if exit_code as u64 == i
        ));
    }
    assert!(emitter.next().is_none());
}

#[test]
fn repeated_choices_are_recorded_once() {
    let option = |v: &str| UiOption { label: v.to_string(), value: v.to_string(), image: None };
    let list = UiComponent {
        key: "k".to_string(),
        options: Some(vec![option("a"), option("b")]),
        ..UiComponent::new(ComponentType::Multiselect)
    };
    let submit = |text: &str| SubmittedValue {
        key: "k".to_string(),
        value: json(text),
        numeric: None,
    };
    let twice = coerce_value(&list, &submit(r#"["b", "a", "b"]"#)).ok();
    let once = coerce_value(&list, &submit(r#"["b", "a"]"#)).ok();
    assert!(once.is_some());
    assert_eq!(twice, once);
    assert!(coerce_value(&list, &submit(r#"["c"]"#)).is_err());
}

#[test]
fn outcomes_have_words_of_their_own() {
    let all = [
        Outcome::Pass,
        Outcome::Fail,
        Outcome::Error,
        Outcome::Timeout,
        Outcome::Stop,
        Outcome::Skip,
        Outcome::Retry,
    ];
    let mut words: Vec<&str> = all.iter().map(|o| from_execution_outcome(*o)).collect();
    words.sort();
    words.dedup();
    assert_eq!(words.len(), 7);
}

#[test]
fn entries_that_are_brought_back_show_in_snapshots() {
    let run = QueuedRun {
        request: RunCreateRequest {
            outcome: RunGetOutcome::Fail,
            procedure_id: "p".to_string(),
            serial_number: "S".to_string(),
            started_at: NOW,
            ended_at: NOW,
            phases: Vec::new(),
            logs: None,
            part_number: None,
            revision_number: None,
            batch_number: None,
            sub_units: None,
            execution_id: None,
            slot_key: None,
            slot_name: None,
            metadata: None,
            unit_metadata: None,
            docstring: None,
            procedure_version: None,
            deployment_id: None,
            operated_by: None,
        },
        attachments: Vec::new(),
        run_id: Some("r".to_string()),
        attempt_count: 2,
        last_attempt_at: None,
        next_retry_at: None,
        parked: true,
        last_error: None,
        queued_at: Some("t".to_string()),
    };
    let back = retry_one(&run);
    assert!(!back.parked);
    assert_eq!(back.run_id, Some("r".to_string()));
    let entries = vec![QueueEntry { queue_id: "q".to_string(), run: back }];
    match &snapshot_events(&entries, NOW)[..] {
        [StationEvent::RunUploadQueued { queue_id, outcome, queued_at, .. }] => {
            assert_eq!(queue_id, "q");
            assert_eq!(outcome, "FAIL");
            assert_eq!(queued_at, "t");
        }
        other => panic!("{:?}", other),
    }
}
