use tofupilot_run::agent_proto::ctx::{PhaseHistory, RunLifecycle};
use tofupilot_run::agent_proto::emitter::{event_line, fallback_internal_error, Emitter};
use tofupilot_run::agent_proto::events::{
    CliCommand, CliEvent, RunStatus, SubmittedValue, UiAutoContinueSource, UiErrorReason,
};
use tofupilot_run::agent_proto::prebaked::{PhaseValues, PreBakedValues, ResolvedPath};
use tofupilot_run::agent_proto::reader::{
    command_text, initialize, parse_error, AgentSession, Options, ReaderAction,
};
use tofupilot_run::event_router::{Emission, EventRouter, PhaseFinished};
use tofupilot_run::json::Json;
use tofupilot_run::protocol::StationEvent;
use tofupilot_run::time::Instant;
use tofupilot_run::ui::{ComponentType, UiComponent, UiRequestData};

const NOW: Instant = Instant { secs: 1_767_225_600, nanos: 0 };

fn text_input(key: &str) -> UiComponent {
    UiComponent { key: key.to_string(), ..UiComponent::new(ComponentType::TextInput) }
}

fn prompt(id: &str) -> UiRequestData {
    UiRequestData {
        request_id: id.to_string(),
        job_id: "j".to_string(),
        pipe_path: String::new(),
        components: vec![text_input("serial")],
        requires_input: None,
        requires_user_input: true,
        phase_key: "identify".to_string(),
        slot_id: None,
    }
}

fn said(key: &str, value: &str) -> SubmittedValue {
    SubmittedValue { key: key.to_string(), value: Json::Text(value.to_string()), numeric: None }
}

fn session() -> AgentSession {
    let mut s = AgentSession::new(PreBakedValues::none(), Some(5000));
    s.mark_lifecycle(RunLifecycle::Running);
    s
}

fn respond(s: &mut AgentSession, id: &str, values: Vec<SubmittedValue>) -> (Vec<CliEvent>, ReaderAction) {
    let command = CliCommand::UiResponse { request_id: id.to_string(), values };
    let step = s.command(command, &PhaseHistory::default());
    (step.events, step.action)
}

fn reason(event: &CliEvent) -> UiErrorReason {
    match event {
        CliEvent::UiError { reason, .. } => *reason,
        other => panic!("expected a refusal, got {other:?}"),
    }
}

#[test]
fn prompts_are_answered_once() {
    let mut s = session();
    let step = s.handle_agent_ui_request(&prompt("r1"));
    assert!(matches!(step.events[0], CliEvent::UiRequest { .. }));
    assert_eq!(step.timeout, Some(5000));
    let (_, action) = respond(&mut s, "r1", vec![said("serial", "SN")]);
    match action {
        ReaderAction::Respond { request_id, values } => {
            assert_eq!(request_id, "r1");
            assert_eq!(values[0].text, "SN");
        }
        other => panic!("expected an answer, got {other:?}"),
    }
    let (events, action) = respond(&mut s, "r1", vec![said("serial", "SN")]);
    assert!(matches!(action, ReaderAction::Nothing));
    assert_eq!(reason(&events[0]), UiErrorReason::UnknownRequest);
}

#[test]
fn invalid_answers_can_be_mended() {
    let mut s = session();
    s.handle_agent_ui_request(&prompt("r1"));
    let (events, _) = respond(&mut s, "r1", Vec::new());
    assert_eq!(reason(&events[0]), UiErrorReason::MissingRequired);
    let (_, action) = respond(&mut s, "r1", vec![said("serial", "SN")]);
    assert!(matches!(action, ReaderAction::Respond { .. }));
}

#[test]
fn values_are_phases_of_values() {
    let text = r#"{"p": {"n": 1, "s": "x", "o": {"a": null}}, "q": {}}"#;
    let values = PreBakedValues::parse(text).expect("values");
    assert_eq!(values.phases.len(), 2);
    let p = values.for_phase("p").expect("a phase");
    let keys: Vec<&str> = p.iter().map(|v| v.key.as_str()).collect();
    assert_eq!(keys, vec!["n", "o", "s"]);
    assert_eq!(p[2].value, Json::Text("x".to_string()));
    assert!(p.iter().all(|v| v.numeric.is_none()));
    assert!(values.for_phase("q").expect("a phase").is_empty());
    assert!(values.for_phase("r").is_none());
    assert_eq!(PreBakedValues::parse("{}"), Some(PreBakedValues::none()));
    for refused in ["", "[]", "null", r#"{"p": 1}"#, r#"{"p": {}, "q": []}"#, r#"{"p": {}"#] {
        assert!(PreBakedValues::parse(refused).is_none(), "{refused}");
    }
    let array = Json::Array(Vec::new());
    assert!(PreBakedValues::from_json(&array).is_none());
}

#[test]
fn a_file_of_values_answers_prompts() {
    let given = PreBakedValues::parse(r#"{"identify": {"serial": " SN-9 "}}"#).expect("values");
    let mut s = AgentSession::new(given, None);
    let step = s.handle_agent_ui_request(&prompt("r1"));
    assert!(matches!(
        step.events[0],
        CliEvent::UiAutoContinue { source: UiAutoContinueSource::PreBaked, .. }
    ));
}

#[test]
fn given_values_answer_first() {
    let given = PreBakedValues {
        phases: vec![PhaseValues {
            phase_key: "identify".to_string(),
            values: vec![said("serial", "SN-7")],
        }],
    };
    assert!(given.for_phase("other").is_none());
    let mut s = AgentSession::new(given, None);
    let step = s.handle_agent_ui_request(&prompt("r1"));
    assert!(matches!(
        step.events[0],
        CliEvent::UiAutoContinue { source: UiAutoContinueSource::PreBaked, .. }
    ));
    assert_eq!(step.respond.expect("answered")[0].text, "SN-7");
    let (events, _) = respond(&mut s, "r1", vec![said("serial", "SN")]);
    assert_eq!(reason(&events[0]), UiErrorReason::UnknownRequest);
}

#[test]
fn timeouts_are_told_while_the_prompt_waits() {
    let mut s = session();
    s.handle_agent_ui_request(&prompt("r1"));
    assert!(matches!(s.ui_timed_out("r1", "identify"), Some(CliEvent::UiTimeout { .. })));
    assert!(s.ui_timed_out("r1", "identify").is_none());
}

#[test]
fn aborts_count_once_and_only_while_the_run_goes() {
    let mut s = session();
    let history = PhaseHistory::default();
    assert!(matches!(s.command(CliCommand::AbortRun, &history).action, ReaderAction::Abort));
    let again = s.command(CliCommand::AbortRun, &history);
    assert_eq!(reason(&again.events[0]), UiErrorReason::InvalidState);
    s.mark_lifecycle(RunLifecycle::Finished);
    let late = s.command(CliCommand::AbortRun, &history);
    assert_eq!(reason(&late.events[0]), UiErrorReason::InvalidState);
}

#[test]
fn snapshots_show_phases_and_the_open_prompt() {
    let mut s = session();
    s.handle_agent_ui_request(&prompt("r1"));
    let mut history = PhaseHistory::default();
    history.started("p", 1, None);
    let step = s.command(CliCommand::GetState, &history);
    match &step.events[0] {
        CliEvent::StateSnapshot { run_status, phases, active_ui_request } => {
            assert_eq!(*run_status, RunStatus::Running);
            assert_eq!(phases.len(), 1);
            assert_eq!(active_ui_request.as_ref().map(|r| r.request_id.as_str()), Some("r1"));
        }
        other => panic!("expected a snapshot, got {other:?}"),
    }
}

#[test]
fn lines_that_are_no_commands() {
    assert_eq!(command_text("  \n"), None);
    assert_eq!(command_text(" x "), Some("x".to_string()));
    assert_eq!(reason(&parse_error("x")), UiErrorReason::ParseError);
}

#[test]
fn sessions_start_in_json_mode_only() {
    let options = Options { ui_timeout_secs: Some(2), ui_values: None };
    let none = || Ok(PreBakedValues::none());
    assert!(initialize(false, false, "p", &options, none()).unwrap().is_none());
    assert!(initialize(true, true, "p", &options, none()).unwrap().is_none());
    let (s, event) = initialize(true, false, "p", &options, none()).unwrap().unwrap();
    assert_eq!(s.ui_timeout, Some(2000));
    assert_eq!(s.lifecycle_status(), RunStatus::Running);
    assert!(matches!(event, CliEvent::RunStarted { .. }));
    let with_file = Options { ui_timeout_secs: None, ui_values: Some("v.json".to_string()) };
    assert!(matches!(initialize(true, false, "p", &with_file, Err("bad".to_string())), Err(1)));
}

#[test]
fn value_files_stay_in_the_procedure() {
    let path = |display: &str, parts: &[&str]| -> Result<ResolvedPath, String> {
        Ok(ResolvedPath {
            display: display.to_string(),
            components: parts.iter().map(|s| s.to_string()).collect(),
        })
    };
    let root = path("/p", &["/", "p"]);
    let inside = path("/p/v", &["/", "p", "v"]);
    assert_eq!(PreBakedValues::check_location("v", "/p", &inside, &root), None);
    let outside = path("/pp/v", &["/", "pp", "v"]);
    let fault = PreBakedValues::check_location("v", "/p", &outside, &root).expect("refused");
    assert!(fault.contains("must be inside procedure directory"), "got: {fault}");
    let gone = PreBakedValues::check_location("v", "/p", &Err("gone".to_string()), &root);
    assert_eq!(gone, Some("Failed to resolve v: gone".to_string()));
}

#[test]
fn histories_mark_their_attempts() {
    let mut history = PhaseHistory::default();
    history.started("p", 1, None);
    history.started("p", 2, None);
    history.finished("p", 1, &None, "FAIL");
    history.skipped("q", Some("s1".to_string()));
    assert_eq!(history.phases.len(), 3);
    assert_eq!(history.phases[0].outcome.as_deref(), Some("FAIL"));
    assert_eq!(history.phases[0].status, "finished");
    assert_eq!(history.phases[1].status, "started");
    assert_eq!(history.phases[2].status, "skipped");
    assert_eq!(history.phases[2].outcome.as_deref(), Some("SKIP"));
}

fn finished_event() -> CliEvent {
    CliEvent::RunFinished { outcome: "PASS".to_string(), exit_code: 0 }
}

#[test]
fn nothing_follows_the_last_event() {
    let mut emitter = Emitter::new();
    assert!(emitter.enqueue(CliEvent::RunCrashed { exit_code: 1, stderr_tail: String::new() }));
    assert!(emitter.enqueue(finished_event()));
    emitter.finalize();
    assert!(!emitter.enqueue(finished_event()));
    let first = emitter.next().expect("the first");
    let second = emitter.next().expect("the second");
    assert_eq!(second.seq, first.seq + 1);
    assert!(matches!(second.event, CliEvent::RunFinished { .. }));
    assert!(emitter.next().is_none());
}

#[test]
fn event_lines_are_numbered() {
    let line = event_line(Ok(Json::parse(r#"{"type": "plan"}"#).unwrap()), 7);
    assert!(line.ends_with('\n'));
    let json = Json::parse(&line).unwrap();
    assert_eq!(json.get_int("seq"), Some(7));
    assert_eq!(json.get_text("type"), Some(&"plan".to_string()));
    let line = event_line(Err("cycle".to_string()), 8);
    let json = Json::parse(&line).unwrap();
    assert_eq!(json.get_text("type"), Some(&"internal_error".to_string()));
    assert_eq!(json.get_text("stage"), Some(&"serialize".to_string()));
    let json = Json::parse(&fallback_internal_error(9, "write", "x")).unwrap();
    assert_eq!(json.get_int("seq"), Some(9));
}

#[test]
fn phases_reach_station_and_agent() {
    let mut router = EventRouter::new("e".to_string(), true);
    let out = router.phase_started("p", "Phase", 1, None, None, NOW);
    assert!(matches!(
        &out[0],
        Emission::Station(StationEvent::PhaseStarted { execution_id, .. })
            if execution_id.as_deref() == Some("e")
    ));
    assert!(matches!(
        &out[1],
        Emission::Agent(CliEvent::PhaseStarted { started_at, .. })
            if started_at == "2026-01-01T00:00:00+00:00"
    ));
    let out = router.phase_finished(PhaseFinished {
        phase_key: "p".to_string(),
        phase_name: "Phase".to_string(),
        outcome: "PASS".to_string(),
        attempt: 1,
        slot_id: None,
        error: None,
        started_at: None,
        ended_at: None,
        duration_ms: Some(12),
        station_measurements: Vec::new(),
        station_logs: Vec::new(),
    });
    assert_eq!(out.len(), 2);
    assert_eq!(router.history.phases[0].outcome.as_deref(), Some("PASS"));
    let mut quiet = EventRouter::new("e".to_string(), false);
    assert_eq!(quiet.phase_started("p", "Phase", 1, None, None, NOW).len(), 1);
}
