use tofupilot_run::agent_proto::emitter::Emitter;
use tofupilot_run::agent_proto::events::CliEvent;
use tofupilot_run::agent_proto::prebaked::PreBakedValues;
use tofupilot_run::agent_proto::reader::AgentSession;
use tofupilot_run::connector::pump::{setup_failed, Pump};
use tofupilot_run::connector::request::{json_aggregations, json_validators, Connector};
use tofupilot_run::engine::model::{KeyText, SlotAttachment};
use tofupilot_run::engine::request::RequestContext;
use tofupilot_run::engine::run::queue_runs;
use tofupilot_run::engine::sink::CliEventSink;
use tofupilot_run::event_router::{Emission, EventRouter};
use tofupilot_run::identify_host::{register, withdraw, CliIdentifyHost, PromptRequest};
use tofupilot_run::json::Json;
use tofupilot_run::protocol::StationEvent;
use tofupilot_run::queue::QueuedAttachment;
use tofupilot_run::sdk::{MeasurementOutcome, RunGetOutcome};
use tofupilot_run::time::Instant;
use tofupilot_run::ui::{ComponentType, UiComponent};

const NOW: Instant = Instant { secs: 1_767_225_600, nanos: 0 };

fn list(text: &str) -> Vec<Json> {
    match Json::parse(text) {
        Some(Json::Array(items)) => items,
        other => panic!("not a list: {:?}", other),
    }
}

#[test]
fn aggregations_need_a_type() {
    let read = json_aggregations(&list(
        "[{\"type\":\"mean\",\"value\":2,\"unit\":\"V\",\"outcome\":\"PASS\",\
         \"validators\":[{\"operator\":\">=\",\"expected_value\":1}]},{\"value\":3},\
         {\"type\":\"max\",\"value\":null,\"validators\":[]}]",
    ));
    assert_eq!(read.len(), 2);
    assert_eq!(read[0].aggregation_type, "mean");
    assert_eq!(read[0].value, Json::parse("2"));
    assert_eq!(read[0].unit, Some("V".to_string()));
    assert_eq!(read[0].outcome, Some(MeasurementOutcome::Pass));
    assert_eq!(read[0].validators.as_ref().map(Vec::len), Some(1));
    assert_eq!(read[1].aggregation_type, "max");
    assert_eq!(read[1].value, None);
    assert_eq!(read[1].validators, None);
}

#[test]
fn validators_are_read_field_by_field() {
    let read = json_validators(&list(
        "[{\"operator\":\"<\",\"expected_value\":null,\"outcome\":\"odd\",\"is_decisive\":true}]",
    ));
    assert_eq!(read[0].operator, Some("<".to_string()));
    assert_eq!(read[0].expected_value, None);
    assert_eq!(read[0].outcome, Some(MeasurementOutcome::Unset));
    assert_eq!(read[0].is_decisive, Some(true));
}

fn file(slot: Option<&str>, name: &str) -> SlotAttachment {
    SlotAttachment {
        slot: slot.map(|s| s.to_string()),
        attachment: QueuedAttachment {
            name: name.to_string(),
            path: format!("/files/{name}"),
            mimetype: "text/plain".to_string(),
            phase_key: "p".to_string(),
        },
    }
}

fn two_slots() -> CliEventSink {
    let mut sink = CliEventSink::new(
        false,
        false,
        "Name".to_string(),
        "proc".to_string(),
        "exec".to_string(),
        None,
        None,
        vec!["a".to_string(), "b".to_string()],
        vec![KeyText { key: "b".to_string(), text: "Right".to_string() }],
    );
    sink.data.attachments = vec![file(None, "shared"), file(Some("b"), "own")];
    sink
}

fn context() -> RequestContext {
    RequestContext {
        procedure_id: "proc".to_string(),
        procedure_dir: "/proc".to_string(),
        procedure_version: Some("1.0".to_string()),
        deployment_id: None,
        operated_by: None,
        operated_by_max: 250,
    }
}

#[test]
fn every_slot_gets_a_run_of_its_own() {
    let copies = vec![vec![None], vec![Some("/files/b.shared".to_string()), None]];
    let runs = queue_runs(&two_slots(), &context(), &copies, false, NOW);
    assert_eq!(runs.len(), 2);
    assert_eq!(runs[0].request.slot_key, Some("a".to_string()));
    assert_eq!(runs[0].request.slot_name, None);
    assert_eq!(runs[0].request.execution_id, Some("exec".to_string()));
    assert_eq!(runs[0].request.outcome, RunGetOutcome::Error);
    assert_eq!(runs[0].request.procedure_version, Some("1.0".to_string()));
    assert_eq!(runs[0].attachments, vec![file(None, "shared").attachment]);
    assert_eq!(runs[1].request.slot_name, Some("Right".to_string()));
    let paths: Vec<&str> = runs[1].attachments.iter().map(|a| a.path.as_str()).collect();
    assert_eq!(paths, vec!["/files/b.shared", "/files/own"]);
    assert_eq!(runs[1].attempt_count, 0);
    assert_eq!(runs[1].queued_at, None);
}

#[test]
fn a_copy_that_failed_is_left_out() {
    let runs = queue_runs(&two_slots(), &context(), &vec![Vec::new(), vec![None]], false, NOW);
    let names: Vec<&str> = runs[1].attachments.iter().map(|a| a.name.as_str()).collect();
    assert_eq!(names, vec!["own"]);
}

#[test]
fn nothing_is_queued_behind_a_deadline() {
    assert!(queue_runs(&two_slots(), &context(), &Vec::new(), true, NOW).is_empty());
}

fn host(has_ui: bool) -> CliIdentifyHost {
    CliIdentifyHost {
        router: EventRouter::new("exec".to_string(), true),
        has_terminal: false,
        procedure_id: "proc".to_string(),
        has_ui,
    }
}

#[test]
fn unit_prompts_are_registered_and_withdrawn() {
    assert!(host(true).can_prompt());
    assert!(!host(false).can_prompt());
    let request = PromptRequest {
        request_id: "r1".to_string(),
        slot_id: None,
        phase_key: "identify".to_string(),
        components: Vec::new(),
    };
    let mut session = AgentSession::new(PreBakedValues::none(), None);
    register(&mut session, &request);
    assert_eq!(session.pending.get("r1").map(|p| p.phase_key.as_str()), Some("identify"));
    withdraw(&mut session, "r2");
    assert!(session.pending.get("r1").is_some());
    withdraw(&mut session, "r1");
    assert!(session.pending.get("r1").is_none());
    register(&mut session, &request);
    session.close();
    assert!(session.pending.first_entry().is_none());
}

fn pump(json_mode: bool, agent: bool) -> Pump {
    Pump::new(
        Connector::Robot,
        "proc".to_string(),
        "Name".to_string(),
        "exec".to_string(),
        agent,
        None,
        false,
        json_mode,
        None,
        Some("dep".to_string()),
    )
}

#[test]
fn lines_are_echoed_without_an_agent() {
    assert!(pump(true, false).echoes());
    assert!(!pump(true, true).echoes());
    assert!(!pump(false, false).echoes());
}

#[test]
fn failed_setups_crash_the_run() {
    let out = setup_failed(true, "proc", "exec", "no listener");
    assert!(out.iter().any(|e| matches!(
        e,
        Emission::Station(StationEvent::RunCrashed { error, .. }) if error == "no listener"
    )));
    assert!(out.iter().any(|e| matches!(
        e,
        Emission::Agent(CliEvent::RunCrashed { exit_code: 1, .. })
    )));
}

#[test]
fn dead_streams_take_nothing() {
    let mut emitter = Emitter::new();
    let event = || CliEvent::UiTimeout {
        request_id: "r".to_string(),
        phase_key: "p".to_string(),
    };
    assert!(emitter.enqueue(event()));
    emitter.die();
    assert!(!emitter.enqueue(event()));
    assert!(emitter.next().is_none());
}

#[test]
fn prompts_keep_how_they_are_shown() {
    let style = || Json::parse(r#"{"size":"lg","columns":2}"#);
    let shown = UiComponent {
        key: "photo".to_string(),
        style: style(),
        ..UiComponent::new(ComponentType::Image)
    };
    let router = EventRouter::new("e".to_string(), true);
    let out = router.ui_request("r", "p", None, &vec![shown], false, NOW);
    match &out[0] {
        Emission::Station(StationEvent::UiRequest { components: Some(parts), .. }) => {
            assert!(style().is_some());
            assert_eq!(parts[0].style, style());
        }
        other => panic!("expected the prompt, got {:?}", other),
    }
}
