use tofupilot_run::connector::events::PythonEvent;
use tofupilot_run::engine::model::KeyText;
use tofupilot_run::json::Json;

fn event(text: &str) -> Option<PythonEvent> {
    PythonEvent::from_value(&Json::parse(text).expect("valid JSON"))
}

fn find<'a>(list: &'a [KeyText], key: &str) -> Option<&'a str> {
    list.iter().find(|e| e.key == key).map(|e| e.text.as_str())
}

#[test]
fn test_start_round_trips_unit_kwargs() {
    let raw = r#"{
        "type": "test_start",
        "test_name": "",
        "phases": ["hello"],
        "identify": true,
        "auto_identify": true,
        "unit_kwargs": {
            "serial_number": "SN-1",
            "part_number": "PCB",
            "revision_number": "",
            "batch_number": ""
        }
    }"#;
    match event(raw).unwrap() {
        PythonEvent::TestStart { identify, auto_identify, unit_kwargs, .. } => {
            assert!(identify);
            assert!(auto_identify);
            assert_eq!(find(&unit_kwargs, "serial_number"), Some("SN-1"));
            assert_eq!(find(&unit_kwargs, "part_number"), Some("PCB"));
        }
        other => panic!("expected TestStart, got {:?}", other),
    }
}

#[test]
fn test_start_minimal_payload_defaults_identify_true() {
    let raw = r#"{"type": "test_start", "test_name": "", "phases": []}"#;
    match event(raw).unwrap() {
        PythonEvent::TestStart { identify, auto_identify, unit_kwargs, .. } => {
            assert!(identify);
            assert!(!auto_identify);
            assert!(unit_kwargs.is_empty());
        }
        other => panic!("expected TestStart, got {:?}", other),
    }
}

#[test]
fn prompt_ignores_unknown_fields() {
    let raw = r#"{"type": "prompt", "prompt_id": "p1", "message": "hi", "text_input": true}"#;
    assert!(matches!(event(raw).unwrap(), PythonEvent::Prompt { .. }));
}

#[test]
fn fields_that_nobody_knows_are_ignored() {
    let raw = r#"{"type": "phase_begin", "name": "p", "more": 1}"#;
    match event(raw).unwrap() {
        PythonEvent::PhaseBegin { name } => assert_eq!(name, "p"),
        other => panic!("expected PhaseBegin, got {:?}", other),
    }
}

#[test]
fn unknown_types_are_told_apart_from_no_events() {
    assert!(matches!(event(r#"{"type": "no_such_event"}"#), Some(PythonEvent::Unknown)));
    assert!(event(r#"{"test_name": "x"}"#).is_none());
}

#[test]
fn wrong_field_types_are_no_events() {
    assert!(event(r#"{"type": "test_start", "test_name": 1, "phases": []}"#).is_none());
    assert!(event(r#"{"type": "test_start", "test_name": "", "phases": [1]}"#).is_none());
}

#[test]
fn lists_hold_no_more_than_the_event_has() {
    assert!(matches!(event(r#"["bridge_ready"]"#), Some(PythonEvent::BridgeReady)));
    assert!(event(r#"["bridge_ready", 1]"#).is_none());
    assert!(matches!(event(r#"["no_such_event"]"#), Some(PythonEvent::Unknown)));
    assert!(event(r#"["no_such_event", 1]"#).is_none());
    assert!(matches!(event(r#"["warning", "w"]"#), Some(PythonEvent::Warning { .. })));
    assert!(event(r#"["warning", "w", 1]"#).is_none());
}
