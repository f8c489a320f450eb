use tofupilot_run::console::{
    console_log_event, measurement_line, slot, slot_prefix, ConsoleLevel, ConsoleLine,
};
use tofupilot_run::json::Json;
use tofupilot_run::protocol::{RunMeasurement, StationEvent};

fn measurement(value: Option<Json>, units: Option<&str>) -> RunMeasurement {
    RunMeasurement {
        name: "v".to_string(),
        outcome: "PASS".to_string(),
        measured_value: value,
        units: units.map(|s| s.to_string()),
        validators: Vec::new(),
        aggregations: Vec::new(),
    }
}

fn line(level: ConsoleLevel, text: &str) -> ConsoleLine {
    ConsoleLine { level, text: text.to_string() }
}

#[test]
fn measurements_in_a_line() {
    let number = Json::parse("3.5").unwrap();
    assert_eq!(measurement_line(&measurement(Some(number), Some("V"))), "v = 3.5 V [PASS]");
    let text = Json::Text("ok".to_string());
    assert_eq!(measurement_line(&measurement(Some(text), None)), "v = ok [PASS]");
    assert_eq!(measurement_line(&measurement(None, None)), "v = — [PASS]");
    assert_eq!(measurement_line(&measurement(Some(Json::Null), None)), "v = — [PASS]");
}

#[test]
fn only_real_slots_are_shown() {
    assert_eq!(slot(&Some("s1".to_string())), " (slot s1)");
    assert_eq!(slot_prefix(&Some("s1".to_string())), "[slot s1] ");
    for none in [None, Some(String::new()), Some("default".to_string())] {
        assert_eq!(slot(&none), "");
        assert_eq!(slot_prefix(&none), "");
    }
}

#[test]
fn levels_by_word() {
    assert_eq!(ConsoleLevel::from_log_level("error"), ConsoleLevel::Error);
    assert_eq!(ConsoleLevel::from_log_level("Critical"), ConsoleLevel::Error);
    assert_eq!(ConsoleLevel::from_log_level("WARN"), ConsoleLevel::Warn);
    assert_eq!(ConsoleLevel::from_log_level("debug"), ConsoleLevel::Info);
    assert_eq!(ConsoleLevel::from_outcome("PASS"), ConsoleLevel::Success);
    assert_eq!(ConsoleLevel::from_outcome("XPASS"), ConsoleLevel::Success);
    assert_eq!(ConsoleLevel::from_outcome("SKIP"), ConsoleLevel::Info);
    assert_eq!(ConsoleLevel::from_outcome("RETRY"), ConsoleLevel::Warn);
    assert_eq!(ConsoleLevel::from_outcome("ABORTED"), ConsoleLevel::Error);
}

#[test]
fn phases_show_measurements_and_errors() {
    let event = StationEvent::PhaseComplete {
        phase_key: "p".to_string(),
        name: "Power".to_string(),
        outcome: "FAIL".to_string(),
        measurements: vec![measurement(None, None)],
        slot_id: Some("s1".to_string()),
        attempt: 1,
        started_at: None,
        ended_at: None,
        duration_ms: None,
        error: Some("too high\n".to_string()),
        logs: Vec::new(),
        execution_id: None,
    };
    assert_eq!(
        console_log_event(&event),
        vec![
            line(ConsoleLevel::Error, "Phase Power: FAIL (slot s1)"),
            line(ConsoleLevel::Info, "  v = — [PASS]"),
            line(ConsoleLevel::Error, "too high"),
        ]
    );
}

fn plug_log(level: &str) -> StationEvent {
    StationEvent::PlugLog {
        plug_key: "k".to_string(),
        plug_name: "psu".to_string(),
        level: level.to_string(),
        message: "m".to_string(),
        slot_id: None,
        stage: None,
        timestamp: None,
        line: None,
        execution_id: None,
    }
}

#[test]
fn plug_chatter_is_hidden() {
    assert!(console_log_event(&plug_log("INFO")).is_empty());
    assert_eq!(
        console_log_event(&plug_log("warning")),
        vec![line(ConsoleLevel::Warn, "[psu] m")]
    );
}

#[test]
fn ends_and_uploads_are_shown() {
    let crashed = StationEvent::RunCrashed {
        procedure_id: "p".to_string(),
        error: "  \n".to_string(),
        error_kind: "load_error".to_string(),
        execution_id: None,
    };
    assert!(console_log_event(&crashed).is_empty());
    let uploaded = StationEvent::RunUploaded {
        procedure_id: "p".to_string(),
        run_id: "r".to_string(),
        dashboard_url: Some("https://x".to_string()),
    };
    assert_eq!(
        console_log_event(&uploaded),
        vec![line(ConsoleLevel::Success, "Uploaded to dashboard — https://x")]
    );
    let complete = StationEvent::RunComplete {
        outcome: "PASS".to_string(),
        run_id: None,
        execution_id: None,
        slot_outcomes: Vec::new(),
    };
    assert_eq!(
        console_log_event(&complete),
        vec![line(ConsoleLevel::Success, "Run complete: PASS")]
    );
}
