use tofupilot_run::connector::detect::{
    contains_openhtf_requirement, contains_robotframework_requirement, dependency_files,
    has_openhtf, has_robot, is_pkgname_char,
};
use tofupilot_run::connector::request::{
    build_log, build_request, parse_outcome, parse_phase_outcome, Connector, ResolvedUnit,
    RunContext,
};
use tofupilot_run::connector::scripts::{script_files, OPENHTF_SCRIPT, ROBOT_LIBRARY, ROBOT_SCRIPT};
use tofupilot_run::connector::unit_config::build_unit_config_from_kwargs;
use tofupilot_run::engine::model::{EngineUnit, KeyText};
use tofupilot_run::engine::unit::unit_info_to_wire;
use tofupilot_run::json::Json;
use tofupilot_run::sdk::{RunCreateRequest, RunGetOutcome, RunGetPhasesOutcome};
use tofupilot_run::time::Instant;

fn entry(key: &str, text: &str) -> KeyText {
    KeyText { key: key.to_string(), text: text.to_string() }
}

fn kwargs(pairs: &[(&str, &str)]) -> Vec<KeyText> {
    pairs.iter().map(|(k, v)| entry(k, v)).collect()
}

fn json(text: &str) -> Json {
    Json::parse(text).expect("valid JSON")
}

fn no_files() -> Vec<Option<String>> {
    dependency_files().iter().map(|_| None).collect()
}

#[test]
fn openhtf_requirement_matches_bare_and_pinned() {
    assert!(contains_openhtf_requirement("openhtf"));
    assert!(contains_openhtf_requirement("openhtf>=1.6"));
    assert!(contains_openhtf_requirement("\"openhtf>=1.6\""));
    assert!(contains_openhtf_requirement("openhtf = \"^1.6\""));
    assert!(contains_openhtf_requirement("[[package]]\nname = \"openhtf\""));
}

#[test]
fn openhtf_requirement_rejects_substring_lookalikes() {
    assert!(!contains_openhtf_requirement("/my-openhtf-fork/setup.py"));
    assert!(!contains_openhtf_requirement("openhtfx"));
    assert!(!contains_openhtf_requirement("xopenhtf"));
    assert!(!contains_openhtf_requirement("my_openhtf_helper"));
    assert!(!contains_openhtf_requirement("no framework here"));
}

#[test]
fn openhtf_requirement_matches_at_string_boundaries() {
    assert!(contains_openhtf_requirement("openhtf\n"));
    assert!(contains_openhtf_requirement("\nopenhtf"));
}

#[test]
fn pkgname_char_classifies_identifier_bytes() {
    for b in b"az09_-" {
        assert!(is_pkgname_char(*b), "{} should be a pkgname char", *b as char);
    }
    for b in b" .\"/=\n[" {
        assert!(!is_pkgname_char(*b), "{} should not be a pkgname char", *b as char);
    }
}

#[test]
fn openhtf_is_found_in_any_case_and_any_file() {
    let mut files = no_files();
    assert!(!has_openhtf(&None, &files));
    files[2] = Some("name = \"OpenHTF\"".to_string());
    assert!(has_openhtf(&None, &files));
    assert!(has_openhtf(&Some(r#"{"framework": "openhtf"}"#.to_string()), &no_files()));
}

#[test]
fn build_unit_config_propagates_kwargs() {
    let cfg = build_unit_config_from_kwargs(
        &kwargs(&[
            ("serial_number", "SN-1"),
            ("part_number", "PCB"),
            ("revision_number", "A"),
            ("batch_number", "B-2026-W17"),
        ]),
        true,
    );
    assert!(cfg.auto_identify);
    assert_eq!(
        cfg.serial_number.as_ref().and_then(|f| f.default_value.as_deref()),
        Some("SN-1")
    );
    assert_eq!(cfg.part_number.as_ref().and_then(|f| f.default_value.as_deref()), Some("PCB"));
    assert_eq!(cfg.revision_number.as_ref().and_then(|f| f.default_value.as_deref()), Some("A"));
    assert_eq!(
        cfg.batch_number.as_ref().and_then(|f| f.default_value.as_deref()),
        Some("B-2026-W17")
    );
}

#[test]
fn build_unit_config_empty_strings_become_none_defaults() {
    let cfg = build_unit_config_from_kwargs(
        &kwargs(&[("serial_number", ""), ("part_number", "")]),
        true,
    );
    assert!(cfg.serial_number.as_ref().unwrap().default_value.is_none());
    assert!(cfg.part_number.as_ref().unwrap().default_value.is_none());
}

#[test]
fn build_unit_config_optional_fields_omitted_when_absent() {
    let cfg = build_unit_config_from_kwargs(
        &kwargs(&[("serial_number", "SN"), ("part_number", "PCB")]),
        false,
    );
    assert!(cfg.revision_number.is_none());
    assert!(cfg.batch_number.is_none());
}

#[test]
fn build_unit_config_keeps_required_slots_for_prompt_path() {
    let cfg = build_unit_config_from_kwargs(&kwargs(&[]), false);
    assert!(cfg.serial_number.is_some());
    assert!(cfg.part_number.is_some());
    assert!(cfg.revision_number.is_none());
    assert!(cfg.batch_number.is_none());
}

fn request(test_end: &str, unit: &ResolvedUnit) -> RunCreateRequest {
    let ctx = RunContext {
        procedure_id: "proc".to_string(),
        procedure_dir: "/tmp".to_string(),
        procedure_version: None,
        deployment_id: None,
        operated_by: None,
    };
    build_request(
        Connector::OpenHtf,
        &json(test_end),
        &None,
        &Vec::new(),
        unit,
        &ctx,
        Instant { secs: 0, nanos: 0 },
    )
}

fn resolved_unit() -> ResolvedUnit {
    ResolvedUnit {
        serial_number: Some("SN-CLI".to_string()),
        part_number: Some("PCB-CLI".to_string()),
        revision_number: Some("A".to_string()),
        batch_number: Some("BATCH-CLI".to_string()),
        sub_units: vec![entry("battery", "BAT-RESOLVED")],
    }
}

#[test]
fn build_request_user_metadata_overrides_resolved_unit() {
    let test_end = r#"{
        "outcome": "PASS",
        "dut_id": "SN-DUT",
        "start_time_millis": 0,
        "end_time_millis": 1,
        "metadata": {
            "serial_number": "SN-USER",
            "part_number": "PCB-USER",
            "revision_number": "B",
            "batch_number": "BATCH-USER",
            "sub_units": ["BAT-USER-1", "BAT-USER-2"]
        }
    }"#;
    let req = request(test_end, &resolved_unit());
    assert_eq!(req.serial_number, "SN-USER");
    assert_eq!(req.part_number.as_deref(), Some("PCB-USER"));
    assert_eq!(req.revision_number.as_deref(), Some("B"));
    assert_eq!(req.batch_number.as_deref(), Some("BATCH-USER"));
    assert_eq!(
        req.sub_units.as_deref(),
        Some(&["BAT-USER-1".to_string(), "BAT-USER-2".to_string()][..])
    );
}

#[test]
fn build_request_falls_back_to_resolved_unit_without_metadata() {
    let test_end = r#"{
        "outcome": "PASS",
        "dut_id": "SN-DUT",
        "start_time_millis": 0,
        "end_time_millis": 1
    }"#;
    let req = request(test_end, &resolved_unit());
    assert_eq!(req.serial_number, "SN-DUT");
    assert_eq!(req.part_number.as_deref(), Some("PCB-CLI"));
    assert_eq!(req.revision_number.as_deref(), Some("A"));
    assert_eq!(req.batch_number.as_deref(), Some("BATCH-CLI"));
    assert_eq!(req.sub_units.as_deref(), Some(&["BAT-RESOLVED".to_string()][..]));
}

#[test]
fn build_request_coerces_numeric_metadata_to_string() {
    let unit = ResolvedUnit {
        serial_number: Some("SN-CLI".to_string()),
        part_number: None,
        revision_number: None,
        batch_number: Some("BATCH-CLI".to_string()),
        sub_units: Vec::new(),
    };
    let test_end = r#"{
        "outcome": "PASS",
        "dut_id": "SN-CLI",
        "start_time_millis": 0,
        "end_time_millis": 1,
        "metadata": {
            "batch_number": 42,
            "revision_number": true
        }
    }"#;
    let req = request(test_end, &unit);
    assert_eq!(req.batch_number.as_deref(), Some("42"));
    assert_eq!(req.revision_number.as_deref(), Some("true"));
}

#[test]
fn request_carries_its_window_and_outcome() {
    let req = request(
        r#"{"outcome": "FAIL", "dut_id": "S", "start_time_millis": 1500, "end_time_millis": 2250}"#,
        &resolved_unit(),
    );
    assert_eq!(req.outcome, RunGetOutcome::Fail);
    assert_eq!(req.started_at, Instant { secs: 1, nanos: 500_000_000 });
    assert_eq!(req.ended_at, Instant { secs: 2, nanos: 250_000_000 });
    assert_eq!(req.procedure_id, "proc");
}

#[test]
fn outcome_words_of_a_connector() {
    assert_eq!(parse_outcome("PASS"), RunGetOutcome::Pass);
    assert_eq!(parse_outcome("FAIL"), RunGetOutcome::Fail);
    assert_eq!(parse_phase_outcome("SKIP"), RunGetPhasesOutcome::Skip);
}

#[test]
fn unit_info_to_wire_round_trips_fields() {
    let info = EngineUnit {
        serial_number: Some("SN".to_string()),
        part_number: Some("PCB".to_string()),
        revision_number: Some("A".to_string()),
        batch_number: None,
        operated_by: None,
        sub_units: Some(vec![entry("battery", "BAT-1")]),
        status: "complete".to_string(),
        metadata: None,
    };
    let wire = unit_info_to_wire(&info);
    assert_eq!(wire.serial_number.as_deref(), Some("SN"));
    assert_eq!(wire.part_number.as_deref(), Some("PCB"));
    assert_eq!(wire.revision_number.as_deref(), Some("A"));
    assert!(wire.batch_number.is_none());
    assert_eq!(
        wire.sub_units.iter().find(|e| e.key == "battery").map(|e| e.text.as_str()),
        Some("BAT-1")
    );
}

#[test]
fn robotframework_requirement_matches_whole_token_only() {
    assert!(contains_robotframework_requirement("robotframework"));
    assert!(contains_robotframework_requirement("robotframework==7.0"));
    assert!(contains_robotframework_requirement("\"robotframework>=6\""));
    // `robotframework-seleniumlibrary` is a different package.
    assert!(!contains_robotframework_requirement("robotframework-seleniumlibrary"));
    assert!(!contains_robotframework_requirement("myrobotframework"));
    assert!(!contains_robotframework_requirement("robot"));
}

#[test]
fn detects_robot_via_robot_file() {
    assert!(has_robot(&None, &no_files(), &vec!["tests.robot".to_string()]));
}

#[test]
fn detects_robot_via_pyproject_dependency() {
    let mut files = no_files();
    files[0] = Some(
        r#"
[project]
name = "x"
version = "0.1"
dependencies = ["robotframework>=7"]
"#
        .to_string(),
    );
    assert!(has_robot(&None, &files, &vec!["pyproject.toml".to_string()]));
}

#[test]
fn detects_robot_via_manifest() {
    let manifest = Some(r#"{"framework": "robot"}"#.to_string());
    assert!(has_robot(&manifest, &no_files(), &Vec::new()));
}

#[test]
fn rejects_robotframework_subname() {
    assert!(!contains_robotframework_requirement("robotframework-fork>=1.0"));
    assert!(contains_robotframework_requirement("robotframework>=7"));
}

#[test]
fn rejects_empty_dir() {
    assert!(!has_robot(&None, &no_files(), &Vec::new()));
}

#[test]
fn scripts_come_with_the_run() {
    let names = |connector, there| -> Vec<String> {
        script_files(connector, there).into_iter().map(|f| f.name).collect()
    };
    assert_eq!(names(Connector::OpenHtf, false), vec![OPENHTF_SCRIPT]);
    assert_eq!(names(Connector::OpenHtf, true), vec![OPENHTF_SCRIPT]);
    assert_eq!(names(Connector::Robot, false), vec![ROBOT_SCRIPT, ROBOT_LIBRARY]);
    assert_eq!(names(Connector::Robot, true), vec![ROBOT_SCRIPT]);
    let files = script_files(Connector::Robot, false);
    assert_eq!(files[0].label, "Robot listener");
    assert!(files[0].replaces);
    assert_eq!(files[1].label, "tofupilot_robot library");
    assert!(!files[1].replaces);
}

#[test]
fn times_keep_to_the_calendar() {
    let now = Instant { secs: 7, nanos: 8 };
    let at = |millis: i64| {
        let log = Json::parse(&format!(r#"{{"timestamp_millis": {millis}}}"#)).expect("JSON");
        build_log(&log, "/p", now).expect("a log").timestamp
    };
    assert_eq!(at(-1), Instant { secs: -1, nanos: 999_000_000 });
    assert_eq!(at(1500), Instant { secs: 1, nanos: 500_000_000 });
    let last = 8_210_266_876_799_999;
    assert_eq!(at(last), Instant { secs: 8_210_266_876_799, nanos: 999_000_000 });
    assert_eq!(at(last + 1), now);
    let first = -8_334_601_228_800_000;
    assert_eq!(at(first), Instant { secs: -8_334_601_228_800, nanos: 0 });
    assert_eq!(at(first - 1), now);
}
