use tofupilot_run::engine::caps::{
    cap_measurement_value, cap_string, cap_warning_detail, truncate_for_log,
    MAX_MEASUREMENT_VALUE_BYTES, MAX_WARNING_DETAIL_BYTES,
};
use tofupilot_run::engine::measurement::{
    build_measurement, format_validator_expression, synthesize_measurement_error,
};
use tofupilot_run::engine::metadata::{
    cap_metadata_keys, fold_metadata_sources, upsert_metadata_source,
};
use tofupilot_run::engine::model::{
    AggregationSpec, AggregationValue, Axis, AxisData, CompletedPhase, EngineUnit, KeyText,
    Measurement, MetadataSource, MultiDimensional, Outcome, RunData, ShownNumber, SlotAttachment,
    SlotOutcome, SlotUnit, UnitSnapshot, ValidatorExpectedValue, ValidatorOutcome, ValidatorSpec,
};
use tofupilot_run::engine::request::{
    build_run_request, dropped_metadata, RequestContext, SlotStamp,
};
use tofupilot_run::engine::run::{
    attachments_for_slot, deployment_layout, find_procedure_yaml, plan_attachments, ManifestParts,
};
use tofupilot_run::engine::unit::{
    apply_unit_info_to_run_data, unit_info_to_wire, wire_unit_to_engine,
};
use tofupilot_run::json::{Json, JsonField, JsonNumber};
use tofupilot_run::paths::PathParts;
use tofupilot_run::queue::QueuedAttachment;
use tofupilot_run::sdk::{MeasurementOutcome, RunCreateRequest, RunGetOutcome};
use tofupilot_run::time::Instant;

const OPERATED_BY_MAX: u32 = 250;
const NOW: Instant = Instant { secs: 1_767_225_600, nanos: 0 };

fn at(seconds: i64) -> Instant {
    Instant { secs: NOW.secs + seconds, nanos: 0 }
}

fn no_unit() -> UnitSnapshot {
    UnitSnapshot {
        serial: None,
        part: None,
        revision: None,
        batch: None,
        operated_by: None,
        sub_units: None,
    }
}

fn unit(slot: &str, serial: &str) -> SlotUnit {
    SlotUnit {
        slot: slot.to_string(),
        unit: UnitSnapshot { serial: Some(serial.to_string()), ..no_unit() },
    }
}

fn empty_run_data() -> RunData {
    RunData {
        phases: Vec::new(),
        run_outcome: None,
        slot_outcomes: Vec::new(),
        run_id: None,
        start_time: None,
        end_time: None,
        units: vec![unit("default", "SN-TEST")],
        run_metadata_sources: Vec::new(),
        unit_metadata_sources: Vec::new(),
        attachments: Vec::new(),
    }
}

fn context() -> RequestContext {
    RequestContext {
        procedure_id: "proc-1".to_string(),
        procedure_dir: "/proc".to_string(),
        procedure_version: None,
        deployment_id: None,
        operated_by: None,
        operated_by_max: OPERATED_BY_MAX,
    }
}

fn build_single(data: &RunData) -> RunCreateRequest {
    build_run_request(data, "default", &None, &context(), NOW)
}

fn build_slot(data: &RunData, slot: &str, name: Option<&str>) -> RunCreateRequest {
    let stamp = SlotStamp {
        execution_id: "exec-1".to_string(),
        slot_key: slot.to_string(),
        slot_name: name.map(|s| s.to_string()),
    };
    build_run_request(data, slot, &Some(stamp), &context(), NOW)
}

fn text(s: &str) -> Json {
    Json::Text(s.to_string())
}

fn whole(n: i64) -> Json {
    Json::parse(&n.to_string()).expect("a number")
}

fn md(pairs: &[(&str, Json)]) -> Vec<JsonField> {
    pairs
        .iter()
        .map(|(k, v)| JsonField {
            key: k.to_string(),
            value: Json::parse(&v.render()).expect("JSON"),
        })
        .collect()
}

fn find<'a>(fields: &'a [JsonField], key: &str) -> Option<&'a Json> {
    fields.iter().find(|f| f.key == key).map(|f| &f.value)
}

#[test]
fn build_run_request_populates_metadata() {
    let mut data = empty_run_data();
    data.run_metadata_sources.push(MetadataSource {
        slot: None,
        source: "phase_a".to_string(),
        entries: md(&[("modification", text("MOD-42"))]),
    });
    data.unit_metadata_sources.push(MetadataSource {
        slot: None,
        source: "phase_a".to_string(),
        entries: md(&[
            ("asset_owner", text("lab-3")),
            ("cycles", whole(3)),
            ("calibrated", Json::Bool(true)),
        ]),
    });

    let req = build_single(&data);

    let rmd = req.metadata.expect("run metadata set");
    assert_eq!(find(&rmd, "modification"), Some(&text("MOD-42")));

    let umd = req.unit_metadata.expect("unit metadata set");
    assert_eq!(find(&umd, "asset_owner"), Some(&text("lab-3")));
    assert_eq!(find(&umd, "cycles"), Some(&whole(3)));
    assert_eq!(find(&umd, "calibrated"), Some(&Json::Bool(true)));
}

#[test]
fn operated_by_over_the_ceiling_is_clamped_not_dropped() {
    let mut data = empty_run_data();
    data.units[0].unit.operated_by = Some("x".repeat(300));
    let req = build_single(&data);
    assert_eq!(req.operated_by.as_deref(), Some("x".repeat(OPERATED_BY_MAX as usize).as_str()));
}

#[test]
fn operated_by_is_clamped_on_characters_not_bytes() {
    let mut data = empty_run_data();
    let name = "é".repeat(200);
    data.units[0].unit.operated_by = Some(name.clone());
    let req = build_single(&data);
    assert_eq!(req.operated_by.as_deref(), Some(name.as_str()));
}

#[test]
fn retry_replaces_phase_metadata_source() {
    let mut sources = Vec::new();
    upsert_metadata_source(
        &mut sources,
        &None,
        "check_voltage",
        md(&[("error_code", text("E42"))]),
    );
    upsert_metadata_source(&mut sources, &None, "check_voltage", md(&[]));
    let merged = fold_metadata_sources(&sources, "default");
    assert!(find(&merged, "error_code").is_none());
}

#[test]
fn identify_source_stays_first_and_is_overridable() {
    let mut sources = Vec::new();
    upsert_metadata_source(
        &mut sources,
        &None,
        "identify_unit",
        md(&[("modification", text("MOD-1"))]),
    );
    upsert_metadata_source(&mut sources, &None, "phase_a", md(&[("modification", text("MOD-42"))]));
    // Re-identify replaces in place, staying before phase_a
    upsert_metadata_source(
        &mut sources,
        &None,
        "identify_unit",
        md(&[("modification", text("MOD-2"))]),
    );
    let merged = fold_metadata_sources(&sources, "default");
    assert_eq!(find(&merged, "modification"), Some(&text("MOD-42")));
}

#[test]
fn build_run_request_omits_empty_metadata() {
    let req = build_single(&empty_run_data());
    assert!(req.metadata.is_none());
    assert!(req.unit_metadata.is_none());
}

#[test]
fn run_metadata_later_sources_win_per_key() {
    let mut sources = Vec::new();
    upsert_metadata_source(
        &mut sources,
        &None,
        "phase_a",
        md(&[("line", text("L3")), ("modification", text("MOD-1"))]),
    );
    upsert_metadata_source(&mut sources, &None, "phase_b", md(&[("modification", text("MOD-42"))]));
    let merged = fold_metadata_sources(&sources, "default");
    assert_eq!(find(&merged, "modification"), Some(&text("MOD-42")));
    assert_eq!(find(&merged, "line"), Some(&text("L3")));
}

fn numbered(n: i64) -> Vec<JsonField> {
    (0..n).map(|i| JsonField { key: format!("k{i:02}"), value: whole(i) }).collect()
}

#[test]
fn cap_metadata_keys_under_limit_unchanged() {
    assert_eq!(cap_metadata_keys(&numbered(50)).0.len(), 50);
}

#[test]
fn cap_metadata_keys_drops_sorted_tail() {
    let (capped, dropped) = cap_metadata_keys(&numbered(60));
    assert_eq!(capped.len(), 50);
    // Sorted order: k00..k49 kept, k50..k59 dropped
    assert!(find(&capped, "k00").is_some());
    assert!(find(&capped, "k49").is_some());
    assert!(find(&capped, "k50").is_none());
    assert_eq!(dropped.len(), 10);
    assert_eq!(dropped[0], "k50");
}

#[test]
fn dropped_metadata_of_a_slot() {
    let source = |slot: Option<&str>, name: &str, entries| MetadataSource {
        slot: slot.map(|s| s.to_string()),
        source: name.to_string(),
        entries,
    };
    let sources = vec![
        source(None, "phase_a", numbered(50)),
        source(Some("s1"), "phase_b", md(&[("zz", whole(1)), ("k00", whole(2))])),
        source(Some("s2"), "phase_b", md(&[("k49", whole(1))])),
    ];
    assert_eq!(dropped_metadata(&sources, "s1"), vec!["zz".to_string()]);
    assert!(dropped_metadata(&sources, "s2").is_empty());
}

fn engine_unit() -> EngineUnit {
    EngineUnit {
        serial_number: None,
        part_number: None,
        revision_number: None,
        batch_number: None,
        operated_by: None,
        sub_units: None,
        status: "complete".to_string(),
        metadata: None,
    }
}

#[test]
fn apply_unit_info_metadata_lands_in_unit_metadata() {
    let mut data = empty_run_data();
    let info = EngineUnit {
        serial_number: Some("SN-1".to_string()),
        metadata: Some(vec![KeyText {
            key: "modification".to_string(),
            text: "MOD-7".to_string(),
        }]),
        ..engine_unit()
    };
    apply_unit_info_to_run_data(&mut data, "default", &info);
    let merged = fold_metadata_sources(&data.unit_metadata_sources, "default");
    assert_eq!(find(&merged, "modification"), Some(&text("MOD-7")));
}

#[test]
fn deployment_layout_falls_back_to_deployment_when_manifest_missing() {
    let layout = deployment_layout("/deployments/a", None).unwrap();
    assert_eq!(layout.package_dir, PathParts::new("/deployments/a"));
    assert_eq!(layout.entry_point, None);
    assert!(!layout.manifest_present);
}

#[test]
fn deployment_layout_errors_on_unparseable_manifest() {
    let told = "unparseable manifest: key must be a string at line 1 column 2";
    let err = deployment_layout("/d", Some(Err(told.to_string()))).unwrap_err();
    assert!(err.contains("unparseable"), "got: {err}");
    assert_eq!(err, told);
}

#[test]
fn deployment_layout_errors_on_unsafe_manifest_value() {
    let told = "manifest root_directory '../etc' leaves the deployment";
    let err = deployment_layout("/d", Some(Err(told.to_string()))).unwrap_err();
    assert!(err.contains("root_directory"), "got: {err}");
    assert_eq!(err, told);
}

fn parts(root_directory: Option<&str>) -> ManifestParts {
    ManifestParts { root_directory: root_directory.map(|s| s.to_string()), entry_point: None }
}

#[test]
fn deployment_layout_returns_deployment_when_manifest_field_null() {
    let layout = deployment_layout("/deployments/a", Some(Ok(parts(None)))).unwrap();
    assert_eq!(layout.package_dir, PathParts::new("/deployments/a"));
    assert!(layout.manifest_present);
}

#[test]
fn deployment_layout_joins_safe_value() {
    let layout =
        deployment_layout("/deployments/a", Some(Ok(parts(Some("procedures/foo"))))).unwrap();
    assert_eq!(layout.package_dir, PathParts::new("/deployments/a").join("procedures/foo"));
    assert!(layout.manifest_present);
}

#[test]
fn procedure_files_by_their_two_names() {
    assert_eq!(find_procedure_yaml(true, true), Some("procedure.yaml"));
    assert_eq!(find_procedure_yaml(false, true), Some("procedure.yml"));
    assert_eq!(find_procedure_yaml(false, false), None);
}

#[test]
fn cap_string_preserves_utf8_boundary() {
    // "café" = 5 bytes (c,a,f,0xC3,0xA9). Cap at 4 would land mid-é.
    let (capped, truncated) = cap_string("café", 4);
    assert!(truncated);
    assert_eq!(capped, "caf");
    assert!(capped.is_char_boundary(capped.len()));
}

#[test]
fn cap_string_handles_multi_byte_precisely_at_limit() {
    // "日本語" = 3 chars × 3 bytes = 9 bytes. Cap at 6 → "日本".
    let (capped, truncated) = cap_string("日本語", 6);
    assert!(truncated);
    assert_eq!(capped, "日本");
}

#[test]
fn cap_string_no_op_under_limit() {
    let (capped, truncated) = cap_string("hello", 10);
    assert!(!truncated);
    assert_eq!(capped, "hello");
}

#[test]
fn truncate_for_log_ascii() {
    let long = "x".repeat(200);
    let out = truncate_for_log(&long);
    assert!(out.ends_with('…'));
    // 128 'x' bytes + 3-byte ellipsis.
    assert_eq!(out.len(), 128 + 3);
}

#[test]
fn truncate_for_log_under_cap_unchanged() {
    assert_eq!(truncate_for_log("short"), "short");
}

#[test]
fn cap_measurement_value_below_limit_passes_through() {
    let v = Json::parse(r#"{"a": 1, "b": "hello"}"#).unwrap();
    let (out, truncated) = cap_measurement_value(&v);
    assert!(!truncated);
    assert_eq!(out, v);
}

#[test]
fn cap_measurement_value_at_exact_limit_passes() {
    let v = Json::Text("x".repeat(MAX_MEASUREMENT_VALUE_BYTES - 2));
    assert_eq!(v.render().len(), MAX_MEASUREMENT_VALUE_BYTES);
    let (_, truncated) = cap_measurement_value(&v);
    assert!(!truncated, "value at exact cap must not trigger truncation");
}

#[test]
fn cap_measurement_value_one_over_limit_truncates() {
    let v = Json::Text("x".repeat(MAX_MEASUREMENT_VALUE_BYTES - 1));
    assert_eq!(v.render().len(), MAX_MEASUREMENT_VALUE_BYTES + 1);
    let (out, truncated) = cap_measurement_value(&v);
    assert!(truncated);
    assert_eq!(out.get_bool("truncated"), Some(true));
    assert_eq!(
        out.get_int("original_size_bytes"),
        Some(MAX_MEASUREMENT_VALUE_BYTES as i64 + 1)
    );
}

#[test]
fn cap_warning_detail_small_payload_passes_through() {
    let d = || Json::parse(r#"{"phase_key": "p", "truncated": true}"#).unwrap();
    assert_eq!(cap_warning_detail(d()), d());
}

#[test]
fn cap_warning_detail_over_limit_collapses_to_marker() {
    let filler = "x".repeat(MAX_WARNING_DETAIL_BYTES);
    let d = Json::Object(vec![
        JsonField { key: "phase_key".to_string(), value: text(&filler) },
        JsonField { key: "truncated".to_string(), value: Json::Bool(true) },
    ]);
    let out = cap_warning_detail(d);
    assert_eq!(out.get_bool("truncated"), Some(true));
    assert!(out.get_int("original_size_bytes").unwrap() > MAX_WARNING_DETAIL_BYTES as i64);
    assert!(out.get("reason").is_some());
}

fn json_number(value: f64) -> JsonNumber {
    JsonNumber { text: format!("{value:?}"), int: None, bits: Some(value.to_bits()) }
}

fn number(value: f64) -> Json {
    Json::Number(json_number(value))
}

fn validator(op: &str, expected: f64, outcome: ValidatorOutcome) -> ValidatorSpec {
    ValidatorSpec {
        outcome: Some(outcome),
        operator: Some(op.to_string()),
        expected_value: Some(ValidatorExpectedValue::Number(ShownNumber {
            json: json_number(expected),
            display: format!("{expected}"),
        })),
        expression: None,
    }
}

fn aggregation(
    kind: &str,
    value: f64,
    unit: &str,
    outcome: ValidatorOutcome,
    validators: Vec<ValidatorSpec>,
) -> AggregationSpec {
    AggregationSpec {
        aggregation_type: kind.to_string(),
        outcome: Some(outcome),
        value: Some(AggregationValue::Number(json_number(value))),
        unit: Some(unit.to_string()),
        validators: Some(validators),
    }
}

fn measurement(name: &str, raw: Json, axes: Option<MultiDimensional>) -> Measurement {
    Measurement {
        name: name.to_string(),
        outcome: ValidatorOutcome::Unset,
        raw,
        axes,
        unit: None,
        validators: None,
        aggregations: None,
        description: None,
    }
}

#[test]
fn build_measurement_carries_axis_legend_validators_and_aggregations() {
    let axes = MultiDimensional {
        x_axis: Axis {
            key: Some("step".to_string()),
            legend: Some("Step".to_string()),
            unit: None,
            data: Some(AxisData::Numeric(vec![0.0f64.to_bits(), 1.0f64.to_bits()])),
            validators: None,
            aggregations: None,
        },
        y_axis: vec![Axis {
            key: Some("voltage".to_string()),
            legend: Some("Rail voltage".to_string()),
            unit: Some("V".to_string()),
            data: Some(AxisData::Numeric(vec![3.28f64.to_bits(), 3.32f64.to_bits()])),
            aggregations: Some(vec![aggregation(
                "max",
                3.32,
                "V",
                ValidatorOutcome::Fail,
                vec![validator("<=", 3.3, ValidatorOutcome::Fail)],
            )]),
            validators: Some(vec![validator("<=", 3.5, ValidatorOutcome::Pass)]),
        }],
    };
    let mut m = measurement("power_sweep", Json::Null, Some(axes));
    m.outcome = ValidatorOutcome::Fail;

    let w = build_measurement(&m);

    let x = w.x_axis.as_ref().expect("x axis");
    assert_eq!(x.name.as_deref(), Some("Step"));
    assert_eq!(x.data, vec![0.0f64.to_bits(), 1.0f64.to_bits()]);

    let y = &w.y_axis.as_ref().expect("y axis")[0];
    assert_eq!(y.name.as_deref(), Some("Rail voltage"));
    assert_eq!(y.units.as_deref(), Some("V"));
    let vs = y.validators.as_ref().expect("validators");
    assert_eq!(vs[0].operator.as_deref(), Some("<="));
    assert_eq!(vs[0].expected_value, Some(number(3.5)));
    assert_eq!(vs[0].outcome, Some(MeasurementOutcome::Pass));

    let agg = &y.aggregations.as_ref().expect("aggregations")[0];
    assert_eq!(agg.aggregation_type, "max");
    assert_eq!(agg.value, Some(number(3.32)));
    assert_eq!(agg.unit.as_deref(), Some("V"));
    assert_eq!(agg.outcome, Some(MeasurementOutcome::Fail));
    let vs = agg.validators.as_ref().expect("validators");
    assert_eq!(vs[0].expected_value, Some(number(3.3)));
    assert_eq!(vs[0].outcome, Some(MeasurementOutcome::Fail));
}

#[test]
fn build_measurement_carries_aggregation_validators_on_scalars() {
    let mut m = measurement("supply_ripple", number(17.9), None);
    m.unit = Some("mV".to_string());
    m.aggregations = Some(vec![
        aggregation(
            "avg",
            20.28,
            "mV",
            ValidatorOutcome::Pass,
            vec![validator("<=", 25.0, ValidatorOutcome::Pass)],
        ),
        // No validators: must still upload, with an absent list rather than
        // being dropped.
        AggregationSpec {
            aggregation_type: "count".to_string(),
            outcome: Some(ValidatorOutcome::Unset),
            value: Some(AggregationValue::Number(json_number(5.0))),
            unit: None,
            validators: None,
        },
    ]);

    let w = build_measurement(&m);
    let aggs = w.aggregations.as_ref().expect("aggregations");
    assert_eq!(aggs.len(), 2);
    assert_eq!(aggs[0].aggregation_type, "avg");
    let vs = aggs[0].validators.as_ref().expect("validators");
    assert_eq!(vs[0].expected_value, Some(number(25.0)));
    assert_eq!(vs[0].outcome, Some(MeasurementOutcome::Pass));
    assert_eq!(aggs[1].aggregation_type, "count");
    assert_eq!(aggs[1].value, Some(number(5.0)));
    assert!(aggs[1].validators.is_none());
}

fn completed_phase(name: &str, slot_id: Option<&str>, outcome: Outcome) -> CompletedPhase {
    CompletedPhase {
        name: name.to_string(),
        outcome,
        started_at: "2026-01-01T00:00:00Z".to_string(),
        completed_at: "2026-01-01T00:00:01Z".to_string(),
        retry_count: 0,
        measurements: Vec::new(),
        logs: Vec::new(),
        error: None,
        slot_id: slot_id.map(|s| s.to_string()),
    }
}

fn slot_outcome(slot: &str, outcome: Outcome) -> SlotOutcome {
    SlotOutcome { slot: slot.to_string(), outcome }
}

fn two_slot_data() -> RunData {
    let mut data = empty_run_data();
    data.units = vec![unit("s1", "SN-A"), unit("s2", "SN-B")];
    data.phases.push(completed_phase("setup", None, Outcome::Pass));
    let mut late = completed_phase("measure", Some("s1"), Outcome::Pass);
    late.started_at = "2026-01-01T00:00:05Z".to_string();
    late.completed_at = "2026-01-01T00:00:09Z".to_string();
    data.phases.push(late);
    data.phases.push(completed_phase("measure", Some("s2"), Outcome::Fail));
    data.slot_outcomes.push(slot_outcome("s1", Outcome::Pass));
    data.slot_outcomes.push(slot_outcome("s2", Outcome::Fail));
    data.run_outcome = Some(Outcome::Fail);
    data.start_time = Some(at(0));
    data.end_time = Some(at(300));
    data
}

#[test]
fn multi_slot_requests_split_phases_units_and_outcomes() {
    let data = two_slot_data();
    let req1 = build_slot(&data, "s1", Some("Left Nest"));
    let req2 = build_slot(&data, "s2", None);

    assert_eq!(req1.serial_number, "SN-A");
    assert_eq!(req2.serial_number, "SN-B");
    assert_eq!(req1.phases.len(), 2);
    assert_eq!(req2.phases.len(), 2);
    assert!(matches!(req1.outcome, RunGetOutcome::Pass));
    assert!(matches!(req2.outcome, RunGetOutcome::Fail));
    // s1's window: its own measure :05–:09, not the shared setup at :00 nor
    // the five-minute execution; s2's own phase ran :00–:01.
    assert_eq!(req1.started_at, at(5));
    assert_eq!(req1.ended_at, at(9));
    assert_eq!(req2.started_at, at(0));
    assert_eq!(req2.ended_at, at(1));
    assert_eq!(req1.execution_id.as_deref(), Some("exec-1"));
    assert_eq!(req1.slot_key.as_deref(), Some("s1"));
    assert_eq!(req1.slot_name.as_deref(), Some("Left Nest"));
    assert_eq!(req2.slot_key.as_deref(), Some("s2"));
    assert!(req2.slot_name.is_none());
}

#[test]
fn slot_window_ignores_shared_teardown_and_falls_back_when_empty() {
    let mut data = two_slot_data();
    let mut teardown = completed_phase("power_off", None, Outcome::Pass);
    teardown.started_at = "2026-01-01T00:04:00Z".to_string();
    teardown.completed_at = "2026-01-01T00:04:30Z".to_string();
    data.phases.push(teardown);
    data.units.push(SlotUnit { slot: "s3".to_string(), unit: no_unit() });
    assert_eq!(build_slot(&data, "s1", None).ended_at, at(9));
    assert_eq!(build_slot(&data, "s1", None).phases.len(), 3, "shared stages still listed");
    let empty = build_slot(&data, "s3", None);
    assert_eq!(empty.started_at, at(0));
    assert_eq!(empty.ended_at, at(270));
}

#[test]
fn single_slot_request_carries_no_grouping_fields() {
    let req = build_single(&empty_run_data());
    assert!(req.execution_id.is_none());
    assert!(req.slot_key.is_none());
    assert!(req.slot_name.is_none());
}

#[test]
fn slot_without_engine_outcome_falls_back_to_run_outcome() {
    let mut data = two_slot_data();
    data.slot_outcomes.clear();
    data.run_outcome = Some(Outcome::Error);
    let req = build_slot(&data, "s1", None);
    assert!(matches!(req.outcome, RunGetOutcome::Error));
}

#[test]
fn slot_metadata_does_not_leak_across_slots() {
    let mut sources = Vec::new();
    upsert_metadata_source(
        &mut sources,
        &Some("s1".to_string()),
        "phase_a",
        md(&[("temp", whole(21))]),
    );
    upsert_metadata_source(&mut sources, &None, "setup", md(&[("fixture", text("F-9"))]));
    let s1 = fold_metadata_sources(&sources, "s1");
    let s2 = fold_metadata_sources(&sources, "s2");
    assert_eq!(find(&s1, "temp"), Some(&whole(21)));
    assert_eq!(find(&s1, "fixture"), Some(&text("F-9")));
    assert!(find(&s2, "temp").is_none());
    assert_eq!(find(&s2, "fixture"), Some(&text("F-9")));
}

fn attachment(slot: Option<&str>, name: &str, path: &str) -> SlotAttachment {
    SlotAttachment {
        slot: slot.map(|s| s.to_string()),
        attachment: QueuedAttachment {
            name: name.to_string(),
            path: path.to_string(),
            mimetype: "image/png".to_string(),
            phase_key: "p".to_string(),
        },
    }
}

#[test]
fn shared_attachments_fan_out_with_their_own_files() {
    let all = vec![
        attachment(None, "rig", "/tmp/rig.png"),
        attachment(Some("s2"), "scope", "/tmp/s2-scope.png"),
    ];

    let s1 = attachments_for_slot(&all, "s1", 0, &Vec::new());
    let plan = plan_attachments(&all, "s2", false);
    let copies: Vec<Option<String>> = plan
        .iter()
        .map(|p| p.prefix.as_ref().map(|prefix| format!("/tmp/{prefix}rig.png")))
        .collect();
    let s2 = attachments_for_slot(&all, "s2", 1, &copies);

    assert_eq!(s1.len(), 1);
    assert_eq!(s1[0].path, "/tmp/rig.png");
    assert_eq!(s2.len(), 2);
    let s2_shared = s2.iter().find(|a| a.name == "rig").unwrap();
    assert_ne!(s2_shared.path, "/tmp/rig.png", "second slot gets its own copy");
    assert!(s2.iter().any(|a| a.name == "scope" && a.path == "/tmp/s2-scope.png"));
}

#[test]
fn unit_updates_are_scoped_by_slot() {
    let mut data = two_slot_data();
    let info = EngineUnit { revision_number: Some("B".to_string()), ..engine_unit() };
    apply_unit_info_to_run_data(&mut data, "s2", &info);
    let held = |slot: &str| data.units.iter().find(|u| u.slot == slot).unwrap();
    assert_eq!(held("s1").unit.revision, None);
    assert_eq!(held("s2").unit.revision.as_deref(), Some("B"));
    assert_eq!(held("s2").unit.serial.as_deref(), Some("SN-B"), "other fields untouched");
}

#[test]
fn units_come_back_from_the_wire() {
    let unit = EngineUnit {
        serial_number: Some("SN".to_string()),
        sub_units: Some(vec![KeyText { key: "b".to_string(), text: "B-1".to_string() }]),
        ..engine_unit()
    };
    let back = wire_unit_to_engine(unit_info_to_wire(&unit));
    assert_eq!(back.serial_number, unit.serial_number);
    assert_eq!(back.sub_units, unit.sub_units);
}

#[test]
fn validators_read_as_text() {
    assert_eq!(
        format_validator_expression(&validator("<=", 3.5, ValidatorOutcome::Pass)),
        "x <= 3.5"
    );
}

#[test]
fn failing_measurements_explain_a_failed_phase() {
    let mut m = measurement("v", number(4.0), None);
    m.outcome = ValidatorOutcome::Fail;
    m.validators = Some(vec![validator("<=", 3.5, ValidatorOutcome::Fail)]);
    let said = synthesize_measurement_error(Outcome::Fail, &vec![m]).expect("a reason");
    assert!(said.contains('v'), "got: {said}");
    assert!(said.contains("<= 3.5"), "got: {said}");
    let m = measurement("v", number(4.0), None);
    assert_eq!(synthesize_measurement_error(Outcome::Pass, &vec![m]), None);
}
