use tofupilot_run::agent_proto::events::{CliEvent, SubmittedValue, UiErrorReason};
use tofupilot_run::agent_proto::validate::{
    default_value_string, expected_summary, validate_and_coerce,
};
use tofupilot_run::engine::model::KeyText;
use tofupilot_run::json::{Json, JsonNumber};
use tofupilot_run::ui::{Bound, ComponentType, ComponentValue, UiComponent, UiOption};

fn option(value: &str) -> UiOption {
    UiOption { label: value.to_string(), value: value.to_string(), image: None }
}

fn radio(key: &str, bind: &str) -> UiComponent {
    UiComponent {
        key: key.to_string(),
        bind: Some(bind.to_string()),
        options: Some(vec![option("A"), option("B")]),
        ..UiComponent::new(ComponentType::Radio)
    }
}

fn text(key: &str) -> UiComponent {
    UiComponent {
        key: key.to_string(),
        bind: Some(format!("measurements.{key}")),
        ..UiComponent::new(ComponentType::TextInput)
    }
}

fn said(key: &str, value: &str) -> SubmittedValue {
    SubmittedValue {
        key: key.to_string(),
        value: Json::Text(value.to_string()),
        numeric: value.parse::<f64>().ok().map(|d| d.to_bits()),
    }
}

fn number(key: &str, value: f64, shown: &str) -> SubmittedValue {
    SubmittedValue {
        key: key.to_string(),
        value: Json::Number(JsonNumber {
            text: shown.to_string(),
            int: None,
            bits: Some(value.to_bits()),
        }),
        numeric: None,
    }
}

fn find<'a>(out: &'a [KeyText], key: &str) -> Option<&'a str> {
    out.iter().find(|e| e.key == key).map(|e| e.text.as_str())
}

fn bound(out: &[KeyText]) -> Json {
    let packed = find(out, "__bound_measurements__").expect("__bound_measurements__ packed");
    Json::parse(packed).expect("packed as JSON")
}

#[test]
fn agent_path_packs_bound_measurements() {
    let comps = vec![radio("motor_type_measure", "measurements.motor_type_measure")];
    let out = validate_and_coerce(&comps, &vec![said("motor_type_measure", "A")]).expect("valid");
    assert_eq!(bound(&out).get_text("motor_type_measure"), Some(&"A".to_string()));
    // The raw value is there too.
    assert_eq!(find(&out, "motor_type_measure"), Some("A"));
}

#[test]
fn agent_path_no_sentinel_without_bind() {
    let comp = UiComponent {
        key: "free".to_string(),
        required: false,
        bind: None,
        ..UiComponent::new(ComponentType::TextInput)
    };
    let out = validate_and_coerce(&vec![comp], &vec![said("free", "x")]).expect("valid");
    assert!(find(&out, "__bound_measurements__").is_none());
}

#[test]
fn agent_path_trims_text_like_other_surfaces() {
    let comps = vec![text("serial")];
    let out = validate_and_coerce(&comps, &vec![said("serial", "  SN-1  ")]).expect("valid");
    assert_eq!(find(&out, "serial"), Some("SN-1"));
    assert_eq!(bound(&out).get_text("serial"), Some(&"SN-1".to_string()));
}

#[test]
fn agent_path_enforces_pattern() {
    let comp = UiComponent { pattern: Some("^[A-Z0-9-]+$".to_string()), ..text("serial") };
    let err = validate_and_coerce(&vec![comp], &vec![said("serial", "sn 1")])
        .expect_err("pattern violation rejected");
    assert!(matches!(err.reason, UiErrorReason::InvalidValue));
}

#[test]
fn pattern_lets_matching_text_pass() {
    let comp = UiComponent { pattern: Some("^[A-Z0-9-]+$".to_string()), ..text("serial") };
    let out = validate_and_coerce(&vec![comp], &vec![said("serial", "SN-1")]).expect("valid");
    assert_eq!(find(&out, "serial"), Some("SN-1"));
}

#[test]
fn agent_path_enforces_max_length() {
    let comp = UiComponent { max_length: Some(3), ..text("code") };
    let err = validate_and_coerce(&vec![comp], &vec![said("code", "ABCD")])
        .expect_err("too long rejected");
    assert!(matches!(err.reason, UiErrorReason::InvalidValue));
}

#[test]
fn agent_path_seeds_omitted_optional_default() {
    let comp = UiComponent {
        required: false,
        default_value: Some(ComponentValue::String("DefaultMotor".to_string())),
        ..text("motor")
    };
    let out = validate_and_coerce(&vec![comp], &Vec::new()).expect("valid");
    assert_eq!(find(&out, "motor"), Some("DefaultMotor"));
    assert_eq!(bound(&out).get_text("motor"), Some(&"DefaultMotor".to_string()));
}

#[test]
fn unknown_field_is_refused() {
    let err = validate_and_coerce(&vec![text("a")], &vec![said("b", "x")]).expect_err("unknown");
    assert!(matches!(err.reason, UiErrorReason::UnknownField));
    assert_eq!(err.field, Some("b".to_string()));
}

#[test]
fn missing_required_is_refused() {
    let err = validate_and_coerce(&vec![text("a")], &Vec::new()).expect_err("missing");
    assert!(matches!(err.reason, UiErrorReason::MissingRequired));
    assert_eq!(err.field, Some("a".to_string()));
}

#[test]
fn choices_are_limited_to_the_options() {
    let comps = vec![radio("m", "measurements.m")];
    let err = validate_and_coerce(&comps, &vec![said("m", "C")]).expect_err("not offered");
    assert!(matches!(err.reason, UiErrorReason::InvalidValue));
}

#[test]
fn numbers_stay_within_their_bounds() {
    let comp = || UiComponent {
        key: "v".to_string(),
        min: Some(Bound { bits: 1.0f64.to_bits(), display: "1".to_string() }),
        max: Some(Bound { bits: 5.0f64.to_bits(), display: "5".to_string() }),
        ..UiComponent::new(ComponentType::NumberInput)
    };
    assert!(validate_and_coerce(&vec![comp()], &vec![number("v", 3.5, "3.5")]).is_ok());
    let low = validate_and_coerce(&vec![comp()], &vec![number("v", 0.5, "0.5")]);
    assert!(matches!(low.expect_err("too low").reason, UiErrorReason::InvalidValue));
    let high = validate_and_coerce(&vec![comp()], &vec![number("v", 5.5, "5.5")]);
    assert!(matches!(high.expect_err("too high").reason, UiErrorReason::InvalidValue));
}

#[test]
fn refusals_name_the_request() {
    let err = validate_and_coerce(&vec![text("a")], &Vec::new()).expect_err("missing");
    match err.into_event("r1") {
        CliEvent::UiError { request_id, reason, field, .. } => {
            assert_eq!(request_id, Some("r1".to_string()));
            assert!(matches!(reason, UiErrorReason::MissingRequired));
            assert_eq!(field, Some("a".to_string()));
        }
        other => panic!("expected a refusal, got {:?}", other),
    }
}

#[test]
fn summary_names_the_choices() {
    assert_eq!(expected_summary(&radio("m", "measurements.m")), "radio (one of: A, B)");
    assert_eq!(expected_summary(&text("t")), "text_input");
}

#[test]
fn defaults_as_text() {
    let with = |v| UiComponent { default_value: Some(v), ..text("t") };
    assert_eq!(
        default_value_string(&with(ComponentValue::Boolean(true))),
        Some("true".to_string())
    );
    assert_eq!(
        default_value_string(&with(ComponentValue::Number("2.5".to_string()))),
        Some("2.5".to_string())
    );
    assert_eq!(default_value_string(&text("t")), None);
}
