use tofupilot_run::agent_proto::events::CliEvent;
use tofupilot_run::agent_proto::validate::check_text;
use tofupilot_run::connector::detect::records_framework;
use tofupilot_run::connector::events::PythonEvent;
use tofupilot_run::connector::pump::{notice_of, warn_of_unknown};
use tofupilot_run::engine::caps::{
    cap_detail_of_size, cap_value_of_size, MAX_MEASUREMENT_VALUE_BYTES, MAX_WARNING_DETAIL_BYTES,
};
use tofupilot_run::engine::request::widen;
use tofupilot_run::json::Json;
use tofupilot_run::queue::policy::is_due_after;
use tofupilot_run::time::{forward_millis, instant_or, Instant};
use tofupilot_run::ui::{ComponentType, UiComponent};

fn at(secs: i64) -> Instant {
    Instant { secs, nanos: 0 }
}

fn json(text: &str) -> Json {
    Json::parse(text).expect("valid JSON")
}

#[test]
fn spans_run_forward() {
    assert_eq!(forward_millis(Some(0)), Some(0));
    assert_eq!(forward_millis(Some(1500)), Some(1500));
    assert_eq!(forward_millis(Some(-1)), None);
    assert_eq!(forward_millis(None), None);
}

#[test]
fn unread_times_fall_back() {
    assert_eq!(instant_or(Some(at(3)), at(9)), at(3));
    assert_eq!(instant_or(None, at(9)), at(9));
}

#[test]
fn windows_widen() {
    assert_eq!(widen(None, Some(at(5)), Some(at(7))), Some((at(5), at(7))));
    let held = Some((at(5), at(7)));
    assert_eq!(widen(held, Some(at(3)), Some(at(6))), Some((at(3), at(7))));
    assert_eq!(widen(held, Some(at(6)), Some(at(9))), Some((at(5), at(9))));
    assert_eq!(widen(held, None, Some(at(9))), held);
    assert_eq!(widen(held, Some(at(1)), None), held);
    assert_eq!(widen(None, None, None), None);
}

#[test]
fn entries_are_due_behind_their_time() {
    assert!(is_due_after(false, None, at(5)));
    assert!(is_due_after(false, Some(at(4)), at(5)));
    assert!(!is_due_after(false, Some(at(5)), at(5)));
    assert!(!is_due_after(false, Some(at(6)), at(5)));
    assert!(!is_due_after(true, None, at(5)));
}

#[test]
fn sizes_decide_what_is_kept() {
    let value = json("[1]");
    assert_eq!(cap_value_of_size(&value, MAX_MEASUREMENT_VALUE_BYTES), (json("[1]"), false));
    let (marker, cut) = cap_value_of_size(&value, MAX_MEASUREMENT_VALUE_BYTES + 1);
    assert!(cut);
    assert_ne!(marker, value);
    assert_eq!(cap_detail_of_size(json("{}"), MAX_WARNING_DETAIL_BYTES), json("{}"));
    assert_ne!(cap_detail_of_size(json("{}"), MAX_WARNING_DETAIL_BYTES + 1), json("{}"));
}

#[test]
fn unknown_events_are_kept_while_they_are_small() {
    let event = json("{\"type\":\"odd\"}");
    match warn_of_unknown(&event, 14) {
        CliEvent::InternalWarning { detail, .. } => assert_eq!(detail, Some(event)),
        other => panic!("{:?}", other),
    }
    let event = json("{\"type\":\"odd\"}");
    match warn_of_unknown(&event, 10_000_000) {
        CliEvent::InternalWarning { detail, .. } => assert_ne!(detail, Some(event)),
        other => panic!("{:?}", other),
    }
}

#[test]
fn manifests_record_a_framework() {
    assert!(records_framework(&json("{\"framework\":\"openhtf\"}"), "openhtf"));
    assert!(!records_framework(&json("{\"framework\":\"OpenHTF\"}"), "openhtf"));
    assert!(!records_framework(&json("{}"), "openhtf"));
}

#[test]
fn verdicts_decide_on_texts() {
    let field = UiComponent {
        key: "sn".to_string(),
        pattern: Some("^A".to_string()),
        trim: true,
        ..UiComponent::new(ComponentType::TextInput)
    };
    let value = Json::Text(" B1 ".to_string());
    assert_eq!(check_text(&field, &value, Some(true)).ok(), Some("B1".to_string()));
    assert_eq!(check_text(&field, &value, None).ok(), Some("B1".to_string()));
    let refused = check_text(&field, &value, Some(false)).err().expect("refused");
    assert_eq!(refused.expected, Some("match pattern: ^A".to_string()));
}

#[test]
fn notices_name_the_type() {
    let event = json(r#"{"type": "novel", "x": 1}"#);
    let told = notice_of("line", &event, &Some(PythonEvent::Unknown)).expect("a notice");
    assert!(told.ends_with(": novel"), "{told}");
    let told = notice_of("line", &json("[]"), &Some(PythonEvent::Unknown)).expect("a notice");
    assert!(told.ends_with(": ?"), "{told}");
    assert!(notice_of("line", &event, &None).is_some_and(|t| t.ends_with(": line")));
    assert_eq!(notice_of("line", &event, &Some(PythonEvent::BridgeReady)), None);
}
