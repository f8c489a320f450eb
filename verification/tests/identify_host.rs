use tofupilot_run::connector::pump::Answer;
use tofupilot_run::engine::model::KeyText;
use tofupilot_run::event_router::{Emission, EventRouter};
use tofupilot_run::identify_host::{
    prompt_timeout, CliIdentifyHost, IdentifyResult, PromptRequest,
};
use tofupilot_run::protocol::StationEvent;
use tofupilot_run::time::Instant;

fn bare_host() -> CliIdentifyHost {
    CliIdentifyHost {
        router: EventRouter::new("exec-test".to_string(), false),
        has_terminal: false,
        procedure_id: "proc-test".to_string(),
        has_ui: true,
    }
}

fn req(request_id: &str) -> PromptRequest {
    PromptRequest {
        request_id: request_id.to_string(),
        slot_id: None,
        phase_key: "identify".to_string(),
        components: Vec::new(),
    }
}

#[test]
fn prompt_times_out_when_no_response() {
    let host = bare_host();
    match host.ended("id-timeout-1", Answer::TimedOut).result {
        IdentifyResult::Cancelled(msg) => {
            assert!(msg.contains("timed out"), "unexpected cancel reason: {msg}");
        }
        other => panic!("expected Cancelled(timed out), got {other:?}"),
    }
}

#[test]
fn prompt_returns_operator_response_before_deadline() {
    let host = bare_host();
    let values =
        vec![KeyText { key: "serial_number".to_string(), text: "SN-42".to_string() }];
    match host.ended("id-response-1", Answer::Values(values)).result {
        IdentifyResult::Values(values) => {
            assert_eq!(values[0].key, "serial_number");
            assert_eq!(values[0].text, "SN-42");
        }
        other => panic!("expected the response, got {other:?}"),
    }
}

#[test]
fn prompt_reports_channel_closed_distinctly_from_timeout() {
    let host = bare_host();
    match host.ended("id-closed-1", Answer::Closed).result {
        IdentifyResult::Cancelled(msg) => {
            assert!(msg.contains("channel closed"), "expected channel-closed reason, got: {msg}");
        }
        other => panic!("expected Cancelled(channel closed), got {other:?}"),
    }
}

#[test]
fn prompts_are_announced() {
    let out = bare_host().prompt(&req("id-1"), Instant { secs: 0, nanos: 0 });
    assert!(out.iter().any(|e| matches!(
        e,
        Emission::Station(StationEvent::IdentifyRequest { request_id, .. }) if request_id == "id-1"
    )));
}

#[test]
fn timeouts_are_announced_and_cleaned_up() {
    let end = bare_host().ended("id-1", Answer::TimedOut);
    assert!(end.cleanup);
    assert!(matches!(
        end.emissions[0],
        Emission::Station(StationEvent::IdentifyTimeout { .. })
    ));
    assert_eq!(prompt_timeout(Some(5), 100), 5);
    assert_eq!(prompt_timeout(None, 100), 100);
}
