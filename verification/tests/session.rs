use tofupilot_run::agent_proto::events::CliEvent;
use tofupilot_run::event_router::Emission;
use tofupilot_run::framework::{Framework, PrepareFail, Prepared};
use tofupilot_run::paths::PathParts;
use tofupilot_run::protocol::StationEvent;
use tofupilot_run::session::{
    attach_mode, console_mode, joined_exit_code, kiosk_procedure_name, link_message,
    relay_upload_event, resolve_ui_pref, run_finished, run_test, start, start_run, surfaces,
    synthetic_fail, AgentInit, ConsoleMode, Driver, EventPublisher, StartRequest, StartStep,
    TuiPresenceIdentity, UiFlags,
};

fn flags() -> UiFlags {
    UiFlags {
        json_mode: false,
        terminal: true,
        tui_override: None,
        kiosk_override: None,
        tui_config: None,
        kiosk_config: None,
    }
}

fn request(flags: UiFlags) -> StartRequest {
    StartRequest {
        procedure_id: "p".to_string(),
        execution_id: "e".to_string(),
        flags,
        publisher: false,
        station_server: false,
        reused_unit: false,
    }
}

fn prepared() -> Prepared {
    Prepared {
        package_dir: PathParts::new("/p"),
        framework: Framework::Plain,
        entry_file: PathParts::new("/p").join("main.py"),
        python_path: PathParts::new("/p").join("python"),
    }
}

#[test]
fn preferences_in_order() {
    let on = Some("on".to_string());
    let off = Some("off".to_string());
    assert!(!resolve_ui_pref(&on, Some(false), true));
    assert!(resolve_ui_pref(&on, None, false));
    assert!(!resolve_ui_pref(&off, None, true));
    assert!(resolve_ui_pref(&None, None, true));
    assert!(!resolve_ui_pref(&None, None, false));
}

#[test]
fn output_has_one_owner() {
    let shown = surfaces(&flags());
    assert!(shown.tui);
    assert!(!shown.kiosk);
    let forced = UiFlags { json_mode: true, tui_override: Some(true), ..flags() };
    assert!(!surfaces(&forced).tui);
    let piped = UiFlags { terminal: false, kiosk_override: Some(true), ..flags() };
    assert!(!surfaces(&piped).tui);
    assert!(surfaces(&piped).kiosk);
    assert_eq!(console_mode(true, false), ConsoleMode::Off);
    assert_eq!(console_mode(false, true), ConsoleMode::Buffered);
    assert_eq!(console_mode(false, false), ConsoleMode::Live);
}

#[test]
fn runs_that_cannot_be_prepared_are_over() {
    let fail = PrepareFail { kind: "env_error".to_string(), message: "no venv".to_string() };
    match start(&request(flags()), &Err(fail)) {
        StartStep::Over(end) => {
            assert_eq!(end.exit_code, 1);
            assert!(matches!(
                &end.emissions[0],
                Emission::Station(StationEvent::RunCrashed { error, error_kind, .. })
                    if error == "no venv" && error_kind == "env_error"
            ));
            assert!(matches!(
                &end.emissions[1],
                Emission::Station(StationEvent::RunComplete { outcome, .. }) if outcome == "ERROR"
            ));
        }
        other => panic!("expected an end, got {other:?}"),
    }
    assert!(matches!(
        start(&request(flags()), &Ok(prepared())),
        StartStep::InitAgent { .. }
    ));
}

#[test]
fn agents_that_cannot_start_end_the_run() {
    match start_run(&request(flags()), &AgentInit::Failed(7)) {
        StartStep::Over(end) => assert_eq!(end.exit_code, 7),
        other => panic!("expected an end, got {other:?}"),
    }
    assert_eq!(synthetic_fail(true, "p", "e", "k", "m", 2).emissions.len(), 3);
}

#[test]
fn headless_runs_have_nobody_to_ask() {
    let piped = || UiFlags { terminal: false, ..flags() };
    let plan = |req: StartRequest, init: AgentInit| match start_run(&req, &init) {
        StartStep::Run(plan) => plan,
        other => panic!("expected a run, got {other:?}"),
    };
    assert!(!plan(request(piped()), AgentInit::Off).has_ui);
    assert!(plan(request(piped()), AgentInit::Ready).has_ui);
    assert!(plan(request(piped()), AgentInit::Ready).relay_uploads);
    let published = StartRequest { publisher: true, ..request(piped()) };
    assert!(plan(published, AgentInit::Off).has_ui);
    let reused = StartRequest { reused_unit: true, ..request(piped()) };
    assert!(plan(reused, AgentInit::Off).has_ui);
    assert!(plan(request(flags()), AgentInit::Off).has_ui);
}

#[test]
fn drivers_by_framework() {
    let yaml = Framework::Yaml(PathParts::new("/p").join("procedure.yaml"));
    match run_test(&yaml, true, true) {
        Driver::Engine { upload_after, .. } => assert!(upload_after),
        other => panic!("expected the engine, got {other:?}"),
    }
    assert!(matches!(
        run_test(&yaml, true, false),
        Driver::Engine { upload_after: false, .. }
    ));
    assert_eq!(run_test(&Framework::Robot, true, true), Driver::Robot);
    assert_eq!(run_test(&Framework::Plain, true, true), Driver::Script);
}

#[test]
fn agents_hear_of_uploads() {
    let started = StationEvent::RunUploadStarted { queue_id: "q".to_string(), attempt: 2 };
    match relay_upload_event(&started) {
        Some(CliEvent::RunUploadStarted { queue_id, attempt }) => {
            assert_eq!(queue_id, "q");
            assert_eq!(attempt, 2);
        }
        other => panic!("expected a relay, got {other:?}"),
    }
    let other = StationEvent::RunComplete {
        outcome: "PASS".to_string(),
        run_id: None,
        execution_id: None,
        slot_outcomes: Vec::new(),
    };
    assert!(relay_upload_event(&other).is_none());
}

#[test]
fn ends_of_a_run() {
    match run_finished(130) {
        CliEvent::RunFinished { outcome, exit_code } => {
            assert_eq!(outcome, "ABORTED");
            assert_eq!(exit_code, 130);
        }
        other => panic!("expected the end, got {other:?}"),
    }
    assert_eq!(joined_exit_code(true, Some(3)), 3);
    assert_eq!(joined_exit_code(true, None), 1);
    assert_eq!(joined_exit_code(false, Some(0)), 1);
    assert_eq!(
        link_message(&Some("Name (p)".to_string()), false),
        Some("Linked to Name (p). Run with --upload to sync this run to the dashboard.".to_string())
    );
    assert_eq!(link_message(&Some("x".to_string()), true), None);
    assert_eq!(link_message(&None, false), None);
}

#[test]
fn names_and_words() {
    let some = |s: &str| Some(s.to_string());
    assert_eq!(kiosk_procedure_name(some("A"), some("b")), "A");
    assert_eq!(kiosk_procedure_name(None, some("b")), "b");
    assert_eq!(kiosk_procedure_name(None, None), "Procedure");
    assert_eq!(attach_mode(true), "station");
    assert_eq!(attach_mode(false), "local");
    let standalone: EventPublisher<u8, u8> = EventPublisher::Standalone { creds: 0 };
    assert!(!standalone.publishes_synthetic_end());
    let managed: EventPublisher<u8, u8> = EventPublisher::Managed { publish: 0 };
    assert!(managed.publishes_synthetic_end());
    let who = TuiPresenceIdentity {
        user_id: "u".to_string(),
        display_name: "U".to_string(),
        color: "red".to_string(),
    };
    assert_eq!(who.color, "red");
}
