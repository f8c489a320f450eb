use tofupilot_run::engine::model::Outcome;
use tofupilot_run::outcomes::{
    from_execution_outcome, from_exit_code, parse_log_level, validator_outcome_from_wire, ABORTED,
    ERROR, FAIL, PASS, RETRY, SKIP, STOP, TIMEOUT,
};
use tofupilot_run::sdk::{Level, MeasurementOutcome};

#[test]
fn zero_is_pass() {
    assert_eq!(from_exit_code(0), PASS);
}

#[test]
fn signal_range_is_aborted() {
    assert_eq!(from_exit_code(130), ABORTED); // SIGINT
    assert_eq!(from_exit_code(134), ABORTED); // SIGABRT
    assert_eq!(from_exit_code(137), ABORTED); // SIGKILL
    assert_eq!(from_exit_code(139), ABORTED); // SIGSEGV
    assert_eq!(from_exit_code(143), ABORTED); // SIGTERM
}

#[test]
fn ordinary_nonzero_is_fail() {
    assert_eq!(from_exit_code(1), FAIL);
    assert_eq!(from_exit_code(2), FAIL);
    assert_eq!(from_exit_code(42), FAIL);
}

#[test]
fn pytest_no_tests_collected_is_error() {
    assert_eq!(from_exit_code(5), ERROR);
}

#[test]
fn boundaries() {
    assert_eq!(from_exit_code(128), FAIL); // not in signal range
    assert_eq!(from_exit_code(129), ABORTED); // SIGHUP, start of range
    assert_eq!(from_exit_code(192), ABORTED); // end of range
    assert_eq!(from_exit_code(193), FAIL); // past range
}

#[test]
fn negative_exit_codes_fail() {
    assert_eq!(from_exit_code(-1), FAIL);
    assert_eq!(from_exit_code(i32::MIN), FAIL);
}

#[test]
fn parse_log_level_maps_known_and_falls_back_to_info() {
    assert!(matches!(parse_log_level("DEBUG"), Level::Debug));
    assert!(matches!(parse_log_level("WARNING"), Level::Warning));
    assert!(matches!(parse_log_level("ERROR"), Level::Error));
    assert!(matches!(parse_log_level("CRITICAL"), Level::Critical));
    // The case matters; unknown or lower-case words are information.
    assert!(matches!(parse_log_level("INFO"), Level::Info));
    assert!(matches!(parse_log_level("debug"), Level::Info));
    assert!(matches!(parse_log_level(""), Level::Info));
}

#[test]
fn validator_outcome_only_pass_fail_are_recognized() {
    assert!(matches!(validator_outcome_from_wire(PASS), MeasurementOutcome::Pass));
    assert!(matches!(validator_outcome_from_wire(FAIL), MeasurementOutcome::Fail));
    assert!(matches!(validator_outcome_from_wire(ERROR), MeasurementOutcome::Unset));
    assert!(matches!(validator_outcome_from_wire("anything"), MeasurementOutcome::Unset));
}

#[test]
fn execution_outcome_round_trips_to_wire_strings() {
    assert_eq!(from_execution_outcome(Outcome::Pass), PASS);
    assert_eq!(from_execution_outcome(Outcome::Fail), FAIL);
    assert_eq!(from_execution_outcome(Outcome::Error), ERROR);
    assert_eq!(from_execution_outcome(Outcome::Timeout), TIMEOUT);
    assert_eq!(from_execution_outcome(Outcome::Stop), STOP);
    assert_eq!(from_execution_outcome(Outcome::Skip), SKIP);
    assert_eq!(from_execution_outcome(Outcome::Retry), RETRY);
}
