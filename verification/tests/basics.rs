use tofupilot_run::agent_proto::events::CliEvent;
use tofupilot_run::deployment_id::{lookup_deployment_id, PullLookup};
use tofupilot_run::double::{is_finite, is_less};
use tofupilot_run::json::{Json, JsonField};
use tofupilot_run::order::{less, sort_by_text};
use tofupilot_run::paths::{extension, file_name, PathParts};
use tofupilot_run::queue::QueuedRun;
use tofupilot_run::run_log::{log_dir, log_line, log_path, prune_old_logs, LogFile};
use tofupilot_run::sdk::{RunCreateRequest, RunGetOutcome};
use tofupilot_run::session::spawn_upload;
use tofupilot_run::text::{
    contains, decimal_int_text, ends_with, eq_ignore_ascii_case, join, parse_natural,
    prefix_within, split, starts_with, suffix_within, trim, trim_end,
};
use tofupilot_run::time::{duration_from_iso_pair, is_before, Instant};

#[test]
fn texts_are_taken_apart() {
    assert_eq!(trim(" a\u{2003}b \n"), "a\u{2003}b");
    assert_eq!(trim_end("a \t"), "a");
    assert_eq!(split("a,,b", ','), vec!["a".to_string(), String::new(), "b".to_string()]);
    assert_eq!(join(&vec!["a".to_string(), "b".to_string()], "-"), "a-b");
    assert!(contains("abc", "bc") && !contains("abc", "cb"));
    assert!(starts_with("abc", "ab") && ends_with("abc", "bc"));
    assert!(eq_ignore_ascii_case("aBc", "AbC") && !eq_ignore_ascii_case("É", "é"));
    assert_eq!(decimal_int_text(-42), "-42");
    assert_eq!(decimal_int_text(i64::MIN), i64::MIN.to_string());
    assert_eq!(parse_natural("18446744073709551615"), Some(u64::MAX));
    assert_eq!(parse_natural("18446744073709551616"), None);
    assert_eq!(parse_natural("x"), None);
    assert_eq!(prefix_within("aéb", 2), "a");
    assert_eq!(suffix_within("aéb", 2), "b");
    assert_eq!(suffix_within("aéb", 3), "éb");
}

#[test]
fn texts_in_order() {
    assert!(less("a", "b") && less("a", "aa") && !less("b", "a"));
    let sorted = sort_by_text(&vec!["b".to_string(), "a".to_string(), "ab".to_string()]);
    assert_eq!(sorted, vec!["a".to_string(), "ab".to_string(), "b".to_string()]);
}

#[test]
fn doubles_by_their_bits() {
    for (a, b) in [(1.0f64, 2.0f64), (-2.0, -1.0), (-0.0, 0.0), (0.0, 1e-300), (-1.0, 1.0)] {
        assert_eq!(is_less(a.to_bits(), b.to_bits()), a < b, "{a} < {b}");
        assert_eq!(is_less(b.to_bits(), a.to_bits()), b < a, "{b} < {a}");
    }
    assert!(!is_less(f64::NAN.to_bits(), 1.0f64.to_bits()));
    assert!(is_finite(1.0f64.to_bits()));
    assert!(!is_finite(f64::INFINITY.to_bits()));
    assert!(!is_finite(f64::NAN.to_bits()));
}

#[test]
fn times_between_stamps() {
    let start = "2026-01-01T00:00:00Z";
    assert_eq!(duration_from_iso_pair(start, "2026-01-01T00:00:01.5Z"), Some(1500));
    assert_eq!(duration_from_iso_pair("2026-01-01T00:00:01Z", start), None);
    assert_eq!(duration_from_iso_pair("x", start), None);
    assert_eq!(duration_from_iso_pair(start, "2026-01-01T01:00:00.0019+01:00"), Some(1));
    assert_eq!(duration_from_iso_pair("2026-01-01T00:00:00.0005Z", start), Some(0));
    assert_eq!(duration_from_iso_pair("2026-01-01T00:00:00.001Z", start), None);
    assert!(is_before(Instant { secs: 1, nanos: 0 }, Instant { secs: 1, nanos: 1 }));
}

#[test]
fn json_is_read_and_written() {
    let json = Json::parse(r#"{"b": [1, "x"], "a": null}"#).unwrap();
    assert_eq!(json.render(), r#"{"a":null,"b":[1,"x"]}"#);
    assert_eq!(json.get_items("b").map(|i| i.len()), Some(2));
    assert_eq!(json.get("c"), None);
    assert_eq!(json.size(), json.render().len());
    let toml = Json::parse_toml("a = [1, 2]\n[t]\nk = 'v'\n").unwrap();
    assert_eq!(toml.get("t").and_then(|t| t.get_text("k")), Some(&"v".to_string()));
    assert!(Json::parse_toml("a = ").is_none());
    let dated = Json::parse_toml("d = 1979-05-27\nn = nan\ni = 7\n").unwrap();
    assert_eq!(dated.get_text("d"), None);
    assert_eq!(dated.get("n"), Some(&Json::Null));
    assert_eq!(dated.get_int("i"), Some(7));
}

#[test]
fn objects_keep_the_last_of_a_key_in_order() {
    let member = |key: &str, n: bool| JsonField { key: key.to_string(), value: Json::Bool(n) };
    let json = Json::Object(vec![
        member("b", false),
        member("\u{e9}", true),
        member("a", true),
        member("b", true),
        member("Z", false),
    ]);
    assert_eq!(json.render(), "{\"Z\":false,\"a\":true,\"b\":true,\"\u{e9}\":true}");
}

#[test]
fn white_space_is_that_of_unicode() {
    let spaces: Vec<char> = ('\0'..=char::MAX).filter(|c| trim(&c.to_string()).is_empty()).collect();
    let stated = [
        '\u{9}', '\u{a}', '\u{b}', '\u{c}', '\u{d}', ' ', '\u{85}', '\u{a0}', '\u{1680}', '\u{2000}',
        '\u{2001}', '\u{2002}', '\u{2003}', '\u{2004}', '\u{2005}', '\u{2006}', '\u{2007}',
        '\u{2008}', '\u{2009}', '\u{200a}', '\u{2028}', '\u{2029}', '\u{202f}', '\u{205f}',
        '\u{3000}',
    ];
    assert_eq!(spaces, stated);
}

#[test]
fn names_in_paths() {
    assert_eq!(file_name("a/b.txt", false), Some("b.txt".to_string()));
    assert_eq!(file_name("a/b/", false), Some("b".to_string()));
    assert_eq!(file_name("a/..", false), None);
    assert_eq!(file_name("/", false), None);
    assert_eq!(file_name(r"a\b", false), Some(r"a\b".to_string()));
    assert_eq!(file_name(r"a\b", true), Some("b".to_string()));
    assert_eq!(extension("a.b.c"), Some("c".to_string()));
    assert_eq!(extension("a."), Some(String::new()));
    assert_eq!(extension(".a"), None);
    assert_eq!(extension("a"), None);
}

#[test]
fn logs_lie_under_home() {
    let dir = log_dir(&Some("/home/u".to_string())).expect("a directory");
    assert_eq!(dir.base, "/home/u");
    let path = log_path(&Some("/home/u".to_string()), "e1").expect("a path");
    assert_eq!(path.parts.len(), dir.parts.len() + 1);
    assert_eq!(log_dir(&None), None::<PathParts>);
    assert!(log_path(&None, "e1").is_none());
    let line = log_line(r#"{"type":"x"}"#, Instant { secs: 0, nanos: 0 });
    let json = Json::parse(&line).expect("JSON");
    assert_eq!(json.get_text("logged_at"), Some(&"1970-01-01T00:00:00+00:00".to_string()));
    assert_eq!(json.get("event").and_then(|e| e.get_text("type")), Some(&"x".to_string()));
}

#[test]
fn the_oldest_logs_go() {
    let files: Vec<LogFile> = (0..201)
        .map(|i| LogFile {
            name: format!("run-{i}.log"),
            modified: Instant { secs: 1000 - i, nanos: 0 },
        })
        .collect();
    let gone = prune_old_logs(&files);
    assert_eq!(gone, vec!["run-200.log".to_string(), "run-199.log".to_string()]);
    assert!(prune_old_logs(&Vec::new()).is_empty());
}

#[test]
fn deployments_of_pulled_procedures() {
    let (id, warning) = lookup_deployment_id("p", PullLookup::Found(Some("d1".to_string())));
    assert_eq!(id, Some("d1".to_string()));
    assert_eq!(warning, None);
    let (id, warning) = lookup_deployment_id("p", PullLookup::Failed("io".to_string()));
    assert_eq!(id, None);
    assert!(warning.expect("a warning").contains("io"));
    assert_eq!(lookup_deployment_id("p", PullLookup::Found(None)), (None, None));
}

#[test]
fn queued_runs_are_announced_to_agents() {
    let at = Instant { secs: 0, nanos: 0 };
    let queued = QueuedRun {
        request: RunCreateRequest {
            outcome: RunGetOutcome::Fail,
            procedure_id: "p".to_string(),
            serial_number: "S".to_string(),
            started_at: at,
            ended_at: at,
            phases: Vec::new(),
            logs: None,
            part_number: None,
            revision_number: None,
            batch_number: None,
            sub_units: None,
            execution_id: None,
            slot_key: None,
            slot_name: None,
            metadata: None,
            unit_metadata: None,
            docstring: None,
            procedure_version: None,
            deployment_id: None,
            operated_by: None,
        },
        attachments: Vec::new(),
        run_id: None,
        attempt_count: 0,
        last_attempt_at: None,
        next_retry_at: None,
        parked: false,
        last_error: None,
        queued_at: None,
    };
    let said = spawn_upload("q1", &queued, true);
    let line = Json::parse(&said.line.expect("a line")).expect("JSON");
    assert_eq!(line.get_text("type"), Some(&"upload_queued".to_string()));
    assert!(matches!(
        said.agent_event,
        CliEvent::RunUploadQueued { outcome: Some(o), attachment_count: Some(0), .. } if o == "FAIL"
    ));
    assert!(spawn_upload("q1", &queued, false).line.is_none());
}
