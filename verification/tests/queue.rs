use tofupilot_run::json::Json;
use tofupilot_run::protocol::StationEvent;
use tofupilot_run::queue::commands::{
    drop_cmd, entry_missing, entry_status, entry_summary, export_cmd, find_entry, get_cmd,
    list_cmd, list_columns, queue_unreadable, retry_all, retry_all_done, retry_cmd, tag_entry,
    QueueFault,
};
use tofupilot_run::queue::policy::{
    backoff_seconds, classify_attachment_error, classify_lowered, classify_sdk_error,
    dashboard_url_for, drain, is_due, new_queue_id, record_failure, retry_one, truncate_error,
    QueueEntry, SdkError, UploadClaims,
};
use tofupilot_run::queue::upload::{
    attachments_url, drop_one, enqueue, place_of, read_place, snapshot_events, AttachmentOutcome,
    ReplyFault, Upload, UploadAction,
};
use tofupilot_run::queue::{QueuedAttachment, QueuedRun, UploadFailureRecord};
use tofupilot_run::sdk::{RunCreateRequest, RunGetOutcome};
use tofupilot_run::time::Instant;

const NOW: Instant = Instant { secs: 1_767_225_600, nanos: 0 };

fn request() -> RunCreateRequest {
    RunCreateRequest {
        outcome: RunGetOutcome::Pass,
        procedure_id: "proc_1".to_string(),
        serial_number: "SN1".to_string(),
        started_at: NOW,
        ended_at: Instant { secs: NOW.secs + 60, nanos: 0 },
        phases: Vec::new(),
        logs: None,
        part_number: None,
        revision_number: None,
        batch_number: None,
        sub_units: None,
        execution_id: None,
        slot_key: None,
        slot_name: None,
        metadata: None,
        unit_metadata: None,
        docstring: None,
        procedure_version: None,
        deployment_id: None,
        operated_by: None,
    }
}

fn test_entry(run_id: Option<&str>, parked: bool, next_retry_at: Option<&str>) -> QueuedRun {
    QueuedRun {
        request: request(),
        attachments: Vec::new(),
        run_id: run_id.map(|s| s.to_string()),
        attempt_count: 0,
        last_attempt_at: None,
        next_retry_at: next_retry_at.map(|s| s.to_string()),
        parked,
        last_error: None,
        queued_at: None,
    }
}

fn file(name: &str) -> QueuedAttachment {
    QueuedAttachment {
        name: name.to_string(),
        path: format!("/tmp/{name}"),
        mimetype: "text/plain".to_string(),
        phase_key: String::new(),
    }
}

fn entry(id: &str, run: QueuedRun) -> QueueEntry {
    QueueEntry { queue_id: id.to_string(), run }
}

#[test]
fn entry_status_lifecycle_precedence() {
    // Fresh entry, nothing attempted yet.
    assert_eq!(entry_status(&test_entry(None, false, None)), "pending");
    // Run created server-side, attachments still to upload.
    assert_eq!(entry_status(&test_entry(Some("run_1"), false, None)), "attachments pending");
    // Backoff wins over run_id: a created run with failing attachments is not
    // terminal success.
    assert_eq!(
        entry_status(&test_entry(Some("run_1"), false, Some("2026-01-01T00:00:00Z"))),
        "backoff"
    );
    // Parked wins over everything.
    assert_eq!(entry_status(&test_entry(Some("run_1"), true, None)), "parked");
    assert_eq!(entry_status(&test_entry(None, true, None)), "parked");
}

#[test]
fn new_queue_id_prefixes_procedure_then_underscore_millis() {
    let id = new_queue_id("proc_abc", 1_767_225_600_123);
    let suffix = id.strip_prefix("proc_abc_").expect("id must start with `<procedure_id>_`");
    assert!(suffix.parse::<i64>().is_ok(), "suffix must be epoch millis, got {suffix:?}");
    assert_eq!(suffix, "1767225600123");
}

#[test]
fn new_queue_id_namespaces_by_procedure() {
    let a = new_queue_id("proc_a", 7);
    let b = new_queue_id("proc_b", 7);
    assert!(a.starts_with("proc_a_"));
    assert!(b.starts_with("proc_b_"));
    assert_ne!(a, b);
}

#[test]
fn backoff_follows_expected_progression_and_caps() {
    assert_eq!(backoff_seconds(0), 15);
    assert_eq!(backoff_seconds(1), 15);
    assert_eq!(backoff_seconds(2), 30);
    assert_eq!(backoff_seconds(3), 300);
    assert_eq!(backoff_seconds(4), 900);
    // Caps at one hour for all further attempts.
    assert_eq!(backoff_seconds(5), 3600);
    assert_eq!(backoff_seconds(99), 3600);
}

#[test]
fn dashboard_url_joins_segments_and_trims_base_slash() {
    assert_eq!(
        dashboard_url_for("https://x.app", "acme", "proc_1", "run_9"),
        "https://x.app/acme/proc_1/runs/run_9"
    );
    // A trailing slash on the base must not double up.
    assert_eq!(
        dashboard_url_for("https://x.app/", "acme", "proc_1", "run_9"),
        "https://x.app/acme/proc_1/runs/run_9"
    );
}

#[test]
fn attachment_error_transient_keywords_retry() {
    for msg in ["connection refused", "DNS failure", "request timeout"] {
        let c = classify_attachment_error(msg.to_string());
        assert_eq!(c.kind, "network", "{msg:?} should be network");
        assert!(!c.park, "{msg:?} should retry, not park");
    }
}

#[test]
fn attachment_error_deterministic_keywords_park() {
    for msg in ["access denied", "signature expired", "not found"] {
        let c = classify_attachment_error(msg.to_string());
        assert_eq!(c.kind, "unknown", "{msg:?} should be unknown");
        assert!(c.park, "{msg:?} should park, not retry");
    }
}

#[test]
fn attachment_error_deterministic_wins_over_transient() {
    let c = classify_attachment_error("connection denied".to_string());
    assert!(c.park);
    assert_eq!(c.kind, "unknown");
}

#[test]
fn attachment_error_is_kept_as_it_was_said() {
    let c = classify_lowered("Temporarily DOWN".to_string(), "temporarily down");
    assert_eq!(c.error, "Temporarily DOWN");
    assert_eq!(c.kind, "network");
}

#[test]
fn server_answers_decide_whether_to_retry() {
    let refused = classify_sdk_error(SdkError::UnprocessableContent("bad".to_string()));
    assert_eq!(refused.kind, "http_4xx");
    assert!(refused.park);
    let down = classify_sdk_error(SdkError::BadGateway("down".to_string()));
    assert_eq!(down.kind, "http_5xx");
    assert_eq!(down.status, Some(502));
    assert!(!down.park);
    let limited = classify_sdk_error(SdkError::RateLimited("slow".to_string()));
    assert!(!limited.park);
}

#[test]
fn long_errors_are_cut() {
    let short = "x".repeat(100);
    assert_eq!(truncate_error(short.clone()), short);
    let cut = truncate_error("y".repeat(20_000));
    assert!(cut.ends_with("\n…(truncated)"));
    assert!(cut.len() < 20_000);
}

#[test]
fn one_upload_at_a_time() {
    let mut claims = UploadClaims::new();
    assert!(claims.try_acquire("q1"));
    assert!(!claims.try_acquire("q1"));
    assert!(claims.try_acquire("q2"));
    claims.release("q1");
    assert!(claims.try_acquire("q1"));
}

#[test]
fn entries_are_due_strictly_after_their_time() {
    let at = Some("2026-01-01T00:00:00Z");
    assert!(!is_due(&test_entry(None, false, at), NOW));
    assert!(is_due(&test_entry(None, false, at), Instant { secs: NOW.secs, nanos: 1 }));
    assert!(is_due(&test_entry(None, false, Some("not a time")), NOW));
    assert!(is_due(&test_entry(None, false, None), NOW));
    assert!(!is_due(&test_entry(None, true, None), NOW));
}

#[test]
fn drain_keeps_the_order_of_what_is_due() {
    let pending = vec![
        entry("a", test_entry(None, false, None)),
        entry("b", test_entry(None, true, None)),
        entry("c", test_entry(None, false, None)),
    ];
    let due: Vec<String> = drain(&pending, NOW).into_iter().map(|e| e.queue_id).collect();
    assert_eq!(due, vec!["a".to_string(), "c".to_string()]);
}

#[test]
fn failures_are_recorded_and_announced() {
    let cls = classify_attachment_error("connection reset".to_string());
    let (kept, event) = record_failure("q1", &test_entry(Some("r1"), false, None), 2, &cls, NOW);
    assert_eq!(kept.run_id, Some("r1".to_string()));
    assert_eq!(kept.attempt_count, 2);
    assert_eq!(kept.next_retry_at, Some("2026-01-01T00:00:30+00:00".to_string()));
    assert_eq!(kept.last_attempt_at, Some("2026-01-01T00:00:00+00:00".to_string()));
    assert!(!kept.parked);
    match event {
        StationEvent::RunUploadFailed { attempt, kind, next_retry_at, .. } => {
            assert_eq!(attempt, 2);
            assert_eq!(kind, "network");
            assert_eq!(next_retry_at, kept.next_retry_at);
        }
        other => panic!("expected a failure, got {:?}", other),
    }
}

#[test]
fn passing_failures_are_retried_within_the_calendar() {
    let cls = classify_attachment_error("connection reset".to_string());
    let next = |secs: i64, nanos: u32| {
        let now = Instant { secs, nanos };
        record_failure("q1", &test_entry(None, false, None), 1, &cls, now).0.next_retry_at
    };
    let last = 8_210_266_876_799;
    assert_eq!(next(last - 15, 0).as_deref(), Some("+262142-12-31T23:59:59+00:00"));
    assert_eq!(next(last - 14, 0), None);
    let first = -8_334_601_228_800;
    assert_eq!(next(first, 0).as_deref(), Some("-262143-01-01T00:00:15+00:00"));
    assert_eq!(next(first - 1, 0), None);
    assert_eq!(next(59, 1_500_000_000).as_deref(), Some("1970-01-01T00:01:14.500+00:00"));
    assert_eq!(next(58, 1_500_000_000), None);
    assert_eq!(next(59, 2_000_000_000), None);
}

#[test]
fn parked_failures_wait_for_the_operator() {
    let cls = classify_sdk_error(SdkError::BadRequest("no".to_string()));
    let (kept, _) = record_failure("q1", &test_entry(None, false, None), 1, &cls, NOW);
    assert!(kept.parked);
    assert_eq!(kept.next_retry_at, None);
    assert!(!is_due(&kept, NOW));
    let back = retry_one(&kept);
    assert!(!back.parked);
    assert!(is_due(&back, NOW));
}

#[test]
fn enqueue_keeps_the_first_time() {
    let mut fresh = test_entry(None, false, None);
    match enqueue("q1", &mut fresh, NOW) {
        StationEvent::RunUploadQueued { queue_id, outcome, queued_at, attachment_count, .. } => {
            assert_eq!(queue_id, "q1");
            assert_eq!(outcome, "PASS");
            assert_eq!(queued_at, "2026-01-01T00:00:00+00:00");
            assert_eq!(attachment_count, 0);
        }
        other => panic!("expected an entry, got {:?}", other),
    }
    assert_eq!(fresh.queued_at, Some("2026-01-01T00:00:00+00:00".to_string()));
    let later = Instant { secs: NOW.secs + 10, nanos: 0 };
    enqueue("q1", &mut fresh, later);
    assert_eq!(fresh.queued_at, Some("2026-01-01T00:00:00+00:00".to_string()));
}

#[test]
fn uploads_create_the_run_once_and_leave_the_queue() {
    let mut queued = test_entry(None, false, None);
    queued.attachments = vec![file("a.txt"), file("b.txt")];
    let (mut upload, started) = Upload::begin("q1", &queued);
    assert!(matches!(started, StationEvent::RunUploadStarted { attempt: 1, .. }));
    assert!(matches!(upload.next(), UploadAction::CreateRun));
    upload.created("run_9".to_string(), NOW);
    assert!(matches!(upload.next(), UploadAction::Attach { index: 0 }));
    upload.attached(AttachmentOutcome::Uploaded);
    assert!(matches!(upload.next(), UploadAction::Attach { index: 1 }));
    let early = upload.finish("https://x.app/", "acme", NOW);
    assert!(!early.remove && early.keep.is_none() && early.events.is_empty());
    assert_eq!(early.run_id, None);
    upload.attached(AttachmentOutcome::Missing);
    assert!(matches!(upload.next(), UploadAction::Finish));
    let end = upload.finish("https://x.app/", "acme", NOW);
    assert!(end.remove);
    assert!(end.keep.is_none());
    assert_eq!(end.run_id, Some("run_9".to_string()));
    assert_eq!(end.events.len(), 2);
    match &end.events[0] {
        StationEvent::RunUploadSucceeded { dashboard_url, .. } => assert_eq!(
            dashboard_url.as_deref(),
            Some("https://x.app/acme/proc_1/runs/run_9")
        ),
        other => panic!("expected success, got {:?}", other),
    }
}

#[test]
fn failed_files_keep_the_entry_and_its_run() {
    let mut queued = test_entry(None, false, None);
    queued.attachments = vec![file("a.txt"), file("b.txt")];
    let (mut upload, _) = Upload::begin("q1", &queued);
    upload.created("run_9".to_string(), NOW);
    upload.attached(AttachmentOutcome::Failed("connection reset".to_string()));
    upload.attached(AttachmentOutcome::Uploaded);
    let end = upload.finish("https://x.app", "acme", NOW);
    assert!(!end.remove);
    assert_eq!(end.run_id, None);
    let kept = end.keep.expect("kept");
    assert_eq!(kept.run_id, Some("run_9".to_string()));
    let (again, _) = Upload::begin("q1", &kept);
    assert!(!matches!(again.next(), UploadAction::CreateRun));
}

#[test]
fn failed_creation_is_recorded() {
    let (upload, _) = Upload::begin("q1", &test_entry(None, false, None));
    let end = upload.create_failed(SdkError::NotFound("gone".to_string()), NOW);
    assert!(!end.remove);
    let kept = end.keep.expect("kept");
    assert!(kept.parked);
    assert_eq!(kept.last_error.as_ref().map(|e| e.kind.as_str()), Some("http_4xx"));
    assert_eq!(kept.last_error.as_ref().and_then(|e| e.status), Some(404));
    assert_eq!(end.events.len(), 1);
}

#[test]
fn snapshots_show_entries_and_their_failures() {
    let mut failed = test_entry(None, true, None);
    failed.last_error = Some(UploadFailureRecord {
        kind: "http_4xx".to_string(),
        status: Some(404),
        error: "gone".to_string(),
        failed_at: None,
    });
    failed.attempt_count = 3;
    let events =
        snapshot_events(&vec![entry("a", test_entry(None, false, None)), entry("b", failed)], NOW);
    assert_eq!(events.len(), 3);
    assert!(matches!(&events[0], StationEvent::RunUploadQueued { queue_id, .. } if queue_id == "a"));
    assert!(matches!(&events[1], StationEvent::RunUploadQueued { queue_id, .. } if queue_id == "b"));
    assert!(matches!(&events[2], StationEvent::RunUploadFailed { attempt: 3, .. }));
}

#[test]
fn only_entries_that_are_there_are_dropped() {
    let pending = vec![entry("a", test_entry(None, false, None))];
    assert!(drop_one(&pending, "b").is_none());
    match drop_one(&pending, "a") {
        Some(StationEvent::RunUploadDropped { queue_id, reason }) => {
            assert_eq!(queue_id, "a");
            assert_eq!(reason, "manual");
        }
        other => panic!("expected a drop, got {:?}", other),
    }
}

#[test]
fn summary_is_flat_json() {
    let text = entry_summary("q1", &test_entry(Some("r1"), false, None)).render();
    let json = Json::parse(&text).expect("JSON");
    assert_eq!(json.get_text("queue_id"), Some(&"q1".to_string()));
    assert_eq!(json.get_text("outcome"), Some(&"PASS".to_string()));
    assert_eq!(json.get_text("status"), Some(&"attachments pending".to_string()));
    assert_eq!(json.get_int("attempts"), Some(0));
    assert_eq!(json.get_bool("parked"), Some(false));
    assert_eq!(json.get("last_error"), Some(&Json::Null));
}

#[test]
fn listing_speaks_json_or_shows_a_table() {
    let pending = vec![entry("a", test_entry(None, false, None))];
    assert!(list_cmd(&pending, false).is_none());
    let json = list_cmd(&pending, true).expect("lines");
    assert_eq!(json.stdout.len(), 1);
    assert_eq!(json.exit_code, 0);
    let empty = list_cmd(&Vec::new(), false).expect("a word");
    assert_eq!(empty.stderr, vec!["Queue is empty.".to_string()]);
    assert_eq!(list_columns().len(), 7);
    assert_eq!(list_columns()[0].header, "QUEUE ID");
}

#[test]
fn one_entry_in_words() {
    let mut q = test_entry(Some("r1"), false, Some("2026-01-01T00:00:00Z"));
    q.attachments = vec![file("a.txt")];
    q.last_error = Some(UploadFailureRecord {
        kind: "http_5xx".to_string(),
        status: Some(502),
        error: "down".to_string(),
        failed_at: None,
    });
    let out = get_cmd("q1", &q, &vec![false]);
    let expected: Vec<String> = [
        "Queue ID:     q1",
        "Status:       backoff",
        "Procedure:    proc_1",
        "Serial:       SN1",
        "Outcome:      PASS",
        "Run ID:       r1 (run created server-side)",
        "Attempts:     0",
        "Next retry:   2026-01-01T00:00:00Z",
        "Last error:   http_5xx (HTTP 502): down",
        "Attachments:",
        "  a.txt (text/plain) /tmp/a.txt (missing)",
    ]
    .iter()
    .map(|s| s.to_string())
    .collect();
    assert_eq!(out.stdout, expected);
    assert_eq!(out.exit_code, 0);
}

#[test]
fn entries_in_json_carry_identity_and_status() {
    let value = Json::parse(r#"{"parked": true, "status": "old"}"#).expect("JSON");
    let tagged = tag_entry(value, "q1", &test_entry(None, true, None));
    assert_eq!(tagged.get_text("queue_id"), Some(&"q1".to_string()));
    assert_eq!(tagged.get_text("status"), Some(&"parked".to_string()));
}

#[test]
fn exports_say_where() {
    let words = export_cmd("q1", "/tmp/x", false);
    assert_eq!(words.stderr, vec!["Exported q1 to /tmp/x".to_string()]);
    let json = export_cmd("q1", "/tmp/x", true);
    let line = Json::parse(&json.stdout[0]).expect("JSON");
    assert_eq!(line.get_text("type"), Some(&"exported".to_string()));
    assert_eq!(line.get_text("path"), Some(&"/tmp/x".to_string()));
}

#[test]
fn retrying_everything_brings_back_what_waits() {
    let pending = vec![
        entry("a", test_entry(None, true, None)),
        entry("b", test_entry(None, false, None)),
        entry("c", test_entry(None, false, Some("2026-01-01T00:00:00Z"))),
    ];
    let back = retry_all(&pending);
    assert_eq!(back.len(), 2);
    assert!(back.iter().all(|e| !e.run.parked && e.run.next_retry_at.is_none()));
    assert_eq!(retry_all_done(1, false).stderr, vec!["1 entry still queued.".to_string()]);
    assert_eq!(retry_all_done(2, false).stderr, vec!["2 entries still queued.".to_string()]);
    assert_eq!(retry_all_done(2, false).exit_code, 1);
    assert_eq!(retry_all_done(0, false).exit_code, 0);
    let json = Json::parse(&retry_all_done(0, true).stdout[0]).expect("JSON");
    assert_eq!(json.get_int("remaining"), Some(0));
}

#[test]
fn retrying_one_entry_reports_the_run_or_the_failure() {
    let done = retry_cmd("q1", &Some("r1".to_string()), &None, true);
    assert_eq!(done.exit_code, 0);
    let line = Json::parse(&done.stdout[0]).expect("JSON");
    assert_eq!(line.get_text("type"), Some(&"uploaded".to_string()));

    let failed = retry_cmd("q1", &None, &Some(test_entry(Some("r1"), true, None)), true);
    assert_eq!(failed.exit_code, 1);
    let line = Json::parse(&failed.stdout[0]).expect("JSON");
    assert_eq!(line.get_text("type"), Some(&"failed".to_string()));
    assert_eq!(line.get_text("run_id"), Some(&"r1".to_string()));
    assert_eq!(line.get("error"), Some(&Json::Null));
    assert!(retry_cmd("q1", &None, &None, false).stdout.is_empty());
}

#[test]
fn dropping_needs_a_target() {
    let pending = Ok(vec![
        entry("a", test_entry(None, false, None)),
        entry("b", test_entry(None, true, None)),
    ]);
    let one = drop_cmd(&pending, &Some("b".to_string()), false, false);
    assert_eq!(one.ids, vec!["b".to_string()]);
    assert_eq!(one.output.stderr, vec!["Removed: b".to_string()]);
    let none = drop_cmd(&pending, &Some("z".to_string()), false, false);
    assert_eq!(none.output.exit_code, 1);
    assert_eq!(none.output.stderr, vec!["Queue entry 'z' not found.".to_string()]);
    let all = drop_cmd(&pending, &None, true, false);
    assert_eq!(all.ids.len(), 2);
    assert_eq!(all.output.stderr, vec!["Removed 2 entries.".to_string()]);
    let unsaid = drop_cmd(&pending, &None, false, false);
    assert!(unsaid.ids.is_empty());
    assert_eq!(unsaid.output.exit_code, 1);
    assert_eq!(drop_cmd(&Ok(Vec::new()), &None, true, true).output.stdout.len(), 0);
}

#[test]
fn dropping_tells_faults_in_order() {
    let unread = || Err(QueueFault::Read("x".to_string()));
    let target = drop_cmd(&unread(), &None, false, false);
    assert_eq!(
        target.output.stderr,
        vec!["Specify a queue ID or use --all to remove everything.".to_string()]
    );
    for (id, all) in [(Some("a".to_string()), false), (None, true)] {
        let plan = drop_cmd(&unread(), &id, all, false);
        assert!(plan.ids.is_empty());
        assert_eq!(plan.output.stderr, vec!["Failed to read queue: x".to_string()]);
        assert_eq!(plan.output.exit_code, 1);
    }
    let closed = drop_cmd(&Err(QueueFault::Open("locked".to_string())), &None, false, false);
    assert_eq!(closed.output.stderr, vec!["Failed to open database: locked".to_string()]);
}

#[test]
fn faults_of_the_queue_are_said() {
    let out = queue_unreadable(&QueueFault::Open("locked".to_string()));
    assert_eq!(out.stderr, vec!["Failed to open database: locked".to_string()]);
    assert_eq!(out.exit_code, 1);
    let out = queue_unreadable(&QueueFault::Read("x".to_string()));
    assert_eq!(out.stderr, vec!["Failed to read queue: x".to_string()]);
    let out = queue_unreadable(&QueueFault::Reread("x".to_string()));
    assert_eq!(out.stderr, vec!["Failed to read queue after retry: x".to_string()]);
    assert_eq!(entry_missing("q").exit_code, 1);
    let pending = vec![entry("a", test_entry(None, false, None))];
    assert!(find_entry(&pending, "a").is_some());
    assert!(find_entry(&pending, "b").is_none());
}

#[test]
fn replies_name_the_place_of_a_file() {
    assert_eq!(
        attachments_url("https://x.app", "run_9"),
        "https://x.app/api/v2/runs/run_9/attachments"
    );
    assert_eq!(read_place(r#"{"id": 1, "upload_url": "https://s/1"}"#), Ok("https://s/1".to_string()));
    assert_eq!(read_place(r#"{"upload_url": 1}"#), Err(ReplyFault::NoUrl));
    assert_eq!(read_place("[]"), Err(ReplyFault::NoUrl));
    assert_eq!(read_place("oops"), Err(ReplyFault::NotJson));
    assert_eq!(place_of(&Json::Null), Err(ReplyFault::NoUrl));
}
