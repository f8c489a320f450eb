//! What holds of the queue: which failures pass, when an entry is tried again,
//! and what is told of it.

use vstd::prelude::*;
use crate::event_router::stamp_text;
use crate::json::{json_of_text, JsonField, JsonFieldView, JsonView};
use crate::assoc;
use crate::protocol::StationEventView;
use crate::queue::policy::{
    brought_back, classified, dashboard_url, due, due_entries,
    failure_event, queue_id_of, released, with_failure, ClassifiedFailureView, QueueEntryView,
    SdkErrorView,
};
use crate::queue::upload::{
    attempt_after, finished, next_action, not_created, place_in_text, queued_event, snapshot,
    with_outcome, with_run, AttachmentOutcomeView, ReplyFault, UploadActionView, UploadView,
};
use crate::queue::QueuedRunView;
use crate::sdk::RunGetOutcome;
use crate::text::{
    decimal_int, drop_end_while, fitting_prefix, has_part, lemma_fitting_prefix, lowercase, one_of,
    utf8_size,
};
use crate::time::{instant_after, rfc3339_instant, Instant};

verus! {

/// A failure is tried again exactly where it may pass: where the server is
/// overloaded or failed, or where it was not reached.
pub proof fn law_only_passing_failures_are_retried(err: SdkErrorView)
    ensures
        classified(err).park == false <==> (err is RateLimited || err is InternalServerError
            || err is BadGateway || err is Http || err is Io || (err is UnexpectedStatus && 500
            <= err->status < 600)),
{
}

/// The kind of a failure says who failed: the sender, the server, the way
/// between them, or nobody knows.
pub proof fn law_failures_tell_their_kind(err: SdkErrorView)
    ensures
        classified(err).kind == "http_4xx"@ <==> (err is BadRequest || err is Unauthorized
            || err is Forbidden || err is NotFound || err is Conflict || err is UnprocessableContent
            || err is Validation || (err is UnexpectedStatus && 400 <= err->status < 500)),
        classified(err).kind == "http_5xx"@ <==> (err is RateLimited || err is InternalServerError
            || err is BadGateway || (err is UnexpectedStatus && 500 <= err->status < 600)),
        classified(err).kind == "network"@ <==> (err is Http || err is Io),
        classified(err).kind == "unknown"@ <==> (err is Json || (err is UnexpectedStatus && (
        err->status < 400 || err->status >= 600))),
{
    lemma_kinds();
}

proof fn lemma_kinds()
    ensures
        "http_4xx"@ != "http_5xx"@,
        "http_4xx"@ != "network"@,
        "http_4xx"@ != "unknown"@,
        "http_5xx"@ != "network"@,
        "http_5xx"@ != "unknown"@,
        "network"@ != "unknown"@,
{
    reveal_strlit("http_4xx");
    reveal_strlit("http_5xx");
    reveal_strlit("network");
    reveal_strlit("unknown");
    assert("http_4xx"@[5] == '4' && "http_5xx"@[5] == '5');
    assert("http_4xx"@[0] == 'h' && "http_5xx"@[0] == 'h' && "network"@[0] == 'n' && "unknown"@[0]
        == 'u');
}

/// The status of a failure is the one that the server gave; a failure without
/// an answer, or before one, has none.
pub proof fn law_failures_tell_their_status(err: SdkErrorView)
    ensures
        err is BadRequest ==> classified(err).status == Some(400u16),
        err is Unauthorized ==> classified(err).status == Some(401u16),
        err is Forbidden ==> classified(err).status == Some(403u16),
        err is NotFound ==> classified(err).status == Some(404u16),
        err is Conflict ==> classified(err).status == Some(409u16),
        err is UnprocessableContent ==> classified(err).status == Some(422u16),
        err is RateLimited ==> classified(err).status == Some(429u16),
        err is InternalServerError ==> classified(err).status == Some(500u16),
        err is BadGateway ==> classified(err).status == Some(502u16),
        err is UnexpectedStatus ==> classified(err).status == Some(err->status),
        classified(err).status is None <==> (err is Http || err is Json || err is Io
            || err is Validation),
{
}

/// Whether an error text is a message within four kibibytes, or as much of its
/// beginning as fits with a note that it was cut.
pub open spec fn keeps(error: Seq<char>, message: Seq<char>) -> bool {
    &&& utf8_size(message) <= 4096 ==> error == message
    &&& utf8_size(message) > 4096 ==> exists|n: int|
        0 <= n < message.len() && error == #[trigger] message.take(n) + "\n…(truncated)"@
            && utf8_size(message.take(n)) <= 4096 && utf8_size(message.take(n + 1)) > 4096
}

proof fn lemma_keeps(message: Seq<char>)
    ensures
        keeps(crate::queue::policy::truncated(message), message),
{
    if utf8_size(message) > 4096 {
        lemma_fitting_prefix(message, 4096);
        let kept = fitting_prefix(message, 4096);
        let n = kept.len() as int;
        assert(kept =~= message.take(n));
        assert(message.take(message.len() as int) =~= message);
        assert(n < message.len());
    }
}

/// The text of a failure is the message that came with it.
pub proof fn law_failures_tell_their_message(err: SdkErrorView)
    ensures
        err matches SdkErrorView::BadRequest(m) ==> keeps(classified(err).error, m),
        err matches SdkErrorView::Unauthorized(m) ==> keeps(classified(err).error, m),
        err matches SdkErrorView::Forbidden(m) ==> keeps(classified(err).error, m),
        err matches SdkErrorView::NotFound(m) ==> keeps(classified(err).error, m),
        err matches SdkErrorView::Conflict(m) ==> keeps(classified(err).error, m),
        err matches SdkErrorView::UnprocessableContent(m) ==> keeps(classified(err).error, m),
        err matches SdkErrorView::RateLimited(m) ==> keeps(classified(err).error, m),
        err matches SdkErrorView::InternalServerError(m) ==> keeps(classified(err).error, m),
        err matches SdkErrorView::BadGateway(m) ==> keeps(classified(err).error, m),
        err matches SdkErrorView::UnexpectedStatus { status, body } ==> keeps(
            classified(err).error,
            body,
        ),
        err matches SdkErrorView::Http(e) ==> keeps(classified(err).error, "HTTP transport: "@ + e),
        err matches SdkErrorView::Json(e) ==> keeps(classified(err).error, "JSON: "@ + e),
        err matches SdkErrorView::Io(e) ==> keeps(classified(err).error, "I/O: "@ + e),
        err matches SdkErrorView::Validation(m) ==> keeps(classified(err).error, m),
{
    match err {
        SdkErrorView::BadRequest(m) => lemma_keeps(m),
        SdkErrorView::Unauthorized(m) => lemma_keeps(m),
        SdkErrorView::Forbidden(m) => lemma_keeps(m),
        SdkErrorView::NotFound(m) => lemma_keeps(m),
        SdkErrorView::Conflict(m) => lemma_keeps(m),
        SdkErrorView::UnprocessableContent(m) => lemma_keeps(m),
        SdkErrorView::RateLimited(m) => lemma_keeps(m),
        SdkErrorView::InternalServerError(m) => lemma_keeps(m),
        SdkErrorView::BadGateway(m) => lemma_keeps(m),
        SdkErrorView::UnexpectedStatus { status, body } => lemma_keeps(body),
        SdkErrorView::Http(e) => lemma_keeps("HTTP transport: "@ + e),
        SdkErrorView::Json(e) => lemma_keeps("JSON: "@ + e),
        SdkErrorView::Io(e) => lemma_keeps("I/O: "@ + e),
        SdkErrorView::Validation(m) => lemma_keeps(m),
    }
}

/// The words by which a text says that trying again does not help.
pub open spec fn refusal_words() -> Seq<Seq<char>> {
    seq!["denied"@, "forbidden"@, "expired"@, "signature"@, "invalid"@, "not found"@]
}

/// The words by which a text says that its cause may pass.
pub open spec fn passing_words() -> Seq<Seq<char>> {
    seq!["connection"@, "timeout"@, "dns"@, "reset"@, "temporarily"@]
}

/// Whether one of some words stands in a text.
pub open spec fn says_one_of(text: Seq<char>, words: Seq<Seq<char>>) -> bool {
    exists|i: int| 0 <= i < words.len() && has_part(text, #[trigger] words[i])
}

/// A file is tried again exactly where its error speaks of something that may
/// pass and of nothing that does not, whatever the case of its letters.
pub proof fn law_files_are_retried_by_their_error(u: UploadView, e: Seq<char>)
    ensures
        ({
            let after = with_outcome(u, AttachmentOutcomeView::Failed(e)).failure;
            let passes = says_one_of(lowercase(e), passing_words()) && !says_one_of(
                lowercase(e),
                refusal_words(),
            );
            &&& after is Some
            &&& after->0.park == !passes
            &&& after->0.kind == (if passes {
                "network"@
            } else {
                "unknown"@
            })
            &&& after->0.status is None
            &&& keeps(after->0.error, e)
        }),
{
    lemma_keeps(e);
    let lower = lowercase(e);
    let p = passing_words();
    let r = refusal_words();
    assert(p[0] == "connection"@ && p[1] == "timeout"@ && p[2] == "dns"@ && p[3] == "reset"@ && p[4]
        == "temporarily"@);
    assert(r[0] == "denied"@ && r[1] == "forbidden"@ && r[2] == "expired"@ && r[3] == "signature"@
        && r[4] == "invalid"@ && r[5] == "not found"@);
    if says_one_of(lower, p) {
        let i = choose|i: int| 0 <= i < p.len() && has_part(lower, #[trigger] p[i]);
        assert(i == 0 || i == 1 || i == 2 || i == 3 || i == 4);
    }
    if says_one_of(lower, r) {
        let i = choose|i: int| 0 <= i < r.len() && has_part(lower, #[trigger] r[i]);
        assert(i == 0 || i == 1 || i == 2 || i == 3 || i == 4 || i == 5);
    }
}

/// What came of a file counts it; only a failure changes what is remembered.
pub proof fn law_files_are_counted(u: UploadView, outcome: AttachmentOutcomeView)
    requires
        u.done < u64::MAX,
    ensures
        ({
            let after = with_outcome(u, outcome);
            &&& after.done == u.done + 1
            &&& !(outcome is Failed) ==> after.failure == u.failure
            &&& after.state == u.state
            &&& after.attempt == u.attempt
            &&& after.queue_id == u.queue_id
        }),
{
}

/// The wait after an attempt: a quarter of a minute, half a minute, five
/// minutes, a quarter of an hour, then an hour each time.
pub open spec fn wait_after(attempt: u32, seconds: i64) -> bool {
    ||| attempt <= 1 && seconds == 15
    ||| attempt == 2 && seconds == 30
    ||| attempt == 3 && seconds == 300
    ||| attempt == 4 && seconds == 900
    ||| attempt >= 5 && seconds == 3600
}

/// A failed attempt is recorded as it was, and the next is allowed after the
/// wait, or never where the entry is parked.
pub proof fn law_failures_are_recorded(
    q: QueuedRunView,
    attempt: u32,
    cls: ClassifiedFailureView,
    now: Instant,
    seconds: i64,
)
    requires
        wait_after(attempt, seconds),
    ensures
        ({
            let after = with_failure(q, attempt, cls, now);
            &&& after.attempt_count == attempt
            &&& after.last_attempt_at == Some(stamp_text(now))
            &&& after.parked == cls.park
            &&& cls.park || instant_after(now, seconds) is None ==> after.next_retry_at is None
            &&& !cls.park && instant_after(now, seconds) is Some ==> after.next_retry_at == Some(
                stamp_text(instant_after(now, seconds)->0),
            )
            &&& after.last_error is Some
            &&& after.last_error->0.kind == cls.kind
            &&& after.last_error->0.status == cls.status
            &&& after.last_error->0.error == cls.error
            &&& after.last_error->0.failed_at == Some(stamp_text(now))
            &&& after.request == q.request
            &&& after.attachments == q.attachments
            &&& after.run_id == q.run_id
            &&& after.queued_at == q.queued_at
        }),
{
}

/// A failed attempt is announced as it is recorded.
pub proof fn law_failures_are_announced(
    queue_id: Seq<char>,
    q: QueuedRunView,
    attempt: u32,
    cls: ClassifiedFailureView,
    now: Instant,
)
    ensures
        failure_event(queue_id, attempt, cls, now) matches StationEventView::RunUploadFailed {
            queue_id: id,
            attempt: told,
            kind,
            status,
            error,
            next_retry_at,
        } && {
            let kept = with_failure(q, attempt, cls, now);
            &&& id == queue_id
            &&& told == attempt
            &&& kind == cls.kind
            &&& status == cls.status
            &&& error == cls.error
            &&& next_retry_at == kept.next_retry_at
        },
{
}

/// An entry is tried where it is not parked and its time is over; one without
/// a time, or with one that cannot be read, is tried at once.
pub proof fn law_entries_are_due_after_their_time(q: QueuedRunView, now: Instant)
    ensures
        due(q, now) <==> !q.parked && (q.next_retry_at is None || rfc3339_instant(
            q.next_retry_at->0,
        ) is None || {
            let at = rfc3339_instant(q.next_retry_at->0)->0;
            at.secs < now.secs || (at.secs == now.secs && at.nanos < now.nanos)
        }),
{
}

/// The entries that are tried are those whose time is over, in order.
pub proof fn law_due_entries_are_tried(pending: Seq<QueueEntryView>, e: QueueEntryView, now: Instant)
    ensures
        due_entries(Seq::empty(), now).len() == 0,
        due_entries(pending.push(e), now) == (if due(e.run, now) {
            due_entries(pending, now).push(e)
        } else {
            due_entries(pending, now)
        }),
{
    reveal(Seq::filter);
    assert(pending.push(e).drop_last() =~= pending);
}

/// An entry that the operator brings back is as it was, but for its wait.
pub proof fn law_bringing_back_only_ends_the_wait(q: QueuedRunView)
    ensures
        ({
            let after = brought_back(q);
            &&& !after.parked
            &&& after.next_retry_at is None
            &&& after.request == q.request
            &&& after.attachments == q.attachments
            &&& after.run_id == q.run_id
            &&& after.attempt_count == q.attempt_count
            &&& after.last_attempt_at == q.last_attempt_at
            &&& after.last_error == q.last_error
            &&& after.queued_at == q.queued_at
        }),
{
}

/// Releasing an entry takes every claim of it away and leaves the others in
/// order.
pub proof fn law_release_keeps_the_others(claims: Seq<Seq<char>>, queue_id: Seq<char>)
    ensures
        released(claims, queue_id) == claims.filter(|c: Seq<char>| c != queue_id),
    decreases claims.len(),
{
    reveal(Seq::filter);
    if claims.len() > 0 {
        law_release_keeps_the_others(claims.drop_last(), queue_id);
    }
}

/// The page of a run stands below the base, whether the base ends in slashes
/// or not.
pub proof fn law_dashboard_pages(
    base: Seq<char>,
    org_slug: Seq<char>,
    procedure_id: Seq<char>,
    run_id: Seq<char>,
)
    ensures
        base.len() == 0 || base.last() != '/' ==> dashboard_url(
            base,
            org_slug,
            procedure_id,
            run_id,
        ) == base + seq!['/'] + org_slug + seq!['/'] + procedure_id + "/runs/"@ + run_id,
        dashboard_url(base.push('/'), org_slug, procedure_id, run_id) == dashboard_url(
            base,
            org_slug,
            procedure_id,
            run_id,
        ),
{
    reveal_strlit("/");
    assert("/"@ =~= seq!['/']);
    let p = one_of(seq!['/']);
    assert(seq!['/'][0] == '/');
    assert(p('/'));
    assert(base.push('/').drop_last() =~= base);
    if base.len() == 0 || base.last() != '/' {
        assert(drop_end_while(base, p) == base);
    }
}

/// The identity of an entry begins with its procedure and ends with its time.
pub proof fn law_queue_ids_hold_procedure_and_time(procedure_id: Seq<char>, millis: i64)
    ensures
        ({
            let id = queue_id_of(procedure_id, millis);
            let n = procedure_id.len() as int;
            &&& id.len() > n
            &&& id.take(n) == procedure_id
            &&& id[n] == '_'
            &&& id.skip(n + 1) == decimal_int(millis as int)
        }),
{
    reveal_strlit("_");
    let id = queue_id_of(procedure_id, millis);
    let n = procedure_id.len() as int;
    assert(id.take(n) =~= procedure_id);
    assert(id.skip(n + 1) =~= decimal_int(millis as int));
}

/// An entry is announced with the outcome of its run in words, its unit, its
/// procedure and the number of its files.
pub proof fn law_entries_are_announced(queue_id: Seq<char>, q: QueuedRunView, now: Instant)
    requires
        q.attachments.len() <= u32::MAX,
    ensures
        queued_event(queue_id, q, now) matches StationEventView::RunUploadQueued {
            queue_id: id,
            procedure_id,
            outcome,
            serial_number,
            attachment_count,
            queued_at,
        } && {
            &&& id == queue_id
            &&& procedure_id == q.request.procedure_id
            &&& outcome == "PASS"@ <==> q.request.outcome == RunGetOutcome::Pass
            &&& outcome == "FAIL"@ <==> q.request.outcome == RunGetOutcome::Fail
            &&& outcome == "ERROR"@ <==> q.request.outcome == RunGetOutcome::Error
            &&& outcome == "TIMEOUT"@ <==> q.request.outcome == RunGetOutcome::Timeout
            &&& outcome == "ABORTED"@ <==> q.request.outcome == RunGetOutcome::Aborted
            &&& serial_number == Some(q.request.serial_number)
            &&& attachment_count == q.attachments.len()
            &&& q.queued_at is Some ==> queued_at == q.queued_at->0
            &&& q.queued_at is None ==> queued_at == stamp_text(now)
        },
{
    reveal_strlit("PASS");
    reveal_strlit("FAIL");
    reveal_strlit("ERROR");
    reveal_strlit("TIMEOUT");
    reveal_strlit("ABORTED");
    assert("PASS"@[0] == 'P' && "FAIL"@[0] == 'F' && "ERROR"@[0] == 'E' && "TIMEOUT"@[0] == 'T'
        && "ABORTED"@[0] == 'A');
}

/// Attempts are counted one by one, as far as the count goes.
pub proof fn law_attempts_are_counted(count: u32)
    ensures
        count < u32::MAX ==> attempt_after(count) == count + 1,
        count == u32::MAX ==> attempt_after(count) == count,
{
}

/// An entry whose run is created keeps its run, forgets its last failure and
/// waits for nothing.
pub proof fn law_created_runs_are_kept(
    q: QueuedRunView,
    run_id: Seq<char>,
    attempt: u32,
    now: Instant,
)
    ensures
        ({
            let after = with_run(q, run_id, attempt, now);
            &&& after.run_id == Some(run_id)
            &&& after.attempt_count == attempt
            &&& after.last_attempt_at == Some(stamp_text(now))
            &&& after.last_error is None
            &&& after.next_retry_at is None
            &&& !after.parked
            &&& after.request == q.request
            &&& after.attachments == q.attachments
            &&& after.queued_at == q.queued_at
        }),
{
}

/// The run comes first, then each file in turn, then the end.
pub proof fn law_files_follow_the_run(u: UploadView)
    ensures
        next_action(u) is CreateRun <==> u.state.run_id is None,
        next_action(u) is Finish <==> u.state.run_id is Some && u.done
            >= u.state.attachments.len(),
        next_action(u) is Attach <==> u.state.run_id is Some && u.done < u.state.attachments.len(),
        next_action(u) matches UploadActionView::Attach { index } ==> index == u.done,
{
}

/// An attempt that could not create its run keeps the entry, records the
/// failure and announces it.
pub proof fn law_runs_that_are_not_created_are_kept(u: UploadView, err: SdkErrorView, now: Instant)
    ensures
        ({
            let end = not_created(u, err, now);
            &&& end.keep == Some(with_failure(u.state, u.attempt, classified(err), now))
            &&& !end.remove
            &&& end.run_id is None
            &&& end.events.len() == 1
            &&& end.events[0] == failure_event(u.queue_id, u.attempt, classified(err), now)
        }),
{
}

/// Where everything was uploaded, that is told with the page of the run, and
/// the entry leaves the queue. A file that failed is told, and keeps it.
pub proof fn law_uploads_are_told(
    u: UploadView,
    base_url: Seq<char>,
    org_slug: Seq<char>,
    now: Instant,
)
    ensures
        ({
            let end = finished(u, base_url, org_slug, now);
            let all = u.failure is None && u.state.run_id is Some && u.done
                >= u.state.attachments.len();
            &&& end.remove == all
            &&& end.run_id is Some <==> all
            &&& all ==> {
                let run_id = u.state.run_id->0;
                let procedure_id = u.state.request.procedure_id;
                let url = dashboard_url(base_url, org_slug, procedure_id, run_id);
                &&& end.run_id == Some(run_id)
                &&& end.keep is None
                &&& end.events.len() == 2
                &&& end.events[0] matches StationEventView::RunUploadSucceeded {
                    queue_id,
                    run_id: told,
                    dashboard_url: page,
                } && queue_id == u.queue_id && told == run_id && page == Some(url)
                &&& end.events[1] matches StationEventView::RunUploaded {
                    procedure_id: procedure,
                    run_id: told,
                    dashboard_url: page,
                } && procedure == procedure_id && told == run_id && page == Some(url)
            }
            &&& u.failure matches Some(cls) ==> {
                &&& end.keep == Some(with_failure(u.state, u.attempt, cls, now))
                &&& end.events.len() == 1
                &&& end.events[0] == failure_event(u.queue_id, u.attempt, cls, now)
            }
            &&& u.failure is None ==> end.keep is None
            &&& u.failure is None && !all ==> end.events.len() == 0
        }),
{
}

/// The place for a file is the text under `upload_url` of a reply that is an
/// object.
pub proof fn law_replies_name_the_place(
    text: Seq<char>,
    fields: Seq<JsonFieldView>,
    k: int,
    url: Seq<char>,
)
    requires
        json_of_text(text) == Some(JsonView::Object(fields)),
    ensures
        0 <= k < fields.len() && fields[k].key == "upload_url"@ && (forall|j: int|
            0 <= j < k ==> (#[trigger] fields[j]).key != "upload_url"@) && fields[k].value
            == JsonView::Text(url) ==> place_in_text(text) == Ok::<Seq<char>, ReplyFault>(url),
        (forall|j: int| 0 <= j < fields.len() ==> (#[trigger] fields[j]).key != "upload_url"@)
            ==> place_in_text(text) == Err::<Seq<char>, ReplyFault>(ReplyFault::NoUrl),
{
    if 0 <= k < fields.len() && fields[k].key == "upload_url"@ && (forall|j: int|
        0 <= j < k ==> (#[trigger] fields[j]).key != "upload_url"@) {
        assoc::lemma_key_index_unique::<JsonField>(fields, "upload_url"@, k);
    }
    if forall|j: int| 0 <= j < fields.len() ==> (#[trigger] fields[j]).key != "upload_url"@ {
        assoc::lemma_key_index_unique::<JsonField>(fields, "upload_url"@, fields.len() as int);
    }
}

/// A reply that is not JSON names no place, and is told apart from one that
/// names none.
pub proof fn law_unreadable_replies_are_told(text: Seq<char>)
    ensures
        place_in_text(text) == Err::<Seq<char>, ReplyFault>(ReplyFault::NotJson) <==> json_of_text(
            text,
        ) is None,
{
}

/// A snapshot tells of the entries one after another: that each is queued, and
/// its last failure where it has one.
pub proof fn law_snapshots_tell_entries_in_order(
    pending: Seq<QueueEntryView>,
    e: QueueEntryView,
    now: Instant,
)
    ensures
        ({
            let before = snapshot(pending, now);
            let after = snapshot(pending.push(e), now);
            let n = before.len() as int;
            &&& after.take(n) == before
            &&& after[n] == queued_event(e.queue_id, e.run, now)
            &&& e.run.last_error is None ==> after.len() == n + 1
            &&& e.run.last_error matches Some(err) ==> {
                &&& after.len() == n + 2
                &&& after[n + 1] matches StationEventView::RunUploadFailed {
                    queue_id,
                    attempt,
                    kind,
                    status,
                    error,
                    next_retry_at,
                } && {
                    &&& queue_id == e.queue_id
                    &&& attempt == e.run.attempt_count
                    &&& kind == err.kind
                    &&& status == err.status
                    &&& error == err.error
                    &&& next_retry_at == e.run.next_retry_at
                }
            }
        }),
{
    let before = snapshot(pending, now);
    assert(pending.push(e).drop_last() =~= pending);
    assert(snapshot(pending.push(e), now).take(before.len() as int) =~= before);
}

} // verus!
