//! When an upload is tried again.

use vstd::prelude::*;
use vstd::string::*;
use crate::dup::{push, Dup};
use crate::event_router::{stamp, stamp_text};
use crate::order::Keyed;
use crate::protocol::{StationEvent, StationEventView};
use crate::queue::{QueuedRun, QueuedRunView, UploadFailureRecord, UploadFailureRecordView};
use crate::text;
use crate::text::{
    decimal, decimal_int, digit, drop_end_while, fitting_prefix, has_part, lowercase, one_of, utf8_size,
};
use crate::time::{
    after_seconds, before, in_calendar, instant_after, is_before, on_calendar, parse_rfc3339,
    rfc3339_instant, Instant,
};

verus! {

/// Longest error text that is kept, in bytes.
pub const MAX_ERROR_BODY: usize = 4_096;

/// An error of the client of the server.
#[derive(Debug, PartialEq, Eq)]
pub enum SdkError {
    BadRequest(String),
    Unauthorized(String),
    Forbidden(String),
    NotFound(String),
    Conflict(String),
    UnprocessableContent(String),
    RateLimited(String),
    InternalServerError(String),
    BadGateway(String),
    UnexpectedStatus {
        status: u16,
        body: String,
    },
    Http(String),
    Json(String),
    Io(String),
    Validation(String),
}

/// View of [`SdkError`].
pub enum SdkErrorView {
    BadRequest(Seq<char>),
    Unauthorized(Seq<char>),
    Forbidden(Seq<char>),
    NotFound(Seq<char>),
    Conflict(Seq<char>),
    UnprocessableContent(Seq<char>),
    RateLimited(Seq<char>),
    InternalServerError(Seq<char>),
    BadGateway(Seq<char>),
    UnexpectedStatus {
        status: u16,
        body: Seq<char>,
    },
    Http(Seq<char>),
    Json(Seq<char>),
    Io(Seq<char>),
    Validation(Seq<char>),
}

impl DeepView for SdkError {
    type V = SdkErrorView;

    open spec fn deep_view(&self) -> SdkErrorView {
        match self {
            SdkError::BadRequest(v) => SdkErrorView::BadRequest(v.deep_view()),
            SdkError::Unauthorized(v) => SdkErrorView::Unauthorized(v.deep_view()),
            SdkError::Forbidden(v) => SdkErrorView::Forbidden(v.deep_view()),
            SdkError::NotFound(v) => SdkErrorView::NotFound(v.deep_view()),
            SdkError::Conflict(v) => SdkErrorView::Conflict(v.deep_view()),
            SdkError::UnprocessableContent(v) => SdkErrorView::UnprocessableContent(v.deep_view()),
            SdkError::RateLimited(v) => SdkErrorView::RateLimited(v.deep_view()),
            SdkError::InternalServerError(v) => SdkErrorView::InternalServerError(v.deep_view()),
            SdkError::BadGateway(v) => SdkErrorView::BadGateway(v.deep_view()),
            SdkError::UnexpectedStatus { status, body } => SdkErrorView::UnexpectedStatus {
                status: status.deep_view(),
                body: body.deep_view(),
            },
            SdkError::Http(v) => SdkErrorView::Http(v.deep_view()),
            SdkError::Json(v) => SdkErrorView::Json(v.deep_view()),
            SdkError::Io(v) => SdkErrorView::Io(v.deep_view()),
            SdkError::Validation(v) => SdkErrorView::Validation(v.deep_view()),
        }
    }
}

/// A failure, with what it means for the next attempt.
#[derive(Debug, PartialEq, Eq)]
pub struct ClassifiedFailure {
    /// `http_4xx`, `http_5xx`, `network` or `unknown`.
    pub kind: String,
    pub status: Option<u16>,
    pub error: String,
    /// Whether only the operator brings the entry back.
    pub park: bool,
}

/// View of [`ClassifiedFailure`].
pub struct ClassifiedFailureView {
    pub kind: Seq<char>,
    pub status: Option<u16>,
    pub error: Seq<char>,
    pub park: bool,
}

impl DeepView for ClassifiedFailure {
    type V = ClassifiedFailureView;

    open spec fn deep_view(&self) -> ClassifiedFailureView {
        ClassifiedFailureView {
            kind: self.kind.deep_view(),
            status: self.status.deep_view(),
            error: self.error.deep_view(),
            park: self.park.deep_view(),
        }
    }
}

impl Dup for ClassifiedFailure {
    fn dup(&self) -> (copy: Self) {
        ClassifiedFailure {
            kind: self.kind.dup(),
            status: self.status.dup(),
            error: self.error.dup(),
            park: self.park.dup(),
        }
    }
}

/// An entry of the queue, with its identity.
#[derive(Debug, PartialEq, Eq)]
pub struct QueueEntry {
    pub queue_id: String,
    pub run: QueuedRun,
}

/// View of [`QueueEntry`].
pub struct QueueEntryView {
    pub queue_id: Seq<char>,
    pub run: QueuedRunView,
}

impl DeepView for QueueEntry {
    type V = QueueEntryView;

    open spec fn deep_view(&self) -> QueueEntryView {
        QueueEntryView {
            queue_id: self.queue_id.deep_view(),
            run: self.run.deep_view(),
        }
    }
}

impl Dup for QueueEntry {
    fn dup(&self) -> (copy: Self) {
        QueueEntry {
            queue_id: self.queue_id.dup(),
            run: self.run.dup(),
        }
    }
}

impl Keyed for QueueEntry {
    open spec fn sort_key(value: QueueEntryView) -> Seq<char> {
        value.queue_id
    }

    fn key_text(&self) -> (key: &str) {
        self.queue_id.as_str()
    }
}

// ---------------------------------------------------------------------------
// Claims
// ---------------------------------------------------------------------------

/// The entries that are being uploaded, each by one task.
#[derive(Debug, PartialEq, Eq)]
pub struct UploadClaims {
    pub held: Vec<String>,
}

impl DeepView for UploadClaims {
    type V = Seq<Seq<char>>;

    open spec fn deep_view(&self) -> Seq<Seq<char>> {
        self.held.deep_view()
    }
}

/// The claims without an entry.
pub open spec fn released(claims: Seq<Seq<char>>, queue_id: Seq<char>) -> Seq<Seq<char>>
    decreases claims.len(),
{
    if claims.len() == 0 {
        Seq::empty()
    } else if claims.last() == queue_id {
        released(claims.drop_last(), queue_id)
    } else {
        released(claims.drop_last(), queue_id).push(claims.last())
    }
}

impl UploadClaims {
    /// No entry is being uploaded.
    pub fn new() -> (claims: Self)
        ensures
            claims.deep_view().len() == 0,
    {
        UploadClaims { held: Vec::new() }
    }

    fn holds(&self, queue_id: &str) -> (yes: bool)
        ensures
            yes == self.deep_view().contains(queue_id@),
    {
        let mut i: usize = 0;
        while i < self.held.len()
            invariant
                i <= self.held@.len(),
                forall|k: int| 0 <= k < i ==> (#[trigger] self.held.deep_view()[k]) != queue_id@,
            decreases self.held@.len() - i,
        {
            assert(self.held.deep_view()[i as int] == self.held@[i as int]@);
            if text::same(self.held[i].as_str(), queue_id) {
                return true;
            }
            i += 1;
        }
        false
    }

    /// Claims an entry, and says whether it could: not where another task
    /// holds it.
    pub fn try_acquire(&mut self, queue_id: &str) -> (acquired: bool)
        ensures
            acquired == !old(self).deep_view().contains(queue_id@),
            final(self).deep_view() == (if acquired {
                old(self).deep_view().push(queue_id@)
            } else {
                old(self).deep_view()
            }),
    {
        if self.holds(queue_id) {
            return false;
        }
        push(&mut self.held, queue_id.to_string());
        true
    }

    /// Gives a claim back.
    pub fn release(&mut self, queue_id: &str)
        ensures
            final(self).deep_view() == released(old(self).deep_view(), queue_id@),
    {
        let mut kept: Vec<String> = Vec::new();
        let mut i: usize = 0;
        assert(kept.deep_view() =~= released(self.held.deep_view().take(0), queue_id@));
        while i < self.held.len()
            invariant
                i <= self.held@.len(),
                self.held.deep_view() == old(self).deep_view(),
                kept.deep_view() == released(self.held.deep_view().take(i as int), queue_id@),
            decreases self.held@.len() - i,
        {
            let ghost seen = self.held.deep_view().take(i + 1);
            assert(seen.drop_last() =~= self.held.deep_view().take(i as int));
            assert(seen.last() == self.held@[i as int]@);
            if !text::same(self.held[i].as_str(), queue_id) {
                push(&mut kept, self.held[i].dup());
            }
            i += 1;
        }
        assert(self.held.deep_view().take(self.held@.len() as int) =~= self.held.deep_view());
        self.held = kept;
    }
}

// ---------------------------------------------------------------------------
// Texts
// ---------------------------------------------------------------------------

/// How long to wait after an attempt, in seconds. The first wait is longer
/// than the tick of the drain, so that the server has time to recover.
pub open spec fn backoff(attempt: u32) -> i64 {
    if attempt <= 1 {
        15
    } else if attempt == 2 {
        30
    } else if attempt == 3 {
        300
    } else if attempt == 4 {
        900
    } else {
        3600
    }
}

/// How long to wait after an attempt, in seconds.
pub fn backoff_seconds(attempt: u32) -> (seconds: i64)
    ensures
        seconds == backoff(attempt),
{
    match attempt {
        0 | 1 => 15,
        2 => 30,
        3 => 60 * 5,
        4 => 60 * 15,
        _ => 60 * 60,
    }
}

/// An error text within its bound; one that is cut says so. It is cut between
/// characters.
pub open spec fn truncated(s: Seq<char>) -> Seq<char> {
    if utf8_size(s) <= MAX_ERROR_BODY {
        s
    } else {
        fitting_prefix(s, MAX_ERROR_BODY as nat) + "\n…(truncated)"@
    }
}

/// Keeps an error text within its bound.
pub fn truncate_error(s: String) -> (out: String)
    ensures
        out@ == truncated(s@),
{
    if text::size_of(s.as_str()) <= MAX_ERROR_BODY {
        s
    } else {
        let mut out = text::prefix_within(s.as_str(), MAX_ERROR_BODY);
        out.append("\n…(truncated)");
        out
    }
}

/// The page of a run on the dashboard.
pub open spec fn dashboard_url(
    base_url: Seq<char>,
    org_slug: Seq<char>,
    procedure_id: Seq<char>,
    run_id: Seq<char>,
) -> Seq<char> {
    drop_end_while(base_url, one_of(seq!['/'])) + "/"@ + org_slug + "/"@ + procedure_id + "/runs/"@
        + run_id
}

/// The page of a run on the dashboard.
pub fn dashboard_url_for(base_url: &str, org_slug: &str, procedure_id: &str, run_id: &str) -> (url:
    String)
    ensures
        url@ == dashboard_url(base_url@, org_slug@, procedure_id@, run_id@),
{
    let mut set: Vec<char> = Vec::new();
    set.push('/');
    assert(set@ =~= seq!['/']);
    let base = text::trim_end_matches(base_url, set.as_slice());
    let mut url = text::concat3(base.as_str(), "/", org_slug);
    url.append("/");
    url.append(procedure_id);
    url.append("/runs/");
    url.append(run_id);
    url
}

/// The identity of a queue entry: the procedure and the time in milliseconds.
pub open spec fn queue_id_of(procedure_id: Seq<char>, millis: i64) -> Seq<char> {
    procedure_id + "_"@ + decimal_int(millis as int)
}

/// Makes the identity of a queue entry.
pub fn new_queue_id(procedure_id: &str, millis: i64) -> (id: String)
    ensures
        id@ == queue_id_of(procedure_id@, millis),
{
    let n = text::decimal_int_text(millis);
    text::concat3(procedure_id, "_", n.as_str())
}

// ---------------------------------------------------------------------------
// Failures
// ---------------------------------------------------------------------------

/// A refusal by the server: trying again does not help.
pub open spec fn refused(status: u16, message: Seq<char>) -> ClassifiedFailureView {
    ClassifiedFailureView {
        kind: "http_4xx"@,
        status: if status == 0 {
            None
        } else {
            Some(status)
        },
        error: truncated(message),
        park: true,
    }
}

/// A failure of the server: it is tried again.
pub open spec fn unavailable(status: u16, message: Seq<char>) -> ClassifiedFailureView {
    ClassifiedFailureView {
        kind: "http_5xx"@,
        status: Some(status),
        error: truncated(message),
        park: false,
    }
}

/// A failure without a status.
pub open spec fn without_status(kind: Seq<char>, error: Seq<char>, park: bool) -> ClassifiedFailureView {
    ClassifiedFailureView { kind, status: None, error: truncated(error), park }
}

/// What an error of the client means for the next attempt.
pub open spec fn classified(err: SdkErrorView) -> ClassifiedFailureView {
    match err {
        SdkErrorView::BadRequest(m) => refused(400, m),
        SdkErrorView::Unauthorized(m) => refused(401, m),
        SdkErrorView::Forbidden(m) => refused(403, m),
        SdkErrorView::NotFound(m) => refused(404, m),
        SdkErrorView::Conflict(m) => refused(409, m),
        SdkErrorView::UnprocessableContent(m) => refused(422, m),
        SdkErrorView::RateLimited(m) => unavailable(429, m),
        SdkErrorView::InternalServerError(m) => unavailable(500, m),
        SdkErrorView::BadGateway(m) => unavailable(502, m),
        SdkErrorView::UnexpectedStatus { status, body } => if 400 <= status < 500 {
            refused(status, body)
        } else if 500 <= status < 600 {
            unavailable(status, body)
        } else {
            ClassifiedFailureView {
                kind: "unknown"@,
                status: Some(status),
                error: truncated(body),
                park: true,
            }
        },
        SdkErrorView::Http(e) => without_status("network"@, "HTTP transport: "@ + e, false),
        SdkErrorView::Json(e) => without_status("unknown"@, "JSON: "@ + e, true),
        SdkErrorView::Io(e) => without_status("network"@, "I/O: "@ + e, false),
        SdkErrorView::Validation(m) => refused(0, m),
    }
}

fn mk_4xx(status: u16, message: String) -> (out: ClassifiedFailure)
    ensures
        out.deep_view() == refused(status, message@),
{
    let kept: Option<u16> = if status == 0 {
        None
    } else {
        Some(status)
    };
    ClassifiedFailure {
        kind: "http_4xx".to_string(),
        status: kept,
        error: truncate_error(message),
        park: true,
    }
}

fn mk_5xx(status: u16, message: String) -> (out: ClassifiedFailure)
    ensures
        out.deep_view() == unavailable(status, message@),
{
    ClassifiedFailure {
        kind: "http_5xx".to_string(),
        status: Some(status),
        error: truncate_error(message),
        park: false,
    }
}

fn mk_plain(kind: &str, error: String, park: bool) -> (out: ClassifiedFailure)
    ensures
        out.deep_view() == without_status(kind@, error@, park),
{
    ClassifiedFailure { kind: kind.to_string(), status: None, error: truncate_error(error), park }
}

/// What an error of the client means for the next attempt.
pub fn classify_sdk_error(err: SdkError) -> (out: ClassifiedFailure)
    ensures
        out.deep_view() == classified(err.deep_view()),
{
    match err {
        SdkError::BadRequest(m) => mk_4xx(400, m),
        SdkError::Unauthorized(m) => mk_4xx(401, m),
        SdkError::Forbidden(m) => mk_4xx(403, m),
        SdkError::NotFound(m) => mk_4xx(404, m),
        SdkError::Conflict(m) => mk_4xx(409, m),
        SdkError::UnprocessableContent(m) => mk_4xx(422, m),
        SdkError::RateLimited(m) => mk_5xx(429, m),
        SdkError::InternalServerError(m) => mk_5xx(500, m),
        SdkError::BadGateway(m) => mk_5xx(502, m),
        SdkError::UnexpectedStatus { status, body } => {
            if 400 <= status && status < 500 {
                mk_4xx(status, body)
            } else if 500 <= status && status < 600 {
                mk_5xx(status, body)
            } else {
                ClassifiedFailure {
                    kind: "unknown".to_string(),
                    status: Some(status),
                    error: truncate_error(body),
                    park: true,
                }
            }
        },
        SdkError::Http(e) => mk_plain(
            "network",
            text::concat2("HTTP transport: ", e.as_str()),
            false,
        ),
        SdkError::Json(e) => mk_plain("unknown", text::concat2("JSON: ", e.as_str()), true),
        SdkError::Io(e) => mk_plain("network", text::concat2("I/O: ", e.as_str()), false),
        SdkError::Validation(m) => mk_4xx(0, m),
    }
}

/// Whether a lower-case error text is of a kind that trying again does not
/// mend.
pub open spec fn is_deterministic(lower: Seq<char>) -> bool {
    has_part(lower, "denied"@) || has_part(lower, "forbidden"@) || has_part(lower, "expired"@)
        || has_part(lower, "signature"@) || has_part(lower, "invalid"@) || has_part(
        lower,
        "not found"@,
    )
}

/// Whether a lower-case error text speaks of something that may pass.
pub open spec fn speaks_of_network(lower: Seq<char>) -> bool {
    has_part(lower, "connection"@) || has_part(lower, "timeout"@) || has_part(lower, "dns"@)
        || has_part(lower, "reset"@) || has_part(lower, "temporarily"@)
}

/// What the error of an attachment means for the next attempt, by the error
/// and its lower-case form.
pub open spec fn classified_attachment(message: Seq<char>, lower: Seq<char>) -> ClassifiedFailureView {
    if !is_deterministic(lower) && speaks_of_network(lower) {
        without_status("network"@, message, false)
    } else {
        without_status("unknown"@, message, true)
    }
}

/// What the error of an attachment means, by the error and its lower-case
/// form.
pub fn classify_lowered(message: String, lower: &str) -> (out: ClassifiedFailure)
    ensures
        out.deep_view() == classified_attachment(message@, lower@),
{
    let deterministic = text::contains(lower, "denied") || text::contains(lower, "forbidden")
        || text::contains(lower, "expired") || text::contains(lower, "signature")
        || text::contains(lower, "invalid") || text::contains(lower, "not found");
    let network = text::contains(lower, "connection") || text::contains(lower, "timeout")
        || text::contains(lower, "dns") || text::contains(lower, "reset") || text::contains(
        lower,
        "temporarily",
    );
    if !deterministic && network {
        mk_plain("network", message, false)
    } else {
        mk_plain("unknown", message, true)
    }
}

/// What the error of an attachment means for the next attempt.
pub fn classify_attachment_error(message: String) -> (out: ClassifiedFailure)
    ensures
        out.deep_view() == classified_attachment(message@, lowercase(message@)),
{
    let lower = text::to_lowercase(message.as_str());
    classify_lowered(message, lower.as_str())
}

/// When the next attempt is allowed after a failure.
pub open spec fn next_attempt_at(attempt: u32, park: bool, now: Instant) -> Option<Seq<char>> {
    if park {
        None
    } else {
        match instant_after(now, backoff(attempt)) {
            Some(at) => Some(stamp_text(at)),
            None => None,
        }
    }
}

fn schedule(attempt: u32, park: bool, now: Instant) -> (at: Option<String>)
    ensures
        at.deep_view() == next_attempt_at(attempt, park, now),
{
    if park {
        return None;
    }
    match after_seconds(now, backoff_seconds(attempt)) {
        Some(at) => Some(stamp(at)),
        None => None,
    }
}

/// An entry after a failed attempt.
pub open spec fn with_failure(
    q: QueuedRunView,
    attempt: u32,
    cls: ClassifiedFailureView,
    now: Instant,
) -> QueuedRunView {
    failed_at(q, attempt, cls, stamp_text(now), next_attempt_at(attempt, cls.park, now))
}

/// The announcement of a failed attempt.
pub open spec fn failure_event(
    queue_id: Seq<char>,
    attempt: u32,
    cls: ClassifiedFailureView,
    now: Instant,
) -> StationEventView {
    StationEventView::RunUploadFailed {
        queue_id,
        attempt,
        kind: cls.kind,
        status: cls.status,
        error: cls.error,
        next_retry_at: next_attempt_at(attempt, cls.park, now),
    }
}

/// An entry after an attempt that failed at some time and may be tried again at
/// another.
pub open spec fn failed_at(
    q: QueuedRunView,
    attempt: u32,
    cls: ClassifiedFailureView,
    at: Seq<char>,
    next: Option<Seq<char>>,
) -> QueuedRunView {
    QueuedRunView {
        attempt_count: attempt,
        last_attempt_at: Some(at),
        next_retry_at: next,
        parked: cls.park,
        last_error: Some(
            UploadFailureRecordView {
                kind: cls.kind,
                status: cls.status,
                error: cls.error,
                failed_at: Some(at),
            },
        ),
        ..q
    }
}

/// Records an attempt that failed at some time and may be tried again at
/// another.
pub fn record_failure_at(
    queued: &QueuedRun,
    attempt: u32,
    cls: &ClassifiedFailure,
    at: &str,
    next: &Option<String>,
) -> (out: QueuedRun)
    ensures
        out.deep_view() == failed_at(
            queued.deep_view(),
            attempt,
            cls.deep_view(),
            at@,
            next.deep_view(),
        ),
{
    let mut updated = queued.dup();
    updated.attempt_count = attempt;
    updated.last_attempt_at = Some(at.to_string());
    updated.next_retry_at = next.dup();
    updated.parked = cls.park;
    updated.last_error = Some(
        UploadFailureRecord {
            kind: cls.kind.dup(),
            status: cls.status,
            error: cls.error.dup(),
            failed_at: Some(at.to_string()),
        },
    );
    updated
}

/// Records a failed attempt: gives the entry to keep and its announcement.
pub fn record_failure(
    queue_id: &str,
    queued: &QueuedRun,
    attempt: u32,
    cls: &ClassifiedFailure,
    now: Instant,
) -> (out: (QueuedRun, StationEvent))
    ensures
        out.0.deep_view() == with_failure(queued.deep_view(), attempt, cls.deep_view(), now),
        out.1.deep_view() == failure_event(queue_id@, attempt, cls.deep_view(), now),
{
    let next_retry_at = schedule(attempt, cls.park, now);
    let at = stamp(now);
    let updated = record_failure_at(queued, attempt, cls, at.as_str(), &next_retry_at);
    (
        updated,
        StationEvent::RunUploadFailed {
            queue_id: queue_id.to_string(),
            attempt,
            kind: cls.kind.dup(),
            status: cls.status,
            error: cls.error.dup(),
            next_retry_at,
        },
    )
}

// ---------------------------------------------------------------------------
// Due entries
// ---------------------------------------------------------------------------

/// Whether an entry whose time could be read, or not, is to be tried now: only
/// behind that time.
pub open spec fn due_after(parked: bool, next: Option<Instant>, now: Instant) -> bool {
    !parked && match next {
        Some(at) => before(at, now),
        None => true,
    }
}

/// Whether an entry is to be tried now. One whose time cannot be read is.
pub open spec fn due(q: QueuedRunView, now: Instant) -> bool {
    due_after(
        q.parked,
        match q.next_retry_at {
            None => None,
            Some(s) => rfc3339_instant(s),
        },
        now,
    )
}

/// Whether an entry is to be tried now, by the time before which it is not.
pub fn is_due_after(parked: bool, next: Option<Instant>, now: Instant) -> (yes: bool)
    ensures
        yes == due_after(parked, next, now),
{
    !parked && match next {
        Some(at) => is_before(at, now),
        None => true,
    }
}

/// Whether an entry is to be tried now.
pub fn is_due(q: &QueuedRun, now: Instant) -> (yes: bool)
    ensures
        yes == due(q.deep_view(), now),
{
    let next = match &q.next_retry_at {
        None => None,
        Some(s) => parse_rfc3339(s.as_str()),
    };
    is_due_after(q.parked, next, now)
}

/// The entries that are to be tried now.
pub open spec fn due_entries(pending: Seq<QueueEntryView>, now: Instant) -> Seq<QueueEntryView> {
    pending.filter(|e: QueueEntryView| due(e.run, now))
}

/// The entries that are to be tried now, in the order of the queue.
pub fn drain(pending: &Vec<QueueEntry>, now: Instant) -> (out: Vec<QueueEntry>)
    ensures
        out.deep_view() == due_entries(pending.deep_view(), now),
{
    let mut out: Vec<QueueEntry> = Vec::new();
    let mut i: usize = 0;
    proof {
        reveal(Seq::filter);
        assert(out.deep_view() =~= due_entries(pending.deep_view().take(0), now));
    }
    while i < pending.len()
        invariant
            i <= pending@.len(),
            out.deep_view() == due_entries(pending.deep_view().take(i as int), now),
        decreases pending@.len() - i,
    {
        proof {
            reveal(Seq::filter);
            let seen = pending.deep_view().take(i + 1);
            assert(seen.drop_last() =~= pending.deep_view().take(i as int));
            assert(seen.last() == pending@[i as int].deep_view());
        }
        if is_due(&pending[i].run, now) {
            push(&mut out, pending[i].dup());
        }
        i += 1;
    }
    assert(pending.deep_view().take(pending@.len() as int) =~= pending.deep_view());
    out
}

/// An entry that the operator brings back.
pub open spec fn brought_back(q: QueuedRunView) -> QueuedRunView {
    QueuedRunView { parked: false, next_retry_at: None, ..q }
}

/// Brings an entry back: it is tried at once.
pub fn retry_one(q: &QueuedRun) -> (out: QueuedRun)
    ensures
        out.deep_view() == brought_back(q.deep_view()),
{
    let mut out = q.dup();
    out.parked = false;
    out.next_retry_at = None;
    out
}

// ---------------------------------------------------------------------------
// Laws
// ---------------------------------------------------------------------------

/// The wait never gets shorter, and stays between a quarter of a minute and an
/// hour.
pub proof fn law_backoff_grows_and_is_capped(a: u32, b: u32)
    requires
        a <= b,
    ensures
        backoff(a) <= backoff(b),
        15 <= backoff(a) <= 3600,
        5 <= a ==> backoff(a) == 3600,
{
}

/// An error text that says it may pass is still parked where it also says that
/// it was refused.
pub proof fn law_refusals_beat_transient_errors(message: Seq<char>, lower: Seq<char>)
    ensures
        is_deterministic(lower) ==> classified_attachment(message, lower).park,
        classified_attachment(message, lower).park <==> classified_attachment(message, lower).kind
            == "unknown"@,
{
    reveal_strlit("unknown");
    reveal_strlit("network");
    assert("unknown"@[0] == 'u');
    assert("network"@[0] == 'n');
}

/// A failure keeps everything of the entry that the next attempt needs: the
/// request, its files, and the run where the server has created it.
pub proof fn law_failures_keep_the_run(
    q: QueuedRunView,
    attempt: u32,
    cls: ClassifiedFailureView,
    now: Instant,
)
    ensures
        ({
            let after = with_failure(q, attempt, cls, now);
            &&& after.request == q.request
            &&& after.attachments == q.attachments
            &&& after.run_id == q.run_id
            &&& after.queued_at == q.queued_at
            &&& after.parked == cls.park
            &&& cls.park ==> after.next_retry_at is None
        }),
{
}

/// A failure that may pass is tried again: on a clock that keeps within the
/// calendar, the entry and its announcement say when, and that is once the
/// backoff is over.
pub proof fn law_passing_failures_are_retried(
    queue_id: Seq<char>,
    q: QueuedRunView,
    attempt: u32,
    cls: ClassifiedFailureView,
    now: Instant,
)
    requires
        !cls.park,
        on_calendar(now),
        in_calendar(now.secs + backoff(attempt)),
    ensures
        instant_after(now, backoff(attempt)) matches Some(next) && {
            &&& next.secs == now.secs + backoff(attempt)
            &&& before(now, next)
            &&& with_failure(q, attempt, cls, now).next_retry_at == Some(stamp_text(next))
            &&& failure_event(queue_id, attempt, cls, now)->RunUploadFailed_next_retry_at == Some(
                stamp_text(next),
            )
        },
{
}

/// A parked entry is never tried by itself; once it is brought back it is
/// tried at once.
pub proof fn law_parked_waits_for_the_operator(q: QueuedRunView, now: Instant, later: Instant)
    ensures
        q.parked ==> !due(q, now),
        due(brought_back(q), later),
        brought_back(q).run_id == q.run_id,
        brought_back(q).attempt_count == q.attempt_count,
{
}

/// An entry is claimed by one task at a time.
pub proof fn law_one_claim_at_a_time(claims: Seq<Seq<char>>, queue_id: Seq<char>, other: Seq<char>)
    ensures
        !released(claims, queue_id).contains(queue_id),
        other != queue_id ==> released(claims, queue_id).contains(other) == claims.contains(other),
    decreases claims.len(),
{
    if claims.len() > 0 {
        let rest = claims.drop_last();
        law_one_claim_at_a_time(rest, queue_id, other);
        let after = released(claims, queue_id);
        assert(claims =~= rest.push(claims.last()));
        if other != queue_id {
            if claims.contains(other) {
                let k = choose|k: int| 0 <= k < claims.len() && claims[k] == other;
                if k < rest.len() {
                    assert(rest[k] == other);
                    let j = choose|j: int|
                        0 <= j < released(rest, queue_id).len() && released(rest, queue_id)[j]
                            == other;
                    assert(after[j] == other);
                } else {
                    assert(after[after.len() - 1] == other);
                }
            }
            if after.contains(other) {
                let j = choose|j: int| 0 <= j < after.len() && after[j] == other;
                if j < released(rest, queue_id).len() {
                    assert(released(rest, queue_id)[j] == other);
                    let k = choose|k: int| 0 <= k < rest.len() && rest[k] == other;
                    assert(claims[k] == other);
                } else {
                    assert(claims[claims.len() - 1] == other);
                }
            }
        }
        if after.contains(queue_id) {
            let j = choose|j: int| 0 <= j < after.len() && after[j] == queue_id;
            if j < released(rest, queue_id).len() {
                assert(released(rest, queue_id)[j] == queue_id);
            }
        }
    }
}

proof fn lemma_decimal_has_no_mark(n: nat)
    ensures
        forall|i: int| 0 <= i < decimal(n).len() ==> (#[trigger] decimal(n)[i]) != '_',
    decreases n,
{
    assert(digit(n % 10) != '_');
    if n >= 10 {
        lemma_decimal_has_no_mark(n / 10);
        let rest = decimal(n / 10);
        assert forall|i: int| 0 <= i < decimal(n).len() implies (#[trigger] decimal(n)[i])
            != '_' by {
            if i < rest.len() {
                assert(decimal(n)[i] == rest[i]);
            }
        }
    }
}

/// Entries of different procedures never have the same identity, whatever the
/// time.
pub proof fn law_queue_ids_tell_procedures_apart(
    a: Seq<char>,
    b: Seq<char>,
    at: i64,
    other: i64,
)
    requires
        queue_id_of(a, at) == queue_id_of(b, other),
    ensures
        a == b,
{
    reveal_strlit("_");
    let d = decimal_int(at as int);
    let e = decimal_int(other as int);
    let id = queue_id_of(a, at);
    lemma_no_mark(at as int);
    lemma_no_mark(other as int);
    assert(id == a + "_"@ + d);
    assert(id == b + "_"@ + e);
    assert(id[a.len() as int] == '_');
    assert(id[b.len() as int] == '_');
    if a.len() < b.len() {
        assert(id[b.len() as int] == d[b.len() - a.len() - 1]);
    }
    if b.len() < a.len() {
        assert(id[a.len() as int] == e[a.len() - b.len() - 1]);
    }
    assert(a =~= id.take(a.len() as int));
    assert(b =~= id.take(b.len() as int));
}

proof fn lemma_no_mark(n: int)
    ensures
        forall|i: int| 0 <= i < decimal_int(n).len() ==> (#[trigger] decimal_int(n)[i]) != '_',
{
    if n >= 0 {
        lemma_decimal_has_no_mark(n as nat);
    } else {
        lemma_decimal_has_no_mark((-n) as nat);
        reveal_strlit("-");
        let rest = decimal((-n) as nat);
        assert forall|i: int| 0 <= i < decimal_int(n).len() implies (#[trigger] decimal_int(n)[i])
            != '_' by {
            if i > 0 {
                assert(decimal_int(n)[i] == rest[i - 1]);
            }
        }
    }
}

} // verus!
