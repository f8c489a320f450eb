//! Uploading a queue entry: the run first, then its files.

use vstd::prelude::*;
use vstd::string::*;
use crate::assoc;
use crate::assoc::lookup;
use crate::dup::{push, Dup};
use crate::event_router::{stamp, stamp_text};
use crate::json::{json_of_text, member_text, Json, JsonView};
use crate::outcomes::{ABORTED, ERROR, FAIL, PASS, TIMEOUT};
use crate::protocol::{StationEvent, StationEventView};
use crate::queue::policy::{
    classified, classified_attachment, classify_attachment_error, classify_sdk_error,
    dashboard_url, dashboard_url_for, failure_event, record_failure, with_failure,
    ClassifiedFailure, ClassifiedFailureView, QueueEntry, QueueEntryView, SdkError, SdkErrorView,
};
use crate::queue::{QueuedRun, QueuedRunView};
use crate::sdk::RunGetOutcome;
use crate::text;
use crate::text::lowercase;
use crate::time::Instant;

verus! {

/// What came of a file.
#[derive(Debug, PartialEq, Eq)]
pub enum AttachmentOutcome {
    /// The file is not there any more.
    Missing,
    Uploaded,
    Failed(String),
}

/// View of [`AttachmentOutcome`].
pub enum AttachmentOutcomeView {
    Missing,
    Uploaded,
    Failed(Seq<char>),
}

impl DeepView for AttachmentOutcome {
    type V = AttachmentOutcomeView;

    open spec fn deep_view(&self) -> AttachmentOutcomeView {
        match self {
            AttachmentOutcome::Missing => AttachmentOutcomeView::Missing,
            AttachmentOutcome::Uploaded => AttachmentOutcomeView::Uploaded,
            AttachmentOutcome::Failed(v) => AttachmentOutcomeView::Failed(v.deep_view()),
        }
    }
}

/// What to do next for an entry.
#[derive(Debug, PartialEq, Eq)]
pub enum UploadAction {
    CreateRun,
    /// Upload a file, by its place in the entry.
    Attach {
        index: u64,
    },
    Finish,
}

/// View of [`UploadAction`].
pub enum UploadActionView {
    CreateRun,
    Attach {
        index: u64,
    },
    Finish,
}

impl DeepView for UploadAction {
    type V = UploadActionView;

    open spec fn deep_view(&self) -> UploadActionView {
        match self {
            UploadAction::CreateRun => UploadActionView::CreateRun,
            UploadAction::Attach { index } => UploadActionView::Attach {
                index: index.deep_view(),
            },
            UploadAction::Finish => UploadActionView::Finish,
        }
    }
}

/// The upload of an entry.
#[derive(Debug, PartialEq, Eq)]
pub struct Upload {
    pub queue_id: String,
    /// The entry as it is kept.
    pub state: QueuedRun,
    pub attempt: u32,
    /// How many files were looked at.
    pub done: u64,
    /// The last failure of a file.
    pub failure: Option<ClassifiedFailure>,
}

/// View of [`Upload`].
pub struct UploadView {
    pub queue_id: Seq<char>,
    pub state: QueuedRunView,
    pub attempt: u32,
    pub done: u64,
    pub failure: Option<ClassifiedFailureView>,
}

impl DeepView for Upload {
    type V = UploadView;

    open spec fn deep_view(&self) -> UploadView {
        UploadView {
            queue_id: self.queue_id.deep_view(),
            state: self.state.deep_view(),
            attempt: self.attempt.deep_view(),
            done: self.done.deep_view(),
            failure: self.failure.deep_view(),
        }
    }
}

/// How an attempt ends.
#[derive(Debug, PartialEq, Eq)]
pub struct UploadEnd {
    /// The entry to keep, where it changed.
    pub keep: Option<QueuedRun>,
    /// Whether the entry leaves the queue.
    pub remove: bool,
    pub events: Vec<StationEvent>,
    /// The run, where everything was uploaded.
    pub run_id: Option<String>,
}

/// View of [`UploadEnd`].
pub struct UploadEndView {
    pub keep: Option<QueuedRunView>,
    pub remove: bool,
    pub events: Seq<StationEventView>,
    pub run_id: Option<Seq<char>>,
}

impl DeepView for UploadEnd {
    type V = UploadEndView;

    open spec fn deep_view(&self) -> UploadEndView {
        UploadEndView {
            keep: self.keep.deep_view(),
            remove: self.remove.deep_view(),
            events: self.events.deep_view(),
            run_id: self.run_id.deep_view(),
        }
    }
}

/// The word of an outcome.
pub open spec fn outcome_label(outcome: RunGetOutcome) -> Seq<char> {
    match outcome {
        RunGetOutcome::Pass => PASS@,
        RunGetOutcome::Fail => FAIL@,
        RunGetOutcome::Error => ERROR@,
        RunGetOutcome::Timeout => TIMEOUT@,
        RunGetOutcome::Aborted => ABORTED@,
    }
}

/// The word of an outcome.
pub fn outcome_text(outcome: RunGetOutcome) -> (word: &'static str)
    ensures
        word@ == outcome_label(outcome),
{
    match outcome {
        RunGetOutcome::Pass => PASS,
        RunGetOutcome::Fail => FAIL,
        RunGetOutcome::Error => ERROR,
        RunGetOutcome::Timeout => TIMEOUT,
        RunGetOutcome::Aborted => ABORTED,
    }
}

/// When an entry was queued, or now where that is not known.
pub open spec fn queued_since(q: QueuedRunView, now: Instant) -> Seq<char> {
    match q.queued_at {
        Some(at) => at,
        None => stamp_text(now),
    }
}

/// The announcement of a queue entry.
pub open spec fn queued_event(queue_id: Seq<char>, q: QueuedRunView, now: Instant) -> StationEventView {
    StationEventView::RunUploadQueued {
        queue_id,
        procedure_id: q.request.procedure_id,
        outcome: outcome_label(q.request.outcome),
        serial_number: Some(q.request.serial_number),
        attachment_count: q.attachments.len() as u32,
        queued_at: queued_since(q, now),
    }
}

fn announce_queued(queue_id: &str, q: &QueuedRun, now: Instant) -> (event: StationEvent)
    ensures
        event.deep_view() == queued_event(queue_id@, q.deep_view(), now),
{
    let queued_at = match &q.queued_at {
        Some(at) => at.dup(),
        None => stamp(now),
    };
    StationEvent::RunUploadQueued {
        queue_id: queue_id.to_string(),
        procedure_id: q.request.procedure_id.dup(),
        outcome: outcome_text(q.request.outcome).to_string(),
        serial_number: Some(q.request.serial_number.dup()),
        attachment_count: #[verifier::truncate]
        (q.attachments.len() as u32),
        queued_at,
    }
}

/// Prepares an entry to be kept, and announces it. The time at which it was
/// queued first stays.
pub fn enqueue(queue_id: &str, queued: &mut QueuedRun, now: Instant) -> (event: StationEvent)
    ensures
        final(queued).deep_view() == (QueuedRunView {
            queued_at: Some(queued_since(old(queued).deep_view(), now)),
            ..old(queued).deep_view()
        }),
        event.deep_view() == queued_event(queue_id@, old(queued).deep_view(), now),
{
    if queued.queued_at.is_none() {
        queued.queued_at = Some(stamp(now));
    }
    announce_queued(queue_id, queued, now)
}

/// The number of the next attempt.
pub open spec fn attempt_after(count: u32) -> u32 {
    if count < u32::MAX {
        (count + 1) as u32
    } else {
        u32::MAX
    }
}

/// An entry whose run the server has created.
pub open spec fn with_run(q: QueuedRunView, run_id: Seq<char>, attempt: u32, now: Instant) -> QueuedRunView {
    QueuedRunView {
        run_id: Some(run_id),
        attempt_count: attempt,
        last_attempt_at: Some(stamp_text(now)),
        last_error: None,
        next_retry_at: None,
        parked: false,
        ..q
    }
}

/// What to do next: the run is created once, then its files follow.
pub open spec fn next_action(u: UploadView) -> UploadActionView {
    if u.state.run_id is None {
        UploadActionView::CreateRun
    } else if u.done < u.state.attachments.len() {
        UploadActionView::Attach { index: u.done }
    } else {
        UploadActionView::Finish
    }
}

/// What came of a file. A file that is not there any more was uploaded
/// before.
pub open spec fn with_outcome(u: UploadView, outcome: AttachmentOutcomeView) -> UploadView {
    UploadView {
        done: if u.done < u64::MAX {
            (u.done + 1) as u64
        } else {
            u.done
        },
        failure: match outcome {
            AttachmentOutcomeView::Failed(e) => Some(classified_attachment(e, lowercase(e))),
            _ => u.failure,
        },
        ..u
    }
}

/// How an attempt ends that could not create the run.
pub open spec fn not_created(u: UploadView, err: SdkErrorView, now: Instant) -> UploadEndView {
    UploadEndView {
        keep: Some(with_failure(u.state, u.attempt, classified(err), now)),
        remove: false,
        events: seq![failure_event(u.queue_id, u.attempt, classified(err), now)],
        run_id: None,
    }
}

/// How an attempt ends: the entry leaves the queue where everything was
/// uploaded. One whose run is not created, or whose files were not all looked
/// at, stays as it is.
pub open spec fn finished(
    u: UploadView,
    base_url: Seq<char>,
    org_slug: Seq<char>,
    now: Instant,
) -> UploadEndView {
    match u.failure {
        Some(cls) => UploadEndView {
            keep: Some(with_failure(u.state, u.attempt, cls, now)),
            remove: false,
            events: seq![failure_event(u.queue_id, u.attempt, cls, now)],
            run_id: None,
        },
        None => match u.state.run_id {
            Some(run_id) if u.done >= u.state.attachments.len() => {
                let url = dashboard_url(
                    base_url,
                    org_slug,
                    u.state.request.procedure_id,
                    run_id,
                );
                UploadEndView {
                    keep: None,
                    remove: true,
                    events: seq![
                        StationEventView::RunUploadSucceeded {
                            queue_id: u.queue_id,
                            run_id,
                            dashboard_url: Some(url),
                        },
                        StationEventView::RunUploaded {
                            procedure_id: u.state.request.procedure_id,
                            run_id,
                            dashboard_url: Some(url),
                        },
                    ],
                    run_id: Some(run_id),
                }
            },
            _ => UploadEndView {
                keep: None,
                remove: false,
                events: Seq::empty(),
                run_id: None,
            },
        },
    }
}

impl Upload {
    /// Begins an attempt, and announces it.
    pub fn begin(queue_id: &str, queued: &QueuedRun) -> (out: (Upload, StationEvent))
        ensures
            out.0.deep_view() == (UploadView {
                queue_id: queue_id@,
                state: queued.deep_view(),
                attempt: attempt_after(queued.attempt_count),
                done: 0,
                failure: None,
            }),
            out.1.deep_view() == (StationEventView::RunUploadStarted {
                queue_id: queue_id@,
                attempt: attempt_after(queued.attempt_count),
            }),
    {
        let attempt: u32 = if queued.attempt_count < u32::MAX {
            queued.attempt_count + 1
        } else {
            u32::MAX
        };
        (
            Upload {
                queue_id: queue_id.to_string(),
                state: queued.dup(),
                attempt,
                done: 0,
                failure: None,
            },
            StationEvent::RunUploadStarted { queue_id: queue_id.to_string(), attempt },
        )
    }

    /// What to do next.
    pub fn next(&self) -> (action: UploadAction)
        ensures
            action.deep_view() == next_action(self.deep_view()),
    {
        if self.state.run_id.is_none() {
            UploadAction::CreateRun
        } else if self.done < self.state.attachments.len() as u64 {
            UploadAction::Attach { index: self.done }
        } else {
            UploadAction::Finish
        }
    }

    /// The server has created the run. The entry is to be kept at once, so
    /// that it is not created again.
    pub fn created(&mut self, run_id: String, now: Instant)
        ensures
            final(self).deep_view() == (UploadView {
                state: with_run(
                    old(self).deep_view().state,
                    run_id@,
                    old(self).attempt,
                    now,
                ),
                ..old(self).deep_view()
            }),
    {
        self.state.run_id = Some(run_id);
        self.state.attempt_count = self.attempt;
        self.state.last_attempt_at = Some(stamp(now));
        self.state.last_error = None;
        self.state.next_retry_at = None;
        self.state.parked = false;
    }

    /// The run could not be created.
    pub fn create_failed(&self, err: SdkError, now: Instant) -> (end: UploadEnd)
        ensures
            end.deep_view() == not_created(self.deep_view(), err.deep_view(), now),
    {
        let cls = classify_sdk_error(err);
        self.fail(&cls, now)
    }

    fn fail(&self, cls: &ClassifiedFailure, now: Instant) -> (end: UploadEnd)
        ensures
            end.deep_view() == (UploadEndView {
                keep: Some(
                    with_failure(self.deep_view().state, self.attempt, cls.deep_view(), now),
                ),
                remove: false,
                events: seq![failure_event(self.queue_id@, self.attempt, cls.deep_view(), now)],
                run_id: None,
            }),
    {
        let (kept, event) = record_failure(
            self.queue_id.as_str(),
            &self.state,
            self.attempt,
            cls,
            now,
        );
        let mut events: Vec<StationEvent> = Vec::new();
        push(&mut events, event);
        assert(events.deep_view() =~= seq![
            failure_event(self.queue_id@, self.attempt, cls.deep_view(), now),
        ]);
        UploadEnd { keep: Some(kept), remove: false, events, run_id: None }
    }

    /// Takes in what came of a file.
    pub fn attached(&mut self, outcome: AttachmentOutcome)
        ensures
            final(self).deep_view() == with_outcome(old(self).deep_view(), outcome.deep_view()),
    {
        if self.done < u64::MAX {
            self.done += 1;
        }
        match outcome {
            AttachmentOutcome::Failed(e) => {
                self.failure = Some(classify_attachment_error(e));
            },
            _ => {},
        }
    }

    /// Ends the attempt.
    pub fn finish(&self, base_url: &str, org_slug: &str, now: Instant) -> (end: UploadEnd)
        ensures
            end.deep_view() == finished(self.deep_view(), base_url@, org_slug@, now),
    {
        match &self.failure {
            Some(cls) => {
                return self.fail(cls, now);
            },
            None => {},
        }
        let mut events: Vec<StationEvent> = Vec::new();
        if self.done < self.state.attachments.len() as u64 {
            assert(events.deep_view() =~= Seq::empty());
            return UploadEnd { keep: None, remove: false, events, run_id: None };
        }
        match &self.state.run_id {
            Some(run_id) => {
                let procedure_id = &self.state.request.procedure_id;
                let url = dashboard_url_for(
                    base_url,
                    org_slug,
                    procedure_id.as_str(),
                    run_id.as_str(),
                );
                push(
                    &mut events,
                    StationEvent::RunUploadSucceeded {
                        queue_id: self.queue_id.dup(),
                        run_id: run_id.dup(),
                        dashboard_url: Some(url.dup()),
                    },
                );
                push(
                    &mut events,
                    StationEvent::RunUploaded {
                        procedure_id: procedure_id.dup(),
                        run_id: run_id.dup(),
                        dashboard_url: Some(url),
                    },
                );
                let end = UploadEnd {
                    keep: None,
                    remove: true,
                    events,
                    run_id: Some(run_id.dup()),
                };
                assert(end.events.deep_view() =~= finished(
                    self.deep_view(),
                    base_url@,
                    org_slug@,
                    now,
                ).events);
                end
            },
            None => {
                assert(events.deep_view() =~= Seq::empty());
                UploadEnd { keep: None, remove: false, events, run_id: None }
            },
        }
    }
}

// ---------------------------------------------------------------------------
// The place of a file
// ---------------------------------------------------------------------------

/// Where the service is asked for the place of a file.
pub fn attachments_url(base_url: &str, run_id: &str) -> (url: String)
    ensures
        url@ == base_url@ + "/api/v2/runs/"@ + run_id@ + "/attachments"@,
{
    let mut url = text::concat3(base_url, "/api/v2/runs/", run_id);
    url.append("/attachments");
    url
}

/// Why a reply names no place for a file.
#[derive(Debug, Clone, Copy, PartialEq, Eq, Structural)]
pub enum ReplyFault {
    NotJson,
    NoUrl,
}

/// The place that a reply names.
pub open spec fn place_in(reply: JsonView) -> Result<Seq<char>, ReplyFault> {
    match member_text(reply, "upload_url"@) {
        Some(url) => Ok(url),
        None => Err(ReplyFault::NoUrl),
    }
}

/// The place that the text of a reply names.
pub open spec fn place_in_text(text: Seq<char>) -> Result<Seq<char>, ReplyFault> {
    match json_of_text(text) {
        Some(reply) => place_in(reply),
        None => Err(ReplyFault::NotJson),
    }
}

/// A place by its view.
pub open spec fn place_view(place: Result<String, ReplyFault>) -> Result<Seq<char>, ReplyFault> {
    match place {
        Ok(url) => Ok(url@),
        Err(fault) => Err(fault),
    }
}

/// Where the service takes a file, by its reply.
pub fn place_of(reply: &Json) -> (place: Result<String, ReplyFault>)
    ensures
        place_view(place) == place_in(reply.deep_view()),
{
    match reply.get_text("upload_url") {
        Some(url) => Ok(url.dup()),
        None => Err(ReplyFault::NoUrl),
    }
}

/// Where the service takes a file, by the text of its reply.
pub fn read_place(text: &str) -> (place: Result<String, ReplyFault>)
    ensures
        place_view(place) == place_in_text(text@),
{
    match Json::parse(text) {
        Some(reply) => place_of(&reply),
        None => Err(ReplyFault::NotJson),
    }
}

// ---------------------------------------------------------------------------
// Snapshots
// ---------------------------------------------------------------------------

/// What a surface that joins late is told of an entry: that it is queued, and
/// its last failure.
pub open spec fn entry_events(e: QueueEntryView, now: Instant) -> Seq<StationEventView> {
    let queued = seq![queued_event(e.queue_id, e.run, now)];
    match e.run.last_error {
        Some(err) => queued.push(
            StationEventView::RunUploadFailed {
                queue_id: e.queue_id,
                attempt: e.run.attempt_count,
                kind: err.kind,
                status: err.status,
                error: err.error,
                next_retry_at: e.run.next_retry_at,
            },
        ),
        None => queued,
    }
}

/// What a surface that joins late is told of the queue.
pub open spec fn snapshot(pending: Seq<QueueEntryView>, now: Instant) -> Seq<StationEventView>
    decreases pending.len(),
{
    if pending.len() == 0 {
        Seq::empty()
    } else {
        snapshot(pending.drop_last(), now) + entry_events(pending.last(), now)
    }
}

/// What a surface that joins late is told of the queue.
pub fn snapshot_events(pending: &Vec<QueueEntry>, now: Instant) -> (out: Vec<StationEvent>)
    ensures
        out.deep_view() == snapshot(pending.deep_view(), now),
{
    let mut out: Vec<StationEvent> = Vec::new();
    let mut i: usize = 0;
    assert(out.deep_view() =~= snapshot(pending.deep_view().take(0), now));
    while i < pending.len()
        invariant
            i <= pending@.len(),
            out.deep_view() == snapshot(pending.deep_view().take(i as int), now),
        decreases pending@.len() - i,
    {
        let ghost seen = pending.deep_view().take(i + 1);
        assert(seen.drop_last() =~= pending.deep_view().take(i as int));
        assert(seen.last() == pending@[i as int].deep_view());
        let ghost before = out.deep_view();
        let e = &pending[i];
        push(&mut out, announce_queued(e.queue_id.as_str(), &e.run, now));
        match &e.run.last_error {
            Some(err) => {
                push(
                    &mut out,
                    StationEvent::RunUploadFailed {
                        queue_id: e.queue_id.dup(),
                        attempt: e.run.attempt_count,
                        kind: err.kind.dup(),
                        status: err.status,
                        error: err.error.dup(),
                        next_retry_at: e.run.next_retry_at.dup(),
                    },
                );
            },
            None => {},
        }
        assert(out.deep_view() =~= before + entry_events(e.deep_view(), now));
        i += 1;
    }
    assert(pending.deep_view().take(pending@.len() as int) =~= pending.deep_view());
    out
}

/// Announces that the operator dropped an entry, where there is such an entry.
pub fn drop_one(pending: &Vec<QueueEntry>, queue_id: &str) -> (event: Option<StationEvent>)
    ensures
        event.deep_view() == (if lookup::<QueueEntry>(pending.deep_view(), queue_id@) is Some {
            Some(StationEventView::RunUploadDropped { queue_id: queue_id@, reason: "manual"@ })
        } else {
            None
        }),
{
    match assoc::get(pending, queue_id) {
        Some(_) => Some(
            StationEvent::RunUploadDropped {
                queue_id: queue_id.to_string(),
                reason: "manual".to_string(),
            },
        ),
        None => None,
    }
}

// ---------------------------------------------------------------------------
// Laws
// ---------------------------------------------------------------------------

/// A run that the server has created is never created again: not in this
/// attempt, and not in one after it failed.
pub proof fn law_a_run_is_created_once(
    u: UploadView,
    run_id: Seq<char>,
    outcome: AttachmentOutcomeView,
    base_url: Seq<char>,
    org_slug: Seq<char>,
    now: Instant,
    later: Instant,
)
    ensures
        ({
            let created = UploadView { state: with_run(u.state, run_id, u.attempt, now), ..u };
            let end = finished(with_outcome(created, outcome), base_url, org_slug, later);
            &&& !(next_action(created) is CreateRun)
            &&& !(next_action(with_outcome(created, outcome)) is CreateRun)
            &&& end.keep matches Some(kept) ==> kept.run_id == Some(run_id)
        }),
{
}

/// An entry leaves the queue exactly where its run was created, every file was
/// looked at and none failed; where one failed it is kept with the failure.
pub proof fn law_entries_leave_when_uploaded(
    u: UploadView,
    base_url: Seq<char>,
    org_slug: Seq<char>,
    now: Instant,
)
    ensures
        finished(u, base_url, org_slug, now).remove <==> u.failure is None && next_action(u)
            is Finish,
        finished(u, base_url, org_slug, now).remove ==> finished(u, base_url, org_slug, now).run_id
            == u.state.run_id,
        finished(u, base_url, org_slug, now).keep is Some <==> u.failure is Some,
{
}

/// A file that failed is not forgotten when later ones succeed.
pub proof fn law_failures_are_remembered(u: UploadView, outcome: AttachmentOutcomeView)
    ensures
        u.failure is Some ==> with_outcome(u, outcome).failure is Some,
        outcome is Failed ==> with_outcome(u, outcome).failure is Some,
{
}

/// Every entry of the queue shows in a snapshot.
pub proof fn law_snapshot_shows_every_entry(pending: Seq<QueueEntryView>, i: int, now: Instant)
    requires
        0 <= i < pending.len(),
    ensures
        snapshot(pending, now).contains(queued_event(pending[i].queue_id, pending[i].run, now)),
    decreases pending.len(),
{
    let rest = snapshot(pending.drop_last(), now);
    let all = snapshot(pending, now);
    let wanted = queued_event(pending[i].queue_id, pending[i].run, now);
    if i < pending.len() - 1 {
        assert(pending.drop_last()[i] == pending[i]);
        law_snapshot_shows_every_entry(pending.drop_last(), i, now);
        let k = choose|k: int| 0 <= k < rest.len() && rest[k] == wanted;
        assert(all[k] == wanted);
    } else {
        assert(entry_events(pending.last(), now)[0] == wanted);
        assert(all[rest.len() as int] == wanted);
    }
}

} // verus!
